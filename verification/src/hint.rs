//! Autocompletion hints for the interactive prompt: object names come
//! in as plain strings (the network layer supplies them), and the
//! logic here decides which hint matches the tail of the line being
//! typed. The line-editor glue lives outside the library.

use vstd::prelude::*;

use crate::engine::lexer::{is_ws_char, is_whitespace_char, str_to_chars};
use crate::engine::num::push_str_char;
use crate::engine::parser::spec_trim;

verus! {

/// The specification-level image of a [`QueryHint`].
pub ghost struct QueryHintV {
    pub display: Seq<char>,
    pub complete_up_to: int,
}

/// One completion hint: the text shown, and how much of it the
/// completion inserts.
#[derive(Debug, PartialEq)]
pub struct QueryHint {
    pub display: String,
    pub complete_up_to: usize,
}

impl View for QueryHint {
    type V = QueryHintV;

    open spec fn view(&self) -> QueryHintV {
        QueryHintV { display: self.display@, complete_up_to: self.complete_up_to as int }
    }
}

impl QueryHint {
    /// A hint that shows `value` and completes all of it.
    pub fn new(value: &str) -> (h: QueryHint)
        ensures
            h@ == (QueryHintV { display: value@, complete_up_to: value@.len() as int }),
    {
        let display = String::from_str(value);
        let complete_up_to = display.as_str().unicode_len();
        QueryHint { display, complete_up_to }
    }

    /// The hint with its first `strip_chars` characters removed; what
    /// the completion inserts shrinks by the same amount, to zero at
    /// the least.
    pub fn suffix(&self, strip_chars: usize) -> (h: QueryHint)
        ensures
            h@.display == self@.display.skip(
                if strip_chars <= self@.display.len() {
                    strip_chars as int
                } else {
                    self@.display.len() as int
                },
            ),
            h@.complete_up_to == if self@.complete_up_to >= strip_chars {
                self@.complete_up_to - strip_chars
            } else {
                0
            },
    {
        let cs = str_to_chars(self.display.as_str());
        let n = cs.len();
        let start_idx: usize = if strip_chars < n {
            strip_chars
        } else {
            n
        };
        let mut display = String::new();
        let mut i: usize = start_idx;
        assert(display@ =~= self.display@.subrange(start_idx as int, start_idx as int));
        while i < n
            invariant
                cs@ == self.display@,
                n == cs@.len(),
                start_idx <= i <= n,
                display@ == self.display@.subrange(start_idx as int, i as int),
            decreases n - i,
        {
            push_str_char(&mut display, cs[i]);
            i = i + 1;
            assert(display@ =~= self.display@.subrange(start_idx as int, i as int));
        }
        let complete_up_to = if self.complete_up_to >= strip_chars {
            self.complete_up_to - strip_chars
        } else {
            0
        };
        proof {
            assert(self.display@.subrange(start_idx as int, n as int) =~= self.display@.skip(
                start_idx as int,
            ));
        }
        QueryHint { display, complete_up_to }
    }

    /// The text this hint shows.
    pub fn display_text(&self) -> (r: String)
        ensures
            r@ == self@.display,
    {
        self.display.clone()
    }

    /// What the completion inserts: the front of the display text, or
    /// nothing when nothing is left to insert.
    pub fn completion(&self) -> (r: Option<String>)
        ensures
            match r {
                Some(s) => self@.complete_up_to > 0 && s@ == self@.display.take(
                    if self@.complete_up_to <= self@.display.len() {
                        self@.complete_up_to
                    } else {
                        self@.display.len() as int
                    },
                ),
                None => self@.complete_up_to <= 0,
            },
    {
        if self.complete_up_to > 0 {
            let cs = str_to_chars(self.display.as_str());
            let end: usize = if self.complete_up_to < cs.len() {
                self.complete_up_to
            } else {
                cs.len()
            };
            let mut r = String::new();
            let mut i: usize = 0;
            assert(r@ =~= self.display@.subrange(0, 0));
            while i < end
                invariant
                    cs@ == self.display@,
                    0 <= i <= end <= cs@.len(),
                    r@ == self.display@.subrange(0, i as int),
                decreases end - i,
            {
                push_str_char(&mut r, cs[i]);
                i = i + 1;
                assert(r@ =~= self.display@.subrange(0, i as int));
            }
            Some(r)
        } else {
            None
        }
    }
}

/// Whether `p` is a prefix of `s`.
pub open spec fn is_prefix(p: Seq<char>, s: Seq<char>) -> bool {
    p.len() <= s.len() && s.subrange(0, p.len() as int) == p
}

/// Whether the display text of `hints[k]` starts with `suffix`, for
/// the first such `k`.
pub open spec fn first_match(hints: Seq<QueryHintV>, suffix: Seq<char>, i: int) -> Option<int>
    decreases hints.len() - i,
    when 0 <= i <= hints.len()
{
    if i >= hints.len() {
        None
    } else if is_prefix(suffix, hints[i].display) {
        Some(i)
    } else {
        first_match(hints, suffix, i + 1)
    }
}

/// The position after the last word boundary (whitespace, dot,
/// opening parenthesis or comma) in `s`, or zero when there is none.
pub open spec fn spec_word_start(s: Seq<char>, j: int) -> int
    decreases j,
    when 0 <= j <= s.len()
{
    if j <= 0 {
        0
    } else if is_ws_char(s[j - 1]) || s[j - 1] == '.' || s[j - 1] == '(' || s[j - 1] == ',' {
        j
    } else {
        spec_word_start(s, j - 1)
    }
}

/// The position just after the last dot of `s`, or zero when there is
/// none.
pub open spec fn spec_after_last_dot(s: Seq<char>, j: int) -> int
    decreases j,
    when 0 <= j <= s.len()
{
    if j <= 0 {
        0
    } else if s[j - 1] == '.' {
        j - 1
    } else {
        spec_after_last_dot(s, j - 1)
    }
}

/// Whether one of `objects` is exactly `name`.
pub open spec fn spec_contains_str(objects: Seq<Seq<char>>, name: Seq<char>) -> bool {
    exists|k: int| 0 <= k < objects.len() && objects[k] == name
}

/// The hints for the object names, one per name, each completing the
/// whole name.
pub open spec fn spec_object_hints(objects: Seq<Seq<char>>) -> Seq<QueryHintV> {
    objects.map_values(|o: Seq<char>| QueryHintV { display: o, complete_up_to: o.len() as int })
}

/// The fixed hints for the method names.
pub open spec fn spec_method_hints() -> Seq<QueryHintV> {
    seq![
        QueryHintV { display: "select("@, complete_up_to: "select("@.len() as int },
        QueryHintV { display: "where("@, complete_up_to: "where("@.len() as int },
        QueryHintV { display: "limit("@, complete_up_to: "limit("@.len() as int },
        QueryHintV { display: "orderby("@, complete_up_to: "orderby("@.len() as int },
        QueryHintV { display: "open("@, complete_up_to: "open("@.len() as int },
    ]
}

/// The hints offered after a dot: one per method of the expression
/// language.
pub fn method_hints() -> (r: Vec<QueryHint>)
    ensures
        r.deep_view() == spec_method_hints(),
{
    let mut set: Vec<QueryHint> = Vec::new();
    set.push(QueryHint::new("select("));
    set.push(QueryHint::new("where("));
    set.push(QueryHint::new("limit("));
    set.push(QueryHint::new("orderby("));
    set.push(QueryHint::new("open("));
    proof {
        assert(set.deep_view() =~= spec_method_hints());
    }
    set
}

impl DeepView for QueryHint {
    type V = QueryHintV;

    open spec fn deep_view(&self) -> QueryHintV {
        self.view()
    }
}

/// The hinter for the interactive prompt: the known object names, and
/// the hints currently offered.
#[derive(Debug)]
pub struct QueryHinter {
    pub objects: Vec<String>,
    pub hints: Vec<QueryHint>,
}

impl QueryHinter {
    /// A hinter over the given object names, initially offering one
    /// hint per name.
    pub fn new(objects: Vec<String>) -> (h: QueryHinter)
        ensures
            h.objects.deep_view() == objects.deep_view(),
            h.hints.deep_view() == spec_object_hints(objects.deep_view()),
    {
        let mut hints: Vec<QueryHint> = Vec::new();
        let mut i: usize = 0;
        while i < objects.len()
            invariant
                0 <= i <= objects@.len(),
                hints.deep_view().len() == i,
                forall|k: int|
                    0 <= k < i ==> hints.deep_view()[k] == (QueryHintV {
                        display: objects@[k]@,
                        complete_up_to: objects@[k]@.len() as int,
                    }),
            decreases objects@.len() - i,
        {
            let ghost pre = hints.deep_view();
            hints.push(QueryHint::new(objects[i].as_str()));
            proof {
                assert(hints.deep_view() =~= pre.push(
                    QueryHintV {
                        display: objects@[i as int]@,
                        complete_up_to: objects@[i as int]@.len() as int,
                    },
                ));
            }
            i = i + 1;
        }
        proof {
            assert(hints.deep_view() =~= spec_object_hints(objects.deep_view()));
        }
        QueryHinter { objects, hints }
    }

    /// Refresh the offered hints from the line so far: while the line
    /// is empty or still an object name, offer the object names; once
    /// a dot has been typed, offer the method names.
    pub fn update_hints(&mut self, line: &str)
        ensures
            final(self).objects == old(self).objects,
            ({
                let objects = old(self).objects.deep_view();
                let name = spec_trim(line@);
                if name.len() == 0 || spec_contains_str(objects, name) {
                    final(self).hints.deep_view() == spec_object_hints(objects)
                } else if spec_after_last_dot(line@, line@.len() as int) > 0 {
                    final(self).hints.deep_view() == spec_method_hints()
                } else {
                    final(self).hints == old(self).hints
                }
            }),
    {
        let cs = str_to_chars(line);
        let mut dot_boundary: usize = 0;
        let mut j: usize = cs.len();
        let mut found_dot = false;
        while j > 0 && !found_dot
            invariant
                cs@ == line@,
                0 <= j <= cs@.len(),
                !found_dot ==> dot_boundary == 0 && spec_after_last_dot(
                    line@,
                    line@.len() as int,
                ) == spec_after_last_dot(line@, j as int),
                found_dot ==> dot_boundary == spec_after_last_dot(line@, line@.len() as int),
            decreases j + (if found_dot { 0int } else { 1int }),
        {
            if cs[j - 1] == '.' {
                dot_boundary = j - 1;
                found_dot = true;
            } else {
                j = j - 1;
            }
        }
        let object_name = crate::engine::parser::trim_str(line);
        let is_matching_object = object_name.as_str().is_empty() || self.contains_object(
            object_name.as_str(),
        );

        if is_matching_object {
            let mut hints: Vec<QueryHint> = Vec::new();
            let mut i: usize = 0;
            while i < self.objects.len()
                invariant
                    0 <= i <= self.objects@.len(),
                    hints.deep_view().len() == i,
                    forall|k: int|
                        0 <= k < i ==> hints.deep_view()[k] == (QueryHintV {
                            display: self.objects@[k]@,
                            complete_up_to: self.objects@[k]@.len() as int,
                        }),
                decreases self.objects@.len() - i,
            {
                let ghost pre = hints.deep_view();
                hints.push(QueryHint::new(self.objects[i].as_str()));
                proof {
                    assert(hints.deep_view() =~= pre.push(
                        QueryHintV {
                            display: self.objects@[i as int]@,
                            complete_up_to: self.objects@[i as int]@.len() as int,
                        },
                    ));
                }
                i = i + 1;
            }
            proof {
                assert(hints.deep_view() =~= spec_object_hints(self.objects.deep_view()));
            }
            self.hints = hints;
        } else if dot_boundary > 0 {
            self.hints = method_hints();
        }
    }

    /// Whether `name` is one of the known object names.
    fn contains_object(&self, name: &str) -> (r: bool)
        ensures
            r == spec_contains_str(self.objects.deep_view(), name@),
    {
        let mut i: usize = 0;
        while i < self.objects.len()
            invariant
                0 <= i <= self.objects@.len(),
                forall|k: int| 0 <= k < i ==> self.objects@[k]@ != name@,
            decreases self.objects@.len() - i,
        {
            if str_equal(self.objects[i].as_str(), name) {
                proof {
                    assert(self.objects.deep_view()[i as int] == name@);
                }
                return true;
            }
            i = i + 1;
        }
        false
    }

    /// The hint for the line so far: only at the end of a non-empty
    /// line, the first offered hint whose display text starts with the
    /// last word of the line, shortened by what is already typed.
    pub fn hint_line(&mut self, line: &str, pos: usize) -> (r: Option<QueryHint>)
        ensures
            final(self).objects == old(self).objects,
            line@.len() > 0 && pos >= line@.len() ==> ({
                let objects = old(self).objects.deep_view();
                let name = spec_trim(line@);
                if name.len() == 0 || spec_contains_str(objects, name) {
                    final(self).hints.deep_view() == spec_object_hints(objects)
                } else if spec_after_last_dot(line@, line@.len() as int) > 0 {
                    final(self).hints.deep_view() == spec_method_hints()
                } else {
                    final(self).hints == old(self).hints
                }
            }),
            ({
                let lwb = spec_word_start(line@, line@.len() as int);
                let suffix = line@.skip(lwb);
                if line@.len() == 0 || pos < line@.len() {
                    r is None && *final(self) == *old(self)
                } else {
                    match r {
                        Some(h) => match first_match(final(self).hints.deep_view(), suffix, 0) {
                            Some(k) => {
                                let picked = final(self).hints.deep_view()[k];
                                &&& h@.display == picked.display.skip(suffix.len() as int)
                                &&& h@.complete_up_to == if picked.complete_up_to >= suffix.len() {
                                    picked.complete_up_to - suffix.len()
                                } else {
                                    0
                                }
                            },
                            None => false,
                        },
                        None => first_match(final(self).hints.deep_view(), suffix, 0) is None,
                    }
                }
            }),
    {
        let n = line.unicode_len();
        if line.is_empty() || pos < n {
            return None;
        }
        self.update_hints(line);

        let cs = str_to_chars(line);
        let mut lwb: usize = 0;
        let mut j: usize = cs.len();
        let mut found = false;
        while j > 0 && !found
            invariant
                cs@ == line@,
                0 <= j <= cs@.len(),
                lwb <= cs@.len(),
                !found ==> lwb == 0 && spec_word_start(line@, line@.len() as int)
                    == spec_word_start(line@, j as int),
                found ==> lwb == spec_word_start(line@, line@.len() as int),
            decreases j + (if found { 0int } else { 1int }),
        {
            let c = cs[j - 1];
            if is_whitespace_char(c) || c == '.' || c == '(' || c == ',' {
                lwb = j;
                found = true;
            } else {
                j = j - 1;
            }
        }
        proof {
            assert(lwb == spec_word_start(line@, line@.len() as int));
        }
        let line_suffix = crate::engine::parser::chars_substring(&cs, lwb, cs.len());
        proof {
            assert(line_suffix@ =~= line@.skip(lwb as int));
        }

        let mut i: usize = 0;
        while i < self.hints.len()
            invariant
                0 <= i <= self.hints@.len(),
                line@.len() > 0,
                pos >= line@.len(),
                self.objects == old(self).objects,
                ({
                    let objects = old(self).objects.deep_view();
                    let name = spec_trim(line@);
                    if name.len() == 0 || spec_contains_str(objects, name) {
                        self.hints.deep_view() == spec_object_hints(objects)
                    } else if spec_after_last_dot(line@, line@.len() as int) > 0 {
                        self.hints.deep_view() == spec_method_hints()
                    } else {
                        self.hints == old(self).hints
                    }
                }),
                line_suffix@ == line@.skip(spec_word_start(line@, line@.len() as int)),
                first_match(self.hints.deep_view(), line_suffix@, 0) == first_match(
                    self.hints.deep_view(),
                    line_suffix@,
                    i as int,
                ),
            decreases self.hints@.len() - i,
        {
            if starts_with(self.hints[i].display.as_str(), line_suffix.as_str()) {
                proof {
                    assert(first_match(self.hints.deep_view(), line_suffix@, i as int) == Some(
                        i as int,
                    ));
                }
                let h = self.hints[i].suffix(line_suffix.as_str().unicode_len());
                return Some(h);
            }
            i = i + 1;
        }
        None
    }
}

/// Exact equality of two strings.
fn str_equal(a: &str, b: &str) -> (r: bool)
    ensures
        r == (a@ == b@),
{
    let n = a.unicode_len();
    if n != b.unicode_len() {
        proof {
            assert(a@.len() != b@.len());
        }
        return false;
    }
    let mut i: usize = 0;
    while i < n
        invariant
            n == a@.len() == b@.len(),
            0 <= i <= n,
            forall|k: int| 0 <= k < i ==> a@[k] == b@[k],
        decreases n - i,
    {
        if a.get_char(i) != b.get_char(i) {
            return false;
        }
        i = i + 1;
    }
    proof {
        assert(a@ =~= b@);
    }
    true
}

/// Whether `s` starts with `p`.
fn starts_with(s: &str, p: &str) -> (r: bool)
    ensures
        r == is_prefix(p@, s@),
{
    let np = p.unicode_len();
    if np > s.unicode_len() {
        return false;
    }
    let mut i: usize = 0;
    while i < np
        invariant
            np == p@.len(),
            np <= s@.len(),
            0 <= i <= np,
            forall|k: int| 0 <= k < i ==> s@[k] == p@[k],
        decreases np - i,
    {
        if s.get_char(i) != p.get_char(i) {
            return false;
        }
        i = i + 1;
    }
    proof {
        assert(s@.subrange(0, p@.len() as int) =~= p@);
    }
    true
}


/// The hints from position `i` on whose display text starts with
/// `suffix`, in order.
pub open spec fn matches_of(hints: Seq<QueryHintV>, suffix: Seq<char>, i: int) -> Seq<QueryHintV>
    decreases hints.len() - i,
    when 0 <= i <= hints.len()
{
    if i >= hints.len() {
        Seq::empty()
    } else if is_prefix(suffix, hints[i].display) {
        seq![hints[i]] + matches_of(hints, suffix, i + 1)
    } else {
        matches_of(hints, suffix, i + 1)
    }
}

impl QueryHinter {
    /// The completion candidates for the line so far: the position of
    /// the last word boundary, and every offered hint whose display
    /// text starts with the word being typed, in order.
    pub fn complete_line(&mut self, line: &str) -> (r: (usize, Vec<QueryHint>))
        ensures
            r.0 == spec_word_start(line@, line@.len() as int),
            r.1.deep_view() == matches_of(
                final(self).hints.deep_view(),
                line@.skip(spec_word_start(line@, line@.len() as int)),
                0,
            ),
    {
        self.update_hints(line);

        let cs = str_to_chars(line);
        let mut lwb: usize = 0;
        let mut j: usize = cs.len();
        let mut found = false;
        while j > 0 && !found
            invariant
                cs@ == line@,
                0 <= j <= cs@.len(),
                lwb <= cs@.len(),
                !found ==> lwb == 0 && spec_word_start(line@, line@.len() as int)
                    == spec_word_start(line@, j as int),
                found ==> lwb == spec_word_start(line@, line@.len() as int),
            decreases j + (if found { 0int } else { 1int }),
        {
            let c = cs[j - 1];
            if is_whitespace_char(c) || c == '.' || c == '(' || c == ',' {
                lwb = j;
                found = true;
            } else {
                j = j - 1;
            }
        }
        proof {
            assert(lwb == spec_word_start(line@, line@.len() as int));
        }
        let line_suffix = crate::engine::parser::chars_substring(&cs, lwb, cs.len());
        proof {
            assert(line_suffix@ =~= line@.skip(lwb as int));
        }

        let mut candidates: Vec<QueryHint> = Vec::new();
        let mut i: usize = 0;
        while i < self.hints.len()
            invariant
                0 <= i <= self.hints@.len(),
                matches_of(self.hints.deep_view(), line_suffix@, 0) == candidates.deep_view()
                    + matches_of(self.hints.deep_view(), line_suffix@, i as int),
            decreases self.hints@.len() - i,
        {
            let ghost pre = candidates.deep_view();
            if starts_with(self.hints[i].display.as_str(), line_suffix.as_str()) {
                let display = self.hints[i].display_text();
                let complete_up_to = self.hints[i].complete_up_to;
                candidates.push(QueryHint { display, complete_up_to });
                proof {
                    assert(candidates.deep_view() =~= pre.push(
                        self.hints.deep_view()[i as int],
                    ));
                    assert(pre + matches_of(self.hints.deep_view(), line_suffix@, i as int)
                        =~= candidates.deep_view() + matches_of(
                        self.hints.deep_view(),
                        line_suffix@,
                        i as int + 1,
                    ));
                }
            }
            i = i + 1;
        }
        proof {
            assert(candidates.deep_view() + matches_of(
                self.hints.deep_view(),
                line_suffix@,
                self.hints@.len() as int,
            ) =~= candidates.deep_view());
        }
        (lwb, candidates)
    }
}

} // verus!
