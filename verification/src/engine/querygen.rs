//! The query accumulator and generator: each statement of a parsed
//! program writes the one accumulator field its variant owns (a later
//! statement of the same kind silently overwrites an earlier one), and
//! `generate` renders the final query text from the accumulator.

use vstd::prelude::*;

use crate::engine::ast::{Program, Statement, StmtV, spec_stmt_string, spec_stmts_model};

verus! {

/// The specification-level image of a [`Query`].
pub ghost struct QueryV {
    pub select: Option<Seq<char>>,
    pub from: Seq<char>,
    pub where_clause: Option<Seq<char>>,
    pub orderby: Option<Seq<char>>,
    pub limit: Option<Seq<char>>,
    pub open_browser: bool,
}

/// The query accumulator: one field per statement kind, plus the flag
/// that asks for the single matching record in a browser.
#[derive(Debug)]
pub struct Query {
    pub select: Option<String>,
    pub from: String,
    pub where_clause: Option<String>,
    pub orderby: Option<String>,
    pub limit: Option<String>,
    pub open_browser: bool,
}

impl View for Query {
    type V = QueryV;

    open spec fn view(&self) -> QueryV {
        QueryV {
            select: match self.select {
                Some(ref s) => Some(s@),
                None => None,
            },
            from: self.from@,
            where_clause: match self.where_clause {
                Some(ref s) => Some(s@),
                None => None,
            },
            orderby: match self.orderby {
                Some(ref s) => Some(s@),
                None => None,
            },
            limit: match self.limit {
                Some(ref s) => Some(s@),
                None => None,
            },
            open_browser: self.open_browser,
        }
    }
}

/// The empty accumulator.
pub open spec fn spec_query_empty() -> QueryV {
    QueryV {
        select: None,
        from: Seq::empty(),
        where_clause: None,
        orderby: None,
        limit: None,
        open_browser: false,
    }
}

impl Default for Query {
    /// The empty accumulator: no fragment set, the flag down.
    fn default() -> (q: Query)
        ensures
            q@ == spec_query_empty(),
    {
        proof {
            reveal_strlit("");
        }
        let q = Query {
            select: None,
            from: String::new(),
            where_clause: None,
            orderby: None,
            limit: None,
            open_browser: false,
        };
        proof {
            assert(q.from@ =~= Seq::<char>::empty());
        }
        q
    }
}

/// One statement's update of the accumulator: each statement kind
/// writes exactly the one field it owns.
pub open spec fn spec_eval_stmt(q: QueryV, s: StmtV) -> QueryV {
    match s {
        StmtV::Table { .. } => QueryV { from: spec_stmt_string(s), ..q },
        StmtV::Select { .. } => QueryV { select: Some(spec_stmt_string(s)), ..q },
        StmtV::GroupBy { .. } => QueryV { select: Some(spec_stmt_string(s)), ..q },
        StmtV::Where { .. } => QueryV { where_clause: Some(spec_stmt_string(s)), ..q },
        StmtV::OrderBy { .. } => QueryV { orderby: Some(spec_stmt_string(s)), ..q },
        StmtV::Limit { .. } => QueryV { limit: Some(spec_stmt_string(s)), ..q },
        StmtV::Open { .. } => QueryV { open_browser: true, ..q },
    }
}

/// A whole program's update of the accumulator, statement by statement
/// in order.
pub open spec fn spec_eval(q: QueryV, stmts: Seq<StmtV>) -> QueryV
    decreases stmts.len(),
{
    if stmts.len() == 0 {
        q
    } else {
        spec_eval_stmt(spec_eval(q, stmts.drop_last()), stmts.last())
    }
}

/// The generated query text:
/// `SELECT {select or Id} FROM {from}`, then ` WHERE {where}` if set;
/// when the browser flag is up, ` LIMIT 1` ends the query at once and
/// any orderby or limit fragment is discarded; otherwise
/// ` ORDER BY {orderby}` and ` LIMIT {limit}` follow if set.
pub open spec fn spec_generate(q: QueryV) -> Seq<char> {
    let base = "SELECT "@ + (match q.select {
        Some(s) => s,
        None => "Id"@,
    }) + " FROM "@ + q.from;
    let with_where = match q.where_clause {
        Some(w) => base + " WHERE "@ + w,
        None => base,
    };
    if q.open_browser {
        with_where + " LIMIT 1"@
    } else {
        let with_orderby = match q.orderby {
            Some(o) => with_where + " ORDER BY "@ + o,
            None => with_where,
        };
        match q.limit {
            Some(l) => with_orderby + " LIMIT "@ + l,
            None => with_orderby,
        }
    }
}

impl Query {
    /// Render the final query text from the accumulator.
    pub fn generate(&self) -> (r: String)
        ensures
            r@ == spec_generate(self@),
    {
        let mut query = String::from_str("SELECT ");
        match &self.select {
            Some(s) => query.append(s.as_str()),
            None => query.append("Id"),
        }
        query.append(" FROM ");
        query.append(self.from.as_str());

        match &self.where_clause {
            Some(w) => {
                query.append(" WHERE ");
                query.append(w.as_str());
            },
            None => {},
        }

        if self.open_browser {
            query.append(" LIMIT 1");
            proof {
                assert(query@ =~= spec_generate(self@));
            }
            return query;
        }

        match &self.orderby {
            Some(o) => {
                query.append(" ORDER BY ");
                query.append(o.as_str());
            },
            None => {},
        }
        match &self.limit {
            Some(l) => {
                query.append(" LIMIT ");
                query.append(l.as_str());
            },
            None => {},
        }
        proof {
            assert(query@ =~= spec_generate(self@));
        }
        query
    }

    /// Walk the program in order, each statement updating the one
    /// accumulator field its variant owns.
    pub fn evaluate(&mut self, program: Program)
        ensures
            final(self)@ == spec_eval(old(self)@, program.model()),
    {
        let mut i: usize = 0;
        while i < program.statements.len()
            invariant
                i <= program.statements@.len(),
                self@ == spec_eval(
                    old(self)@,
                    spec_stmts_model(program.statements@).take(i as int),
                ),
            decreases program.statements@.len() - i,
        {
            self.evaluate_statement(&program.statements[i]);
            i = i + 1;
            proof {
                let models = spec_stmts_model(program.statements@);
                assert(models.take(i as int).drop_last() =~= models.take(i as int - 1));
            }
        }
        proof {
            assert(spec_stmts_model(program.statements@).take(
                program.statements@.len() as int,
            ) =~= program.model());
        }
    }

    /// One statement's update of the accumulator.
    fn evaluate_statement(&mut self, node: &Statement)
        ensures
            final(self)@ == spec_eval_stmt(old(self)@, node.model()),
    {
        match node {
            Statement::Table(_) => {
                self.from = node.string();
            },
            Statement::Select(_) => {
                self.select = Some(node.string());
            },
            Statement::GroupBy(_) => {
                self.select = Some(node.string());
            },
            Statement::Where(_) => {
                self.where_clause = Some(node.string());
            },
            Statement::OrderBy(_) => {
                self.orderby = Some(node.string());
            },
            Statement::Limit(_) => {
                self.limit = Some(node.string());
            },
            Statement::Open(_) => {
                self.open_browser = true;
            },
        }
    }
}

} // verus!
