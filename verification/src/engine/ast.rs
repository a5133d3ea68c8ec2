//! The abstract syntax tree: one variant set for statements, one for
//! expressions, each node exposing its defining literal token text and
//! a canonical rendered form.
//!
//! Every exec node has a specification-level image (its *model*), and
//! every rendering method is proved to return exactly the rendering of
//! that model, so the query generator's contract can speak about the
//! final text character by character.

use vstd::prelude::*;

use crate::engine::num::{i64_to_string, push_str_char, spec_int_str};
use crate::engine::token::{Token, TokenKind, TokenV};

verus! {

/// A tag naming every node variant of the tree.
#[derive(Debug, Clone, Copy, PartialEq, Eq, Structural)]
pub enum NodeType {
    Program,
    Table,
    SelectStatement,
    WhereStatement,
    GroupByStatement,
    OrderByStatement,
    LimitStatement,
    OpenStatement,
    CloseStatement,
    FieldLiteral,
    OrderByOptionLiteral,
    IntegerLiteral,
    StringLiteral,
    BooleanLiteral,
    NullLiteral,
    Value,
    PrefixExpression,
    InfixExpression,
    Condition,
    OperatorLiteral,
}

/// Model of a field name, e.g. `Id` or `Account.Name`.
pub ghost struct FieldV {
    pub token: TokenV,
    pub name: Seq<char>,
}

/// Model of one ordering option, e.g. `Name` or `Name DESC`.
pub ghost struct OrderByOptionV {
    pub token: TokenV,
    pub name: Seq<char>,
}

/// Model of an integer literal.
pub ghost struct IntegerV {
    pub token: TokenV,
    pub value: i64,
}

/// Model of a condition operator, e.g. `=` or `LIKE`.
pub ghost struct OperatorV {
    pub token: TokenV,
    pub value: Seq<char>,
}

/// Model of an expression node.
pub ghost enum ExprV {
    Integer(IntegerV),
    Field(FieldV),
    OrderByOption(OrderByOptionV),
    Str { token: TokenV, value: Seq<char> },
    Boolean { token: TokenV, value: bool },
    Operator(OperatorV),
    Val { token: TokenV, value: Seq<char> },
    Prefix { token: TokenV, operator: Seq<char>, right: Box<ExprV> },
    Infix { token: TokenV, left: Box<ExprV>, operator: Seq<char>, right: Box<ExprV> },
    Cond { token: TokenV, field: FieldV, operator: OperatorV, value: Box<ExprV> },
}

/// Model of a statement node.
pub ghost enum StmtV {
    Table { token: TokenV, table_name: Seq<char> },
    Select { token: TokenV, fields: Seq<FieldV> },
    Where { token: TokenV, expression: ExprV },
    GroupBy { token: TokenV, fields: Seq<FieldV> },
    OrderBy { token: TokenV, options: Seq<OrderByOptionV> },
    Limit { token: TokenV, limit: IntegerV },
    Open { token: TokenV },
}

/// `parts` joined by `sep`.
pub open spec fn spec_join(parts: Seq<Seq<char>>, sep: Seq<char>) -> Seq<char>
    decreases parts.len(),
{
    if parts.len() == 0 {
        Seq::empty()
    } else if parts.len() == 1 {
        parts[0]
    } else {
        spec_join(parts.drop_last(), sep) + sep + parts.last()
    }
}

/// The names of a field list, in order.
pub open spec fn spec_field_names(fields: Seq<FieldV>) -> Seq<Seq<char>> {
    fields.map_values(|f: FieldV| f.name)
}

/// The names of an ordering-option list, in order.
pub open spec fn spec_option_names(options: Seq<OrderByOptionV>) -> Seq<Seq<char>> {
    options.map_values(|o: OrderByOptionV| o.name)
}

/// The canonical rendering of an expression. A value keeps its lexical
/// text, wrapped in single quotes when it came from an identifier or a
/// quoted literal; a prefix concatenates sign and operand; an infix is
/// always fully parenthesized; a condition is `field operator value`.
pub open spec fn spec_render_expr(e: ExprV) -> Seq<char>
    decreases e,
{
    match e {
        ExprV::Integer(i) => spec_int_str(i.value as int),
        ExprV::Field(f) => f.name,
        ExprV::OrderByOption(o) => o.name,
        ExprV::Str { value, .. } => value,
        ExprV::Boolean { value, .. } => if value {
            "true"@
        } else {
            "false"@
        },
        ExprV::Operator(o) => o.value,
        ExprV::Val { token, value } => if token.kind == TokenKind::Identifire || token.kind
            == TokenKind::StringObject {
            seq!['\''] + value + seq!['\'']
        } else {
            value
        },
        ExprV::Prefix { operator, right, .. } => operator + spec_render_expr(*right),
        ExprV::Infix { left, operator, right, .. } => seq!['('] + spec_render_expr(*left)
            + seq![' '] + operator + seq![' '] + spec_render_expr(*right) + seq![')'],
        ExprV::Cond { field, operator, value, .. } => field.name + seq![' '] + operator.value
            + seq![' '] + spec_render_expr(*value),
    }
}

/// The defining literal text of an expression node.
pub open spec fn spec_expr_token_literal(e: ExprV) -> Seq<char> {
    match e {
        ExprV::Integer(i) => i.token.literal,
        ExprV::Field(f) => f.token.literal,
        ExprV::OrderByOption(o) => o.token.literal,
        ExprV::Str { token, .. } => token.literal,
        ExprV::Boolean { token, .. } => token.literal,
        ExprV::Operator(o) => o.token.literal,
        ExprV::Val { token, .. } => token.literal,
        ExprV::Prefix { token, .. } => token.literal,
        ExprV::Infix { token, .. } => token.literal,
        ExprV::Cond { token, .. } => token.literal,
    }
}

/// The canonical rendering of a statement, as the query generator uses
/// it: a table is its name; select, groupby and orderby are their
/// comma-joined items; a where-statement is its expression's rendering,
/// unwrapped of the keyword; a limit is its bare integer text; open is
/// its literal text.
pub open spec fn spec_stmt_string(s: StmtV) -> Seq<char> {
    match s {
        StmtV::Table { table_name, .. } => table_name,
        StmtV::Select { fields, .. } => spec_join(spec_field_names(fields), ", "@),
        StmtV::Where { expression, .. } => spec_render_expr(expression),
        StmtV::GroupBy { fields, .. } => spec_join(spec_field_names(fields), ", "@),
        StmtV::OrderBy { options, .. } => spec_join(spec_option_names(options), ", "@),
        StmtV::Limit { limit, .. } => spec_int_str(limit.value as int),
        StmtV::Open { token } => token.literal,
    }
}

/// The defining literal text of a statement node.
pub open spec fn spec_stmt_token_literal(s: StmtV) -> Seq<char> {
    match s {
        StmtV::Table { table_name, .. } => table_name,
        StmtV::Select { token, .. } => token.literal,
        StmtV::Where { token, .. } => token.literal,
        StmtV::GroupBy { token, .. } => token.literal,
        StmtV::OrderBy { token, .. } => token.literal,
        StmtV::Limit { token, .. } => token.literal,
        StmtV::Open { token } => token.literal,
    }
}

/// Join a list of already-rendered parts with `sep`.
fn join_strings(parts: &Vec<String>, sep: &str) -> (r: String)
    ensures
        r@ == spec_join(parts.deep_view(), sep@),
{
    let mut r = String::new();
    let mut i: usize = 0;
    while i < parts.len()
        invariant
            i <= parts@.len(),
            r@ == spec_join(parts.deep_view().take(i as int), sep@),
        decreases parts@.len() - i,
    {
        if i > 0 {
            r.append(sep);
        }
        r.append(parts[i].as_str());
        i = i + 1;
        proof {
            let pv = parts.deep_view();
            assert(pv.take(i as int).drop_last() =~= pv.take(i as int - 1));
            assert(pv.take(i as int).last() == pv[i as int - 1]);
        }
    }
    proof {
        assert(parts.deep_view().take(parts@.len() as int) =~= parts.deep_view());
    }
    r
}


/// The model of a sequence of field nodes.
pub open spec fn spec_fields_model(fs: Seq<FieldLiteral>) -> Seq<FieldV> {
    Seq::new(fs.len(), |i: int| fs[i].model())
}

/// The model of a sequence of ordering-option nodes.
pub open spec fn spec_options_model(os: Seq<OrderByOptionLiteral>) -> Seq<OrderByOptionV> {
    Seq::new(os.len(), |i: int| os[i].model())
}

/// The model of a sequence of statement nodes.
pub open spec fn spec_stmts_model(ss: Seq<Statement>) -> Seq<StmtV> {
    Seq::new(ss.len(), |i: int| ss[i].model())
}

/// The literal form of a whole program: the statements' literal texts
/// joined by dots.
pub open spec fn spec_program_token_literal(stmts: Seq<StmtV>) -> Seq<char> {
    spec_join(stmts.map_values(|s: StmtV| spec_stmt_token_literal(s)), "."@)
}

/// The rendered form of a whole program: the statements' renderings
/// joined by dots.
pub open spec fn spec_program_string(stmts: Seq<StmtV>) -> Seq<char> {
    spec_join(stmts.map_values(|s: StmtV| spec_stmt_string(s)), "."@)
}

/// A statement node: the first statement of a program is a table, any
/// further one is a method statement.
#[derive(Debug)]
pub enum Statement {
    Table(Table),
    Select(SelectStatement),
    Where(WhereStatement),
    GroupBy(GroupByStatement),
    OrderBy(OrderByStatement),
    Limit(LimitStatement),
    Open(OpenStatement),
}

impl Statement {
    /// The specification-level image of this statement.
    pub open spec fn model(&self) -> StmtV {
        match self {
            Statement::Table(t) => t.model(),
            Statement::Select(t) => t.model(),
            Statement::Where(t) => t.model(),
            Statement::GroupBy(t) => t.model(),
            Statement::OrderBy(t) => t.model(),
            Statement::Limit(t) => t.model(),
            Statement::Open(t) => t.model(),
        }
    }

    /// The defining literal text of this statement.
    pub fn token_literal(&self) -> (r: String)
        ensures
            r@ == spec_stmt_token_literal(self.model()),
    {
        match self {
            Statement::Table(t) => t.token_literal(),
            Statement::Select(t) => t.token_literal(),
            Statement::Where(t) => t.token_literal(),
            Statement::GroupBy(t) => t.token_literal(),
            Statement::OrderBy(t) => t.token_literal(),
            Statement::Limit(t) => t.token_literal(),
            Statement::Open(t) => t.token_literal(),
        }
    }

    /// The canonical rendering of this statement.
    pub fn string(&self) -> (r: String)
        ensures
            r@ == spec_stmt_string(self.model()),
    {
        match self {
            Statement::Table(t) => t.string(),
            Statement::Select(t) => t.string(),
            Statement::Where(t) => t.string(),
            Statement::GroupBy(t) => t.string(),
            Statement::OrderBy(t) => t.string(),
            Statement::Limit(t) => t.string(),
            Statement::Open(t) => t.string(),
        }
    }

    /// The tag of this node.
    pub fn node_type(&self) -> (t: NodeType)
        ensures
            t == self.spec_node_type(),
    {
        match self {
            Statement::Table(s) => s.node_type(),
            Statement::Select(s) => s.node_type(),
            Statement::Where(s) => s.node_type(),
            Statement::GroupBy(s) => s.node_type(),
            Statement::OrderBy(s) => s.node_type(),
            Statement::Limit(s) => s.node_type(),
            Statement::Open(s) => s.node_type(),
        }
    }

    /// The tag of this node.
    pub open spec fn spec_node_type(&self) -> NodeType {
        match self {
            Statement::Table(_) => NodeType::Table,
            Statement::Select(_) => NodeType::SelectStatement,
            Statement::Where(_) => NodeType::WhereStatement,
            Statement::GroupBy(_) => NodeType::GroupByStatement,
            Statement::OrderBy(_) => NodeType::OrderByStatement,
            Statement::Limit(_) => NodeType::LimitStatement,
            Statement::Open(_) => NodeType::OpenStatement,
        }
    }
}

/// An expression node of a where-clause, or one of the literal nodes
/// the statements carry.
#[derive(Debug)]
pub enum Expression {
    Integer(IntegerLiteral),
    Field(FieldLiteral),
    OrderByOption(OrderByOptionLiteral),
    Str(StringLiteral),
    Boolean(BooleanLiteral),
    Operator(OperatorLiteral),
    Val(Value),
    Prefix(PrefixExpression),
    Infix(InfixExpression),
    Cond(Condition),
}

impl Expression {
    /// The specification-level image of this expression.
    pub open spec fn model(&self) -> ExprV
        decreases self,
    {
        match self {
            Expression::Integer(e) => ExprV::Integer(e.model()),
            Expression::Field(e) => ExprV::Field(e.model()),
            Expression::OrderByOption(e) => ExprV::OrderByOption(e.model()),
            Expression::Str(e) => e.model(),
            Expression::Boolean(e) => e.model(),
            Expression::Operator(e) => ExprV::Operator(e.model()),
            Expression::Val(e) => e.model(),
            Expression::Prefix(e) => e.model(),
            Expression::Infix(e) => e.model(),
            Expression::Cond(e) => e.model(),
        }
    }

    /// The defining literal text of this expression.
    pub fn token_literal(&self) -> (r: String)
        ensures
            r@ == spec_expr_token_literal(self.model()),
    {
        match self {
            Expression::Integer(e) => e.token_literal(),
            Expression::Field(e) => e.token_literal(),
            Expression::OrderByOption(e) => e.token_literal(),
            Expression::Str(e) => e.token_literal(),
            Expression::Boolean(e) => e.token_literal(),
            Expression::Operator(e) => e.token_literal(),
            Expression::Val(e) => e.token_literal(),
            Expression::Prefix(e) => e.token_literal(),
            Expression::Infix(e) => e.token_literal(),
            Expression::Cond(e) => e.token_literal(),
        }
    }

    /// The canonical rendering of this expression.
    pub fn string(&self) -> (r: String)
        ensures
            r@ == spec_render_expr(self.model()),
        decreases self,
    {
        match self {
            Expression::Integer(e) => e.string(),
            Expression::Field(e) => e.string(),
            Expression::OrderByOption(e) => e.string(),
            Expression::Str(e) => e.string(),
            Expression::Boolean(e) => e.string(),
            Expression::Operator(e) => e.string(),
            Expression::Val(e) => e.string(),
            Expression::Prefix(e) => e.string(),
            Expression::Infix(e) => e.string(),
            Expression::Cond(e) => e.string(),
        }
    }

    /// The tag of this node.
    pub fn node_type(&self) -> (t: NodeType)
        ensures
            t == self.spec_node_type(),
    {
        match self {
            Expression::Integer(e) => e.node_type(),
            Expression::Field(e) => e.node_type(),
            Expression::OrderByOption(e) => e.node_type(),
            Expression::Str(e) => e.node_type(),
            Expression::Boolean(e) => e.node_type(),
            Expression::Operator(e) => e.node_type(),
            Expression::Val(e) => e.node_type(),
            Expression::Prefix(e) => e.node_type(),
            Expression::Infix(e) => e.node_type(),
            Expression::Cond(e) => e.node_type(),
        }
    }

    /// The tag of this node.
    pub open spec fn spec_node_type(&self) -> NodeType {
        match self {
            Expression::Integer(_) => NodeType::IntegerLiteral,
            Expression::Field(_) => NodeType::FieldLiteral,
            Expression::OrderByOption(_) => NodeType::OrderByOptionLiteral,
            Expression::Str(_) => NodeType::StringLiteral,
            Expression::Boolean(_) => NodeType::BooleanLiteral,
            Expression::Operator(_) => NodeType::OperatorLiteral,
            Expression::Val(_) => NodeType::Value,
            Expression::Prefix(_) => NodeType::PrefixExpression,
            Expression::Infix(_) => NodeType::InfixExpression,
            Expression::Cond(_) => NodeType::Condition,
        }
    }
}

/// An ordered sequence of statements; the whole parse of one input
/// line. The first statement is a table, any further statement is one
/// of the method statements.
#[derive(Debug)]
pub struct Program {
    pub statements: Vec<Statement>,
}

impl Program {
    /// The specification-level image of this program.
    pub open spec fn model(&self) -> Seq<StmtV> {
        spec_stmts_model(self.statements@)
    }

    /// The statements' literal texts joined by dots.
    pub fn token_literal(&self) -> (r: String)
        ensures
            r@ == spec_program_token_literal(self.model()),
    {
        let mut parts: Vec<String> = Vec::new();
        let mut i: usize = 0;
        while i < self.statements.len()
            invariant
                i <= self.statements@.len(),
                parts.deep_view().len() == i,
                forall|k: int|
                    0 <= k < i ==> parts.deep_view()[k] == spec_stmt_token_literal(
                        #[trigger] self.statements@[k].model(),
                    ),
            decreases self.statements@.len() - i,
        {
            parts.push(self.statements[i].token_literal());
            i = i + 1;
        }
        proof {
            assert(parts.deep_view() =~= self.model().map_values(
                |s: StmtV| spec_stmt_token_literal(s),
            ));
        }
        join_strings(&parts, ".")
    }

    /// The statements' renderings joined by dots.
    pub fn string(&self) -> (r: String)
        ensures
            r@ == spec_program_string(self.model()),
    {
        let mut parts: Vec<String> = Vec::new();
        let mut i: usize = 0;
        while i < self.statements.len()
            invariant
                i <= self.statements@.len(),
                parts.deep_view().len() == i,
                forall|k: int|
                    0 <= k < i ==> parts.deep_view()[k] == spec_stmt_string(
                        #[trigger] self.statements@[k].model(),
                    ),
            decreases self.statements@.len() - i,
        {
            parts.push(self.statements[i].string());
            i = i + 1;
        }
        proof {
            assert(parts.deep_view() =~= self.model().map_values(|s: StmtV| spec_stmt_string(s)));
        }
        join_strings(&parts, ".")
    }

    /// The tag of this node.
    pub fn node_type(&self) -> (t: NodeType)
        ensures
            t == NodeType::Program,
    {
        NodeType::Program
    }
}

/// The table (object) a query reads from; always the first statement.
#[derive(Debug)]
pub struct Table {
    pub token: Token,
    pub table_name: String,
}

impl Table {
    /// The specification-level image of this node.
    pub open spec fn model(&self) -> StmtV {
        StmtV::Table { token: self.token@, table_name: self.table_name@ }
    }

    pub fn token_literal(&self) -> (r: String)
        ensures
            r@ == self.table_name@,
    {
        self.table_name.clone()
    }

    pub fn string(&self) -> (r: String)
        ensures
            r@ == spec_stmt_string(self.model()),
    {
        self.table_name.clone()
    }

    pub fn node_type(&self) -> (t: NodeType)
        ensures
            t == NodeType::Table,
    {
        NodeType::Table
    }
}

/// `select(...)`: the fields the query projects.
#[derive(Debug)]
pub struct SelectStatement {
    pub token: Token,
    pub fields: Vec<FieldLiteral>,
}

impl SelectStatement {
    /// The specification-level image of this node.
    pub open spec fn model(&self) -> StmtV {
        StmtV::Select { token: self.token@, fields: spec_fields_model(self.fields@) }
    }

    pub fn token_literal(&self) -> (r: String)
        ensures
            r@ == self.token@.literal,
    {
        self.token.literal()
    }

    /// The comma-joined field names.
    pub fn string(&self) -> (r: String)
        ensures
            r@ == spec_stmt_string(self.model()),
    {
        let r = join_fields(&self.fields);
        proof {
            assert(spec_field_names(spec_fields_model(self.fields@)) =~= self.fields@.map_values(
                |f: FieldLiteral| f.name@,
            ));
        }
        r
    }

    pub fn node_type(&self) -> (t: NodeType)
        ensures
            t == NodeType::SelectStatement,
    {
        NodeType::SelectStatement
    }
}

/// The comma-joined names of a list of field nodes.
fn join_fields(fields: &Vec<FieldLiteral>) -> (r: String)
    ensures
        r@ == spec_join(fields@.map_values(|f: FieldLiteral| f.name@), ", "@),
{
    let mut parts: Vec<String> = Vec::new();
    let mut i: usize = 0;
    while i < fields.len()
        invariant
            i <= fields@.len(),
            parts.deep_view().len() == i,
            forall|k: int| 0 <= k < i ==> parts.deep_view()[k] == #[trigger] fields@[k].name@,
        decreases fields@.len() - i,
    {
        parts.push(fields[i].string());
        i = i + 1;
    }
    proof {
        assert(parts.deep_view() =~= fields@.map_values(|f: FieldLiteral| f.name@));
    }
    join_strings(&parts, ", ")
}

/// `where(...)`: the filtering expression.
#[derive(Debug)]
pub struct WhereStatement {
    pub token: Token,
    pub expression: Box<Expression>,
}

impl WhereStatement {
    /// The specification-level image of this node.
    pub open spec fn model(&self) -> StmtV {
        StmtV::Where { token: self.token@, expression: self.expression.model() }
    }

    pub fn token_literal(&self) -> (r: String)
        ensures
            r@ == self.token@.literal,
    {
        self.token.literal()
    }

    /// The expression's rendering, unwrapped of the statement keyword.
    pub fn string(&self) -> (r: String)
        ensures
            r@ == spec_stmt_string(self.model()),
    {
        self.expression.string()
    }

    pub fn node_type(&self) -> (t: NodeType)
        ensures
            t == NodeType::WhereStatement,
    {
        NodeType::WhereStatement
    }
}

/// `groupby(...)`: fields rendered into the same logical slot as
/// `select` at generation time.
#[derive(Debug)]
pub struct GroupByStatement {
    pub token: Token,
    pub fields: Vec<FieldLiteral>,
}

impl GroupByStatement {
    /// The specification-level image of this node.
    pub open spec fn model(&self) -> StmtV {
        StmtV::GroupBy { token: self.token@, fields: spec_fields_model(self.fields@) }
    }

    pub fn token_literal(&self) -> (r: String)
        ensures
            r@ == self.token@.literal,
    {
        self.token.literal()
    }

    /// The comma-joined field names.
    pub fn string(&self) -> (r: String)
        ensures
            r@ == spec_stmt_string(self.model()),
    {
        let r = join_fields(&self.fields);
        proof {
            assert(spec_field_names(spec_fields_model(self.fields@)) =~= self.fields@.map_values(
                |f: FieldLiteral| f.name@,
            ));
        }
        r
    }

    pub fn node_type(&self) -> (t: NodeType)
        ensures
            t == NodeType::GroupByStatement,
    {
        NodeType::GroupByStatement
    }
}

/// `orderby(...)`: the ordering options.
#[derive(Debug)]
pub struct OrderByStatement {
    pub token: Token,
    pub options: Vec<OrderByOptionLiteral>,
}

impl OrderByStatement {
    /// The specification-level image of this node.
    pub open spec fn model(&self) -> StmtV {
        StmtV::OrderBy { token: self.token@, options: spec_options_model(self.options@) }
    }

    pub fn token_literal(&self) -> (r: String)
        ensures
            r@ == self.token@.literal,
    {
        self.token.literal()
    }

    /// The comma-joined option names, each already carrying its
    /// optional ` DESC` suffix.
    pub fn string(&self) -> (r: String)
        ensures
            r@ == spec_stmt_string(self.model()),
    {
        let mut parts: Vec<String> = Vec::new();
        let mut i: usize = 0;
        while i < self.options.len()
            invariant
                i <= self.options@.len(),
                parts.deep_view().len() == i,
                forall|k: int| 0 <= k < i ==> parts.deep_view()[k] == #[trigger] self.options@[k].name@,
            decreases self.options@.len() - i,
        {
            parts.push(self.options[i].string());
            i = i + 1;
        }
        proof {
            assert(parts.deep_view() =~= spec_option_names(spec_options_model(self.options@)));
        }
        join_strings(&parts, ", ")
    }

    pub fn node_type(&self) -> (t: NodeType)
        ensures
            t == NodeType::OrderByStatement,
    {
        NodeType::OrderByStatement
    }
}

/// `limit(n)`: a cap on the number of returned records.
#[derive(Debug)]
pub struct LimitStatement {
    pub token: Token,
    pub limit: IntegerLiteral,
}

impl LimitStatement {
    /// The specification-level image of this node.
    pub open spec fn model(&self) -> StmtV {
        StmtV::Limit { token: self.token@, limit: self.limit.model() }
    }

    pub fn token_literal(&self) -> (r: String)
        ensures
            r@ == self.token@.literal,
    {
        self.token.literal()
    }

    /// The bare integer text.
    pub fn string(&self) -> (r: String)
        ensures
            r@ == spec_stmt_string(self.model()),
    {
        self.limit.string()
    }

    pub fn node_type(&self) -> (t: NodeType)
        ensures
            t == NodeType::LimitStatement,
    {
        NodeType::LimitStatement
    }
}

/// `open()`: ask for the single matching record in a browser.
#[derive(Debug)]
pub struct OpenStatement {
    pub token: Token,
}

impl OpenStatement {
    /// The specification-level image of this node.
    pub open spec fn model(&self) -> StmtV {
        StmtV::Open { token: self.token@ }
    }

    pub fn token_literal(&self) -> (r: String)
        ensures
            r@ == self.token@.literal,
    {
        self.token.literal()
    }

    pub fn string(&self) -> (r: String)
        ensures
            r@ == spec_stmt_string(self.model()),
    {
        self.token.literal()
    }

    pub fn node_type(&self) -> (t: NodeType)
        ensures
            t == NodeType::OpenStatement,
    {
        NodeType::OpenStatement
    }
}

/// An integer literal with its parsed value.
#[derive(Debug)]
pub struct IntegerLiteral {
    pub token: Token,
    pub value: i64,
}

impl IntegerLiteral {
    /// The specification-level image of this node.
    pub open spec fn model(&self) -> IntegerV {
        IntegerV { token: self.token@, value: self.value }
    }

    pub fn token_literal(&self) -> (r: String)
        ensures
            r@ == self.token@.literal,
    {
        self.token.literal()
    }

    /// The canonical decimal rendering of the value.
    pub fn string(&self) -> (r: String)
        ensures
            r@ == spec_int_str(self.value as int),
    {
        i64_to_string(self.value)
    }

    pub fn node_type(&self) -> (t: NodeType)
        ensures
            t == NodeType::IntegerLiteral,
    {
        NodeType::IntegerLiteral
    }
}

/// A field name, e.g. `Id` or `Account.Name` (at most one dot).
#[derive(Debug)]
pub struct FieldLiteral {
    pub token: Token,
    pub name: String,
}

impl FieldLiteral {
    /// The specification-level image of this node.
    pub open spec fn model(&self) -> FieldV {
        FieldV { token: self.token@, name: self.name@ }
    }

    pub fn token_literal(&self) -> (r: String)
        ensures
            r@ == self.token@.literal,
    {
        self.token.literal()
    }

    pub fn string(&self) -> (r: String)
        ensures
            r@ == self.name@,
    {
        self.name.clone()
    }

    pub fn node_type(&self) -> (t: NodeType)
        ensures
            t == NodeType::FieldLiteral,
    {
        NodeType::FieldLiteral
    }
}

/// One ordering option: a field name, with ` DESC` already appended
/// when descending order was asked for.
#[derive(Debug)]
pub struct OrderByOptionLiteral {
    pub token: Token,
    pub name: String,
}

impl OrderByOptionLiteral {
    /// The specification-level image of this node.
    pub open spec fn model(&self) -> OrderByOptionV {
        OrderByOptionV { token: self.token@, name: self.name@ }
    }

    pub fn token_literal(&self) -> (r: String)
        ensures
            r@ == self.token@.literal,
    {
        self.token.literal()
    }

    pub fn string(&self) -> (r: String)
        ensures
            r@ == self.name@,
    {
        self.name.clone()
    }

    pub fn node_type(&self) -> (t: NodeType)
        ensures
            t == NodeType::OrderByOptionLiteral,
    {
        NodeType::OrderByOptionLiteral
    }
}

/// A quoted string literal.
#[derive(Debug)]
pub struct StringLiteral {
    pub token: Token,
    pub value: String,
}

impl StringLiteral {
    /// The specification-level image of this node.
    pub open spec fn model(&self) -> ExprV {
        ExprV::Str { token: self.token@, value: self.value@ }
    }

    pub fn token_literal(&self) -> (r: String)
        ensures
            r@ == self.token@.literal,
    {
        self.token.literal()
    }

    pub fn string(&self) -> (r: String)
        ensures
            r@ == spec_render_expr(self.model()),
    {
        self.value.clone()
    }

    pub fn node_type(&self) -> (t: NodeType)
        ensures
            t == NodeType::StringLiteral,
    {
        NodeType::StringLiteral
    }
}

/// A boolean literal.
#[derive(Debug)]
pub struct BooleanLiteral {
    pub token: Token,
    pub value: bool,
}

impl BooleanLiteral {
    /// The specification-level image of this node.
    pub open spec fn model(&self) -> ExprV {
        ExprV::Boolean { token: self.token@, value: self.value }
    }

    pub fn token_literal(&self) -> (r: String)
        ensures
            r@ == self.token@.literal,
    {
        self.token.literal()
    }

    pub fn string(&self) -> (r: String)
        ensures
            r@ == spec_render_expr(self.model()),
    {
        if self.value {
            String::from_str("true")
        } else {
            String::from_str("false")
        }
    }

    pub fn node_type(&self) -> (t: NodeType)
        ensures
            t == NodeType::BooleanLiteral,
    {
        NodeType::BooleanLiteral
    }
}

/// A condition operator, e.g. `=`, `!=` or `LIKE`.
#[derive(Debug)]
pub struct OperatorLiteral {
    pub token: Token,
    pub value: String,
}

impl OperatorLiteral {
    /// The specification-level image of this node.
    pub open spec fn model(&self) -> OperatorV {
        OperatorV { token: self.token@, value: self.value@ }
    }

    pub fn token_literal(&self) -> (r: String)
        ensures
            r@ == self.token@.literal,
    {
        self.token.literal()
    }

    pub fn string(&self) -> (r: String)
        ensures
            r@ == self.value@,
    {
        self.value.clone()
    }

    pub fn node_type(&self) -> (t: NodeType)
        ensures
            t == NodeType::OperatorLiteral,
    {
        NodeType::OperatorLiteral
    }
}

/// A value in a condition: the lexical text of an integer, quoted
/// string, boolean or null token; no arithmetic evaluation occurs.
#[derive(Debug)]
pub struct Value {
    pub token: Token,
    pub value: String,
}

impl Value {
    /// The specification-level image of this node.
    pub open spec fn model(&self) -> ExprV {
        ExprV::Val { token: self.token@, value: self.value@ }
    }

    pub fn token_literal(&self) -> (r: String)
        ensures
            r@ == self.token@.literal,
    {
        self.token.literal()
    }

    /// The value text, wrapped in single quotes when it came from an
    /// identifier or quoted-string token, bare otherwise.
    pub fn string(&self) -> (r: String)
        ensures
            r@ == spec_render_expr(self.model()),
    {
        match self.token.kind {
            TokenKind::Identifire | TokenKind::StringObject => {
                let mut s = String::from_str("'");
                s.append(self.value.as_str());
                s.append("'");
                proof {
                    reveal_strlit("'");
                    assert(s@ =~= seq!['\''] + self.value@ + seq!['\'']);
                }
                s
            },
            _ => self.value.clone(),
        }
    }

    pub fn node_type(&self) -> (t: NodeType)
        ensures
            t == NodeType::Value,
    {
        NodeType::Value
    }
}

/// A sign applied to a value; its rendering concatenates sign and
/// operand.
#[derive(Debug)]
pub struct PrefixExpression {
    pub token: Token,
    pub operator: String,
    pub right: Box<Expression>,
}

impl PrefixExpression {
    /// The specification-level image of this node.
    pub open spec fn model(&self) -> ExprV
        decreases self,
    {
        ExprV::Prefix {
            token: self.token@,
            operator: self.operator@,
            right: Box::new(self.right.model()),
        }
    }

    pub fn token_literal(&self) -> (r: String)
        ensures
            r@ == self.token@.literal,
    {
        self.token.literal()
    }

    pub fn string(&self) -> (r: String)
        ensures
            r@ == spec_render_expr(self.model()),
        decreases self,
    {
        let mut s = self.operator.clone();
        let right = self.right.string();
        s.append(right.as_str());
        s
    }

    pub fn node_type(&self) -> (t: NodeType)
        ensures
            t == NodeType::PrefixExpression,
    {
        NodeType::PrefixExpression
    }
}

/// An `AND`/`OR` chain node; its rendering is always parenthesized.
#[derive(Debug)]
pub struct InfixExpression {
    pub token: Token,
    pub left: Box<Expression>,
    pub operator: String,
    pub right: Box<Expression>,
}

impl InfixExpression {
    /// The specification-level image of this node.
    pub open spec fn model(&self) -> ExprV
        decreases self,
    {
        ExprV::Infix {
            token: self.token@,
            left: Box::new(self.left.model()),
            operator: self.operator@,
            right: Box::new(self.right.model()),
        }
    }

    pub fn token_literal(&self) -> (r: String)
        ensures
            r@ == self.token@.literal,
    {
        self.token.literal()
    }

    pub fn string(&self) -> (r: String)
        ensures
            r@ == spec_render_expr(self.model()),
        decreases self,
    {
        let mut s = String::from_str("(");
        let left = self.left.string();
        s.append(left.as_str());
        s.append(" ");
        s.append(self.operator.as_str());
        s.append(" ");
        let right = self.right.string();
        s.append(right.as_str());
        s.append(")");
        proof {
            reveal_strlit("(");
            reveal_strlit(")");
            reveal_strlit(" ");
            assert(s@ =~= seq!['('] + spec_render_expr(self.left.model()) + seq![' ']
                + self.operator@ + seq![' '] + spec_render_expr(self.right.model()) + seq![')']);
        }
        s
    }

    pub fn node_type(&self) -> (t: NodeType)
        ensures
            t == NodeType::InfixExpression,
    {
        NodeType::InfixExpression
    }
}

/// One comparison: `field operator value`.
#[derive(Debug)]
pub struct Condition {
    pub token: Token,
    pub field: FieldLiteral,
    pub operator: OperatorLiteral,
    pub value: Box<Expression>,
}

impl Condition {
    /// The specification-level image of this node.
    pub open spec fn model(&self) -> ExprV
        decreases self,
    {
        ExprV::Cond {
            token: self.token@,
            field: self.field.model(),
            operator: self.operator.model(),
            value: Box::new(self.value.model()),
        }
    }

    pub fn token_literal(&self) -> (r: String)
        ensures
            r@ == self.token@.literal,
    {
        self.token.literal()
    }

    pub fn string(&self) -> (r: String)
        ensures
            r@ == spec_render_expr(self.model()),
        decreases self,
    {
        let mut s = self.field.string();
        s.append(" ");
        let op = self.operator.string();
        s.append(op.as_str());
        s.append(" ");
        let v = self.value.string();
        s.append(v.as_str());
        proof {
            reveal_strlit(" ");
            assert(s@ =~= self.field.name@ + seq![' '] + self.operator.value@ + seq![' ']
                + spec_render_expr(self.value.model()));
        }
        s
    }

    pub fn node_type(&self) -> (t: NodeType)
        ensures
            t == NodeType::Condition,
    {
        NodeType::Condition
    }
}

} // verus!
