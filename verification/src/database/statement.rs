//! A statement for the database: its SQL text and the values bound to its `?` marks.
use vstd::prelude::*;

verus! {

/// A value bound to one `?` of a statement.
#[derive(Debug, Clone, PartialEq, Eq)]
pub enum SqlParam {
    Int(i32),
    Text(String),
    /// Bound as SQL `NULL` when absent.
    OptionalText(Option<String>),
    /// The current local date and time, taken once for a whole batch of statements.
    Now,
}

pub enum ParamView {
    Int(i32),
    Text(Seq<char>),
    OptionalText(Option<Seq<char>>),
    Now,
}

impl View for SqlParam {
    type V = ParamView;

    open spec fn view(&self) -> ParamView {
        match self {
            SqlParam::Int(i) => ParamView::Int(*i),
            SqlParam::Text(s) => ParamView::Text(s@),
            SqlParam::OptionalText(None) => ParamView::OptionalText(None),
            SqlParam::OptionalText(Some(s)) => ParamView::OptionalText(Some(s@)),
            SqlParam::Now => ParamView::Now,
        }
    }
}

/// SQL text with one bound value per `?`, in order.
#[derive(Debug, Clone, PartialEq, Eq)]
pub struct Statement {
    pub sql: String,
    pub params: Vec<SqlParam>,
}

pub struct StatementView {
    pub sql: Seq<char>,
    pub params: Seq<ParamView>,
}

impl View for Statement {
    type V = StatementView;

    open spec fn view(&self) -> StatementView {
        StatementView { sql: self.sql@, params: self.params@.map_values(|p: SqlParam| p@) }
    }
}

/// A text value to bind.
pub fn text_param(s: &String) -> (r: SqlParam)
    ensures
        r@ == ParamView::Text(s@),
{
    SqlParam::Text(s.clone())
}

/// A text value to bind, from a borrowed string.
pub fn str_param(s: &str) -> (r: SqlParam)
    ensures
        r@ == ParamView::Text(s@),
{
    SqlParam::Text(String::from_str(s))
}

/// An optional text as plain values.
pub open spec fn optional_view(s: Option<String>) -> Option<Seq<char>> {
    match s {
        Some(t) => Some(t@),
        None => None,
    }
}

/// An optional text value to bind.
pub fn optional_text_param(s: &Option<String>) -> (r: SqlParam)
    ensures
        r@ == ParamView::OptionalText(optional_view(*s)),
{
    match s {
        Some(t) => SqlParam::OptionalText(Some(t.clone())),
        None => SqlParam::OptionalText(None),
    }
}

/// A statement with no bound values.
pub fn plain_statement(sql: String) -> (r: Statement)
    ensures
        r@.sql == sql@,
        r@.params == Seq::<ParamView>::empty(),
{
    let r = Statement { sql, params: Vec::new() };
    assert(r@.params =~= Seq::<ParamView>::empty());
    r
}

/// A statement with one bound value.
pub fn statement1(sql: &str, a: SqlParam) -> (r: Statement)
    ensures
        r@.sql == sql@,
        r@.params == seq![a@],
{
    let mut params = Vec::new();
    params.push(a);
    let r = Statement { sql: String::from_str(sql), params };
    assert(r@.params =~= seq![a@]);
    r
}

/// A statement with two bound values.
pub fn statement2(sql: &str, a: SqlParam, b: SqlParam) -> (r: Statement)
    ensures
        r@.sql == sql@,
        r@.params == seq![a@, b@],
{
    let mut params = Vec::new();
    params.push(a);
    params.push(b);
    let r = Statement { sql: String::from_str(sql), params };
    assert(r@.params =~= seq![a@, b@]);
    r
}

/// A statement with three bound values.
pub fn statement3(sql: &str, a: SqlParam, b: SqlParam, c: SqlParam) -> (r: Statement)
    ensures
        r@.sql == sql@,
        r@.params == seq![a@, b@, c@],
{
    let mut params = Vec::new();
    params.push(a);
    params.push(b);
    params.push(c);
    let r = Statement { sql: String::from_str(sql), params };
    assert(r@.params =~= seq![a@, b@, c@]);
    r
}

/// A statement with five bound values.
pub fn statement5(sql: &str, a: SqlParam, b: SqlParam, c: SqlParam, d: SqlParam, e: SqlParam) -> (r: Statement)
    ensures
        r@.sql == sql@,
        r@.params == seq![a@, b@, c@, d@, e@],
{
    let mut params = Vec::new();
    params.push(a);
    params.push(b);
    params.push(c);
    params.push(d);
    params.push(e);
    let r = Statement { sql: String::from_str(sql), params };
    assert(r@.params =~= seq![a@, b@, c@, d@, e@]);
    r
}

} // verus!
