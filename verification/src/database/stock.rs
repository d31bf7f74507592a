//! Stock movements of products.
use vstd::prelude::*;

use super::statement::{plain_statement, statement1, statement2, statement3, str_param, ParamView, SqlParam, Statement};
use super::{database_failure, DbError, ErrorKind, MyError};
use crate::text::digit_char;

verus! {

/// One stock movement: a quantity added to (or, negative, taken from) a product.
#[derive(Debug, Clone, PartialEq, Eq)]
pub struct StockVar {
    pub product_id: i32,
    pub quantity: i32,
}

/// A request to record several stock movements.
#[derive(Debug, Clone, PartialEq, Eq)]
pub struct AddStocks {
    pub token: String,
    pub stocks: Vec<StockVar>,
}

/// A request for the yearly stock history of a product.
#[derive(Debug, Clone, PartialEq, Eq)]
pub struct ProductStockHistory {
    pub token: String,
    pub id: i32,
}

/// A calendar date.
#[derive(Debug, Clone, Copy, PartialEq, Eq)]
pub struct StockDate {
    pub year: i32,
    pub month: u8,
    pub day: u8,
}

/// A recorded stock movement as listed, with the product's name and the date.
#[derive(Debug, Clone, PartialEq, Eq)]
pub struct StockDto {
    pub product_id: i32,
    pub product_name: Option<String>,
    pub date: StockDate,
    pub quantity: i32,
}

pub const INSERT_STOCK_SQL: &'static str = "INSERT INTO stockVar VALUES (0,?,?,?)";

pub const CHANGE_STOCK_SQL: &'static str = "UPDATE products SET stock = stock + ? WHERE id = ?";

/// The fifteen latest stock movements, newest first.
pub const LATEST_STOCKS_SQL: &'static str = "SELECT s.productID as product_id, p.name as product_name, s.varDate as date, s.quantity as quantity 
        FROM stockVar s 
        LEFT JOIN products p ON s.productID = p.id
        ORDER BY s.varDate DESC, s.varID DESC
        LIMIT 15";

/// The sum of a product's stock movements per year, oldest year first.
pub const STOCK_HISTORY_SQL: &'static str = "SELECT YEAR(varDate) AS year, SUM(quantity) AS quantity
        FROM stockVar
        WHERE productID = ?
        GROUP BY YEAR(varDate)
        ORDER BY YEAR(varDate)";

/// Records a movement for the product with the given code.
pub const STOCK_FROM_CODE_SQL: &'static str = "INSERT INTO stockVar(productID, varDate ,quantity) VALUES((SELECT id FROM products WHERE code=?),? ,?)";

/// Whether `year` is a leap year of the proleptic Gregorian calendar.
pub open spec fn is_leap_year(year: int) -> bool {
    year % 4 == 0 && (year % 100 != 0 || year % 400 == 0)
}

/// The number of days of a month (1 to 12) of a year.
pub open spec fn days_in_month(year: int, month: int) -> int {
    if month == 2 {
        if is_leap_year(year) { 29 } else { 28 }
    } else if month == 4 || month == 6 || month == 9 || month == 11 {
        30
    } else {
        31
    }
}

/// A date that exists, in the years -9999 to 9999.
pub open spec fn is_valid_date(year: int, month: int, day: int) -> bool {
    &&& -9999 <= year <= 9999
    &&& 1 <= month <= 12
    &&& 1 <= day <= days_in_month(year, month)
}

/// `n` (0 to 99) in two digits.
pub open spec fn two_digits(n: int) -> Seq<char> {
    seq![digit_char(n / 10), digit_char(n % 10)]
}

/// `n` (0 to 9999) in four digits.
pub open spec fn four_digits(n: int) -> Seq<char> {
    seq![digit_char(n / 1000), digit_char((n / 100) % 10), digit_char((n / 10) % 10), digit_char(n % 10)]
}

/// A year in at least four digits, with a minus sign when negative.
pub open spec fn year_text(year: int) -> Seq<char> {
    if year < 0 {
        seq!['-'] + four_digits(-year)
    } else {
        four_digits(year)
    }
}

/// A date as day/month/year, day and month in two digits.
pub open spec fn day_month_year_text(year: int, month: int, day: int) -> Seq<char> {
    two_digits(day) + seq!['/'] + two_digits(month) + seq!['/'] + year_text(year)
}

/// The format description dates are listed with, in the time crate's notation.
pub const STOCK_DATE_FORMAT: &'static str = "[day]/[month]/[year]";

/// Builds a `time::Date` from the year, month and day and formats it with the
/// format description given, parsed by `time::format_description::parse`. For
/// `[day]/[month]/[year]` the time crate's documented defaults pad day and month
/// to two digits and the year to four, with a sign only for negative years;
/// `requires` keeps to that description and to dates that exist in the years
/// `Date` takes without its large-dates feature, so no call fails.
#[verifier::external_body]
fn format_date(year: i32, month: u8, day: u8, description: &str) -> (r: String)
    requires
        is_valid_date(year as int, month as int, day as int),
        description@ == STOCK_DATE_FORMAT@,
    ensures
        r@ == day_month_year_text(year as int, month as int, day as int),
{
    let month = time::Month::try_from(month).unwrap();
    let date = time::Date::from_calendar_date(year, month, day).unwrap();
    let description = time::format_description::parse(description).unwrap();
    date.format(&description).unwrap()
}

impl StockDate {
    /// The date as listed: day/month/year.
    pub fn text(&self) -> (r: String)
        requires
            is_valid_date(self.year as int, self.month as int, self.day as int),
        ensures
            r@ == day_month_year_text(self.year as int, self.month as int, self.day as int),
    {
        format_date(self.year, self.month, self.day, STOCK_DATE_FORMAT)
    }
}

/// The statement that records one movement, dated now.
pub open spec fn stock_insert_view(s: StockVar) -> (Seq<char>, Seq<ParamView>) {
    (INSERT_STOCK_SQL@, seq![ParamView::Int(s.product_id), ParamView::Now, ParamView::Int(s.quantity)])
}

/// The statement that changes one product's stock by a movement.
pub open spec fn stock_change_view(s: StockVar) -> (Seq<char>, Seq<ParamView>) {
    (CHANGE_STOCK_SQL@, seq![ParamView::Int(s.quantity), ParamView::Int(s.product_id)])
}

/// Records each movement, in order, all with the same current date.
pub fn add_stocks_statements(stocks: &Vec<StockVar>) -> (r: Vec<Statement>)
    ensures
        r@.len() == stocks@.len(),
        forall|i: int| 0 <= i < stocks@.len() ==> ((#[trigger] r@[i])@.sql, r@[i]@.params) == stock_insert_view(stocks@[i]),
{
    let mut r: Vec<Statement> = Vec::new();
    let mut i: usize = 0;
    while i < stocks.len()
        invariant
            i <= stocks@.len(),
            r@.len() == i,
            forall|j: int| 0 <= j < i ==> ((#[trigger] r@[j])@.sql, r@[j]@.params) == stock_insert_view(stocks@[j]),
        decreases stocks@.len() - i,
    {
        let s = &stocks[i];
        r.push(statement3(INSERT_STOCK_SQL, SqlParam::Int(s.product_id), SqlParam::Now, SqlParam::Int(s.quantity)));
        i = i + 1;
    }
    r
}

/// Adds each movement, in order, to its product's stock.
pub fn change_stocks_statements(stocks: &Vec<StockVar>) -> (r: Vec<Statement>)
    ensures
        r@.len() == stocks@.len(),
        forall|i: int| 0 <= i < stocks@.len() ==> ((#[trigger] r@[i])@.sql, r@[i]@.params) == stock_change_view(stocks@[i]),
{
    let mut r: Vec<Statement> = Vec::new();
    let mut i: usize = 0;
    while i < stocks.len()
        invariant
            i <= stocks@.len(),
            r@.len() == i,
            forall|j: int| 0 <= j < i ==> ((#[trigger] r@[j])@.sql, r@[j]@.params) == stock_change_view(stocks@[j]),
        decreases stocks@.len() - i,
    {
        let s = &stocks[i];
        r.push(statement2(CHANGE_STOCK_SQL, SqlParam::Int(s.quantity), SqlParam::Int(s.product_id)));
        i = i + 1;
    }
    r
}

/// The latest movements, read into `StockDto` rows.
pub fn latest_stocks_statement() -> (r: Statement)
    ensures
        r@.sql == LATEST_STOCKS_SQL@,
        r@.params == Seq::<ParamView>::empty(),
{
    plain_statement(String::from_str(LATEST_STOCKS_SQL))
}

/// The yearly history of one product.
pub fn stock_history_statement(product_id: i32) -> (r: Statement)
    ensures
        r@.sql == STOCK_HISTORY_SQL@,
        r@.params == seq![ParamView::Int(product_id)],
{
    statement1(STOCK_HISTORY_SQL, SqlParam::Int(product_id))
}

/// Records a movement, dated now, for the product with this code.
pub fn stock_from_code_statement(code: &str, quantity: i32) -> (r: Statement)
    ensures
        r@.sql == STOCK_FROM_CODE_SQL@,
        r@.params == seq![ParamView::Text(code@), ParamView::Now, ParamView::Int(quantity)],
{
    statement3(STOCK_FROM_CODE_SQL, str_param(code), SqlParam::Now, SqlParam::Int(quantity))
}

} // verus!

verus! {

// ---------------------------------------------------------------------------
// Running a batch of statements

/// What a batch of statements does next: run the statement at an index, or end.
#[derive(Debug, PartialEq, Eq)]
pub enum BatchStep {
    Run(usize),
    Finished(Result<(), MyError>),
}

pub enum BatchStepView {
    Run(usize),
    Finished(Result<(), (ErrorKind, Seq<char>)>),
}

impl View for BatchStep {
    type V = BatchStepView;

    open spec fn view(&self) -> BatchStepView {
        match self {
            BatchStep::Run(i) => BatchStepView::Run(*i),
            BatchStep::Finished(Ok(())) => BatchStepView::Finished(Ok(())),
            BatchStep::Finished(Err(e)) => BatchStepView::Finished(Err(e@)),
        }
    }
}

/// After statement `index` of `count` ran: the next one, or the end. The batch
/// stops at the first failed statement and answers with its failure; the
/// statements before it stay done.
pub open spec fn batch_next(index: int, count: int, result: Result<(), DbError>) -> BatchStepView {
    match result {
        Err(e) => BatchStepView::Finished(Err(database_failure(e))),
        Ok(()) => if index + 1 < count {
            BatchStepView::Run((index + 1) as usize)
        } else {
            BatchStepView::Finished(Ok(()))
        },
    }
}

/// The first step of a batch of `count` statements: the first one, or, for none,
/// the end.
pub fn batch_start(count: usize) -> (r: BatchStep)
    ensures
        r@ == (if count > 0 {
            BatchStepView::Run(0)
        } else {
            BatchStepView::Finished(Ok(()))
        }),
{
    if count > 0 {
        BatchStep::Run(0)
    } else {
        BatchStep::Finished(Ok(()))
    }
}

/// The step after statement `index` of `count` ran with `result` (see `batch_next`).
pub fn batch_after(index: usize, count: usize, result: Result<(), DbError>) -> (r: BatchStep)
    requires
        index < count,
    ensures
        r@ == batch_next(index as int, count as int, result),
        result is Ok && index + 1 < count ==> r@ == BatchStepView::Run((index + 1) as usize),
        r@ == BatchStepView::Finished(Ok(())) ==> result is Ok && index + 1 == count,
{
    match result {
        Err(e) => BatchStep::Finished(Err(MyError::from_database_error(e))),
        Ok(()) => if index + 1 < count {
            BatchStep::Run(index + 1)
        } else {
            BatchStep::Finished(Ok(()))
        },
    }
}

} // verus!

verus! {

/// Every statement of a batch runs, in order: after statement `i` of `n`
/// succeeded, statement `i + 1` runs next, and the batch ends with success only
/// after its last statement.
pub proof fn lemma_batch_runs_every_statement(i: int, n: int)
    requires
        0 <= i < n,
        n <= usize::MAX,
    ensures
        i + 1 < n ==> batch_next(i, n, Ok(())) == BatchStepView::Run((i + 1) as usize),
        batch_next(i, n, Ok(())) == BatchStepView::Finished(Ok(())) <==> i + 1 == n,
        batch_next(i, n, Ok(())) is Run || batch_next(i, n, Ok(())) == BatchStepView::Finished(Ok(())),
{
}

/// A failed statement ends the batch: no further statement runs, and the answer
/// is the database's text as a constraint error, or an internal error.
pub proof fn lemma_batch_stops_at_failure(i: int, n: int, e: DbError)
    ensures
        batch_next(i, n, Err(e)) == BatchStepView::Finished(
            Err(
                match e {
                    DbError::Database(m) => (ErrorKind::Constraint, m@),
                    DbError::Other => (ErrorKind::Internal, "Internal error"@),
                },
            ),
        ),
{
}

/// Recording a movement inserts it with the product's id, the current date and
/// the quantity; changing the stock adds the quantity to that product's stock.
pub proof fn lemma_stock_statements(s: StockVar)
    ensures
        stock_insert_view(s) == ("INSERT INTO stockVar VALUES (0,?,?,?)"@, seq![
            ParamView::Int(s.product_id),
            ParamView::Now,
            ParamView::Int(s.quantity),
        ]),
        stock_change_view(s) == ("UPDATE products SET stock = stock + ? WHERE id = ?"@, seq![
            ParamView::Int(s.quantity),
            ParamView::Int(s.product_id),
        ]),
{
}

} // verus!
