//! Export of the catalogue and its users, and the bulk import that loads them
//! back. The import opens a transaction and ends it with a commit or a
//! rollback, but its statements run on the connection pool beside that
//! transaction: a rollback does not undo the rows already written.
use vstd::prelude::*;

use super::products::ADD_PRODUCT_SQL;
use super::statement::{plain_statement, statement1, statement2, statement5, text_param, ParamView, SqlParam, Statement, StatementView};
use super::{database_failure, DbError, ErrorKind, MyError};
use crate::text::{decimal, i64_text, join_rows, join_with_commas, string_views};

verus! {

/// Everything an export holds: the users other than `admin`, and the products.
#[derive(Debug, Clone, PartialEq, Eq)]
pub struct ExportingDTO {
    pub users: Vec<ExportingUserDTO>,
    pub products: Vec<ExportingProductDTO>,
}

/// A product as exported: tags, properties and stock movements as JSON arrays in text.
#[derive(Debug, Clone, PartialEq, Eq)]
pub struct ExportingProductDTO {
    pub code: String,
    pub name: String,
    pub description: Option<String>,
    pub stock: Option<i32>,
    pub image_url: Option<String>,
    pub tags: Option<String>,
    pub properties: Option<String>,
    pub stock_var: Option<String>,
}

/// A user as exported, with the password hash.
#[derive(Debug, Clone, PartialEq, Eq)]
pub struct ExportingUserDTO {
    pub username: String,
    pub pwd: String,
    pub rol: String,
}

/// What an import loads.
#[derive(Debug, Clone, PartialEq, Eq)]
pub struct Importing {
    pub token: String,
    pub products: Vec<ImportingProduct>,
    pub users: Vec<ImportingUser>,
}

/// A user to import; `pwd` is stored as it is given.
#[derive(Debug, Clone, PartialEq, Eq)]
pub struct ImportingUser {
    pub username: String,
    pub pwd: String,
    pub rol: String,
}

/// A product to import, with its tags, properties and stock movements.
#[derive(Debug, Clone, PartialEq, Eq)]
pub struct ImportingProduct {
    pub code: String,
    pub name: String,
    pub description: String,
    pub stock: i32,
    pub image_url: String,
    /// Absent entries are skipped.
    pub tags: Vec<Option<String>>,
    pub properties: Option<Vec<ImportingProperty>>,
    pub stock_var: Option<Vec<ImportingStockVar>>,
}

/// A property of an imported product.
#[derive(Debug, Clone, PartialEq, Eq)]
pub struct ImportingProperty {
    pub property: String,
    pub value: String,
}

/// A stock movement of an imported product.
#[derive(Debug, Clone, PartialEq, Eq)]
pub struct ImportingStockVar {
    pub var_date: String,
    pub quantity: i32,
}

impl ExportingDTO {
    /// An export of these users and products.
    pub fn new(users: Vec<ExportingUserDTO>, products: Vec<ExportingProductDTO>) -> (r: ExportingDTO)
        ensures
            r.users == users,
            r.products == products,
    {
        ExportingDTO { users, products }
    }
}

/// Reads the products to export, each with its tags, properties and stock
/// movements gathered into JSON arrays.
pub const EXPORT_PRODUCTS_SQL: &'static str = "SELECT  p.code,
            p.name,
            p.description,
            p.stock,
            p.image_url,
            JSON_ARRAYAGG(t.name) AS tags,
            pp.properties,
            sv.stock_var
        FROM    products p
        LEFT JOIN 
            productsTotags pt ON p.id = pt.productID
        LEFT JOIN 
            tags t ON pt.tagID = t.id
        LEFT JOIN (
            SELECT ProductID, JSON_ARRAYAGG(JSON_OBJECT('property', property, 'value', value)) as properties
            FROM properties
            GROUP BY ProductID
        ) pp ON pp.ProductID = p.id
        LEFT JOIN (
            SELECT productID, JSON_ARRAYAGG(JSON_OBJECT('var_date', varDate, 'quantity', quantity)) as stock_var
            FROM stockVar
            GROUP BY ProductID
        ) sv ON sv.ProductID = p.id
        GROUP BY p.id";

/// The products to export, read into `ExportingProductDTO` rows.
pub fn export_products_statement() -> (r: Statement)
    ensures
        r@.sql == EXPORT_PRODUCTS_SQL@,
        r@.params == Seq::<ParamView>::empty(),
{
    plain_statement(String::from_str(EXPORT_PRODUCTS_SQL))
}

/// Reads the users to export: all but `admin`.
pub const EXPORT_USERS_SQL: &'static str = "SELECT username, pwd, rol FROM users WHERE username != 'admin'";

/// The users to export, read into `ExportingUserDTO` rows.
pub fn export_users_statement() -> (r: Statement)
    ensures
        r@.sql == EXPORT_USERS_SQL@,
        r@.params == Seq::<ParamView>::empty(),
{
    plain_statement(String::from_str(EXPORT_USERS_SQL))
}

// ---------------------------------------------------------------------------
// Bulk inserts. The values are written into the SQL text between quotes as they
// are, with nothing escaped.

/// One row of the users insert.
pub open spec fn user_row(u: ImportingUser) -> Seq<char> {
    "(0,'"@ + u.username@ + "','"@ + u.pwd@ + "','"@ + u.rol@ + "',0)"@
}

/// Inserts all the users in one statement; with no users the statement is
/// incomplete and the database refuses it.
pub open spec fn users_insert_sql(users: Seq<ImportingUser>) -> Seq<char> {
    "INSERT INTO users VALUES "@ + join_with_commas(users.map_values(|u: ImportingUser| user_row(u)))
}

/// One row of the properties insert of product `product_id`.
pub open spec fn property_row(product_id: i32, p: ImportingProperty) -> Seq<char> {
    "("@ + decimal(product_id as int) + ",'"@ + p.property@ + "','"@ + p.value@ + "')"@
}

/// Inserts all the properties of a product in one statement.
pub open spec fn properties_insert_sql(product_id: i32, properties: Seq<ImportingProperty>) -> Seq<char> {
    "INSERT INTO properties VALUES "@ + join_with_commas(
        properties.map_values(|p: ImportingProperty| property_row(product_id, p)),
    )
}

/// One row of the stock movements insert of product `product_id`.
pub open spec fn stock_var_row(product_id: i32, v: ImportingStockVar) -> Seq<char> {
    "(0,"@ + decimal(product_id as int) + ",'"@ + v.var_date@ + "',"@ + decimal(v.quantity as int) + ")"@
}

/// Inserts all the stock movements of a product in one statement.
pub open spec fn stock_vars_insert_sql(product_id: i32, stock_vars: Seq<ImportingStockVar>) -> Seq<char> {
    "INSERT INTO stockVar VALUES "@ + join_with_commas(
        stock_vars.map_values(|v: ImportingStockVar| stock_var_row(product_id, v)),
    )
}

fn user_row_text(u: &ImportingUser) -> (r: String)
    ensures
        r@ == user_row(*u),
{
    let mut s = String::from_str("(0,'");
    s.append(u.username.as_str());
    s.append("','");
    s.append(u.pwd.as_str());
    s.append("','");
    s.append(u.rol.as_str());
    s.append("',0)");
    assert(s@ =~= user_row(*u));
    s
}

fn property_row_text(product_id: i32, p: &ImportingProperty) -> (r: String)
    ensures
        r@ == property_row(product_id, *p),
{
    let mut s = String::from_str("(");
    s.append(i64_text(product_id as i64).as_str());
    s.append(",'");
    s.append(p.property.as_str());
    s.append("','");
    s.append(p.value.as_str());
    s.append("')");
    assert(s@ =~= property_row(product_id, *p));
    s
}

fn stock_var_row_text(product_id: i32, v: &ImportingStockVar) -> (r: String)
    ensures
        r@ == stock_var_row(product_id, *v),
{
    let mut s = String::from_str("(0,");
    s.append(i64_text(product_id as i64).as_str());
    s.append(",'");
    s.append(v.var_date.as_str());
    s.append("',");
    s.append(i64_text(v.quantity as i64).as_str());
    s.append(")");
    assert(s@ =~= stock_var_row(product_id, *v));
    s
}

/// The SQL of the users insert.
pub fn users_insert_text(users: &Vec<ImportingUser>) -> (r: String)
    ensures
        r@ == users_insert_sql(users@),
{
    let mut rows: Vec<String> = Vec::new();
    let mut i: usize = 0;
    while i < users.len()
        invariant
            i <= users@.len(),
            rows@.len() == i,
            forall|j: int| 0 <= j < i ==> (#[trigger] rows@[j])@ == user_row(users@[j]),
        decreases users@.len() - i,
    {
        rows.push(user_row_text(&users[i]));
        i = i + 1;
    }
    assert(string_views(rows@) =~= users@.map_values(|u: ImportingUser| user_row(u)));
    join_rows("INSERT INTO users VALUES ", &rows)
}

/// The SQL of the properties insert of a product.
pub fn properties_insert_text(product_id: i32, properties: &Vec<ImportingProperty>) -> (r: String)
    ensures
        r@ == properties_insert_sql(product_id, properties@),
{
    let mut rows: Vec<String> = Vec::new();
    let mut i: usize = 0;
    while i < properties.len()
        invariant
            i <= properties@.len(),
            rows@.len() == i,
            forall|j: int| 0 <= j < i ==> (#[trigger] rows@[j])@ == property_row(product_id, properties@[j]),
        decreases properties@.len() - i,
    {
        rows.push(property_row_text(product_id, &properties[i]));
        i = i + 1;
    }
    assert(string_views(rows@) =~= properties@.map_values(|p: ImportingProperty| property_row(product_id, p)));
    join_rows("INSERT INTO properties VALUES ", &rows)
}

/// The SQL of the stock movements insert of a product.
pub fn stock_vars_insert_text(product_id: i32, stock_vars: &Vec<ImportingStockVar>) -> (r: String)
    ensures
        r@ == stock_vars_insert_sql(product_id, stock_vars@),
{
    let mut rows: Vec<String> = Vec::new();
    let mut i: usize = 0;
    while i < stock_vars.len()
        invariant
            i <= stock_vars@.len(),
            rows@.len() == i,
            forall|j: int| 0 <= j < i ==> (#[trigger] rows@[j])@ == stock_var_row(product_id, stock_vars@[j]),
        decreases stock_vars@.len() - i,
    {
        rows.push(stock_var_row_text(product_id, &stock_vars[i]));
        i = i + 1;
    }
    assert(string_views(rows@) =~= stock_vars@.map_values(|v: ImportingStockVar| stock_var_row(product_id, v)));
    join_rows("INSERT INTO stockVar VALUES ", &rows)
}

} // verus!

verus! {

// ---------------------------------------------------------------------------
// The import as a machine: it tells what to ask of the database next, and is
// told how the database answered.

/// What the import asks of the database next.
#[derive(Debug, Clone, Copy, PartialEq, Eq)]
pub enum ImportAction {
    /// Start the transaction.
    Begin,
    /// Insert all the users.
    InsertUsers,
    /// Insert a product.
    InsertProduct { product: usize },
    /// Read the id the database gave that product.
    FetchProductId { product: usize },
    /// Look for a tag of that name.
    LookUpTag { product: usize, tag: usize },
    /// Add a tag of that name.
    InsertTag { product: usize, tag: usize },
    /// Read the id the database gave that tag.
    FetchTagId { product: usize, tag: usize },
    /// Bind a tag to a product.
    BindTag { product_id: i32, tag_id: i32 },
    /// Insert all the properties of a product.
    InsertProperties { product: usize, product_id: i32 },
    /// Insert all the stock movements of a product.
    InsertStockVars { product: usize, product_id: i32 },
    /// Commit the transaction.
    Commit,
    /// Roll the transaction back.
    Rollback,
}

/// Where an import stands: what it asked last.
#[derive(Debug, Clone, Copy, PartialEq, Eq)]
pub enum ImportPhase {
    Beginning,
    InsertingUsers,
    InsertingProduct { product: usize },
    FetchingProductId { product: usize },
    LookingUpTag { product: usize, product_id: i32, tag: usize },
    InsertingTag { product: usize, product_id: i32, tag: usize },
    FetchingTagId { product: usize, product_id: i32, tag: usize },
    BindingTag { product: usize, product_id: i32, tag: usize },
    InsertingProperties { product: usize, product_id: i32 },
    InsertingStockVars { product: usize, product_id: i32 },
    RollingBack,
    Committing,
    Finished,
}

/// How the database answered the last request.
#[derive(Debug, Clone, PartialEq, Eq)]
pub enum DbEvent {
    /// The statement ran.
    Done,
    /// The id that was asked for.
    Found(i32),
    /// No row for a lookup.
    NotFound,
    /// The statement failed (for a read of an id, a missing row too).
    Failed(DbError),
}

/// What the import does next: ask the database, or end with an answer.
#[derive(Debug, PartialEq, Eq)]
pub enum ImportStep {
    Request(ImportAction),
    Finished(Result<(), MyError>),
}

pub enum StepView {
    Request(ImportAction),
    Finished(Result<(), (ErrorKind, Seq<char>)>),
}

impl View for ImportStep {
    type V = StepView;

    open spec fn view(&self) -> StepView {
        match self {
            ImportStep::Request(a) => StepView::Request(*a),
            ImportStep::Finished(Ok(())) => StepView::Finished(Ok(())),
            ImportStep::Finished(Err(e)) => StepView::Finished(Err(e@)),
        }
    }
}

/// A running import: where it stands, and the failure it is rolling back for.
#[derive(Debug, Clone, PartialEq, Eq)]
pub struct ImportMachine {
    pub phase: ImportPhase,
    pub failure: Option<MyError>,
}

/// A failure as plain values.
pub open spec fn failure_view(f: Option<MyError>) -> Option<(ErrorKind, Seq<char>)> {
    match f {
        Some(e) => Some(e@),
        None => None,
    }
}

/// The first tag, from index `t` on, that is present; the number of tags if none is.
pub open spec fn first_present_tag(tags: Seq<Option<String>>, t: int) -> int
    decreases tags.len() - t,
{
    if t >= tags.len() {
        tags.len() as int
    } else if tags[t] is Some {
        t
    } else {
        first_present_tag(tags, t + 1)
    }
}

/// Go on with product `p`, or commit when there is none.
pub open spec fn next_product(import: Importing, p: int) -> (ImportPhase, ImportAction) {
    if p < import.products@.len() {
        (ImportPhase::InsertingProduct { product: p as usize }, ImportAction::InsertProduct { product: p as usize })
    } else {
        (ImportPhase::Committing, ImportAction::Commit)
    }
}

/// After the properties of product `p`: its stock movements, if it has them.
pub open spec fn after_properties(import: Importing, p: int, product_id: i32) -> (ImportPhase, ImportAction) {
    if import.products@[p].stock_var is Some {
        (
            ImportPhase::InsertingStockVars { product: p as usize, product_id },
            ImportAction::InsertStockVars { product: p as usize, product_id },
        )
    } else {
        next_product(import, p + 1)
    }
}

/// After the tags of product `p`: its properties, if it has them.
pub open spec fn after_tags(import: Importing, p: int, product_id: i32) -> (ImportPhase, ImportAction) {
    if import.products@[p].properties is Some {
        (
            ImportPhase::InsertingProperties { product: p as usize, product_id },
            ImportAction::InsertProperties { product: p as usize, product_id },
        )
    } else {
        after_properties(import, p, product_id)
    }
}

/// The tags of product `p` from index `t` on: look up the next present one.
pub open spec fn tags_from(import: Importing, p: int, product_id: i32, t: int) -> (ImportPhase, ImportAction) {
    let tags = import.products@[p].tags@;
    let k = first_present_tag(tags, t);
    if k < tags.len() {
        (
            ImportPhase::LookingUpTag { product: p as usize, product_id, tag: k as usize },
            ImportAction::LookUpTag { product: p as usize, tag: k as usize },
        )
    } else {
        after_tags(import, p, product_id)
    }
}

/// The phases in which a statement of the import itself is running.
pub open spec fn is_importing(phase: ImportPhase) -> bool {
    !(phase is Beginning || phase is RollingBack || phase is Committing || phase is Finished)
}

/// The answers the import can take in each phase.
pub open spec fn expects(phase: ImportPhase, ev: DbEvent) -> bool {
    match phase {
        ImportPhase::Finished => false,
        ImportPhase::FetchingProductId { .. } | ImportPhase::FetchingTagId { .. } => ev is Found || ev is Failed,
        ImportPhase::LookingUpTag { .. } => !(ev is Done),
        _ => ev is Done || ev is Failed,
    }
}

/// A phase of this import: its indices point at what exists.
pub open spec fn phase_fits(import: Importing, phase: ImportPhase) -> bool {
    let products = import.products@;
    match phase {
        ImportPhase::InsertingProduct { product } => product < products.len(),
        ImportPhase::FetchingProductId { product } => product < products.len(),
        ImportPhase::LookingUpTag { product, tag, .. } => product < products.len() && tag
            < products[product as int].tags@.len() && products[product as int].tags@[tag as int] is Some,
        ImportPhase::InsertingTag { product, tag, .. } => product < products.len() && tag
            < products[product as int].tags@.len() && products[product as int].tags@[tag as int] is Some,
        ImportPhase::FetchingTagId { product, tag, .. } => product < products.len() && tag
            < products[product as int].tags@.len() && products[product as int].tags@[tag as int] is Some,
        ImportPhase::BindingTag { product, tag, .. } => product < products.len() && tag
            < products[product as int].tags@.len() && products[product as int].tags@[tag as int] is Some,
        ImportPhase::InsertingProperties { product, .. } => product < products.len()
            && products[product as int].properties is Some,
        ImportPhase::InsertingStockVars { product, .. } => product < products.len()
            && products[product as int].stock_var is Some,
        _ => true,
    }
}

/// A request of this import: its indices point at what exists.
pub open spec fn action_fits(import: Importing, action: ImportAction) -> bool {
    let products = import.products@;
    match action {
        ImportAction::InsertProduct { product } => product < products.len(),
        ImportAction::FetchProductId { product } => product < products.len(),
        ImportAction::LookUpTag { product, tag } => product < products.len() && tag
            < products[product as int].tags@.len() && products[product as int].tags@[tag as int] is Some,
        ImportAction::InsertTag { product, tag } => product < products.len() && tag
            < products[product as int].tags@.len() && products[product as int].tags@[tag as int] is Some,
        ImportAction::FetchTagId { product, tag } => product < products.len() && tag
            < products[product as int].tags@.len() && products[product as int].tags@[tag as int] is Some,
        ImportAction::InsertProperties { product, .. } => product < products.len()
            && products[product as int].properties is Some,
        ImportAction::InsertStockVars { product, .. } => product < products.len()
            && products[product as int].stock_var is Some,
        _ => true,
    }
}

/// A phase and a request, with the failure left as it was.
pub open spec fn ask(next: (ImportPhase, ImportAction), failure: Option<(ErrorKind, Seq<char>)>) -> (ImportPhase, Option<(ErrorKind, Seq<char>)>, StepView) {
    (next.0, failure, StepView::Request(next.1))
}

/// One step of the import: from where it stands, the failure it keeps, and the
/// database's answer, to where it stands next, the failure it keeps, and what it
/// does next.
///
/// It begins a transaction; inserts the users; then, product by product, inserts
/// the product, reads its id, and for each present tag looks the tag up (adding
/// it and reading its id when there is none) and binds it to the product; inserts
/// the properties and then the stock movements when the product has them; and
/// commits. A failure of any of these statements rolls the transaction back and
/// ends with that failure, or with the rollback's own failure if it fails too. A
/// failure to begin or to commit ends the import with it. The statements run
/// beside the transaction, so what they wrote before a failure stays written;
/// the rollback ends the transaction without undoing them.
pub open spec fn import_transition(
    import: Importing,
    phase: ImportPhase,
    failure: Option<(ErrorKind, Seq<char>)>,
    ev: DbEvent,
) -> (ImportPhase, Option<(ErrorKind, Seq<char>)>, StepView) {
    match ev {
        DbEvent::Failed(e) => if is_importing(phase) {
            (ImportPhase::RollingBack, Some(database_failure(e)), StepView::Request(ImportAction::Rollback))
        } else {
            (ImportPhase::Finished, None, StepView::Finished(Err(database_failure(e))))
        },
        _ => match phase {
            ImportPhase::Beginning => ask((ImportPhase::InsertingUsers, ImportAction::InsertUsers), failure),
            ImportPhase::InsertingUsers => ask(next_product(import, 0), failure),
            ImportPhase::InsertingProduct { product } => ask(
                (ImportPhase::FetchingProductId { product }, ImportAction::FetchProductId { product }),
                failure,
            ),
            ImportPhase::FetchingProductId { product } => match ev {
                DbEvent::Found(product_id) => ask(tags_from(import, product as int, product_id, 0), failure),
                _ => (phase, failure, StepView::Request(ImportAction::Rollback)),
            },
            ImportPhase::LookingUpTag { product, product_id, tag } => match ev {
                DbEvent::Found(tag_id) => ask(
                    (ImportPhase::BindingTag { product, product_id, tag }, ImportAction::BindTag { product_id, tag_id }),
                    failure,
                ),
                _ => ask(
                    (ImportPhase::InsertingTag { product, product_id, tag }, ImportAction::InsertTag { product, tag }),
                    failure,
                ),
            },
            ImportPhase::InsertingTag { product, product_id, tag } => ask(
                (ImportPhase::FetchingTagId { product, product_id, tag }, ImportAction::FetchTagId { product, tag }),
                failure,
            ),
            ImportPhase::FetchingTagId { product, product_id, tag } => match ev {
                DbEvent::Found(tag_id) => ask(
                    (ImportPhase::BindingTag { product, product_id, tag }, ImportAction::BindTag { product_id, tag_id }),
                    failure,
                ),
                _ => (phase, failure, StepView::Request(ImportAction::Rollback)),
            },
            ImportPhase::BindingTag { product, product_id, tag } => ask(
                tags_from(import, product as int, product_id, tag + 1),
                failure,
            ),
            ImportPhase::InsertingProperties { product, product_id } => ask(
                after_properties(import, product as int, product_id),
                failure,
            ),
            ImportPhase::InsertingStockVars { product, product_id } => ask(
                next_product(import, product + 1),
                failure,
            ),
            ImportPhase::RollingBack => (ImportPhase::Finished, None, StepView::Finished(Err(failure.unwrap()))),
            ImportPhase::Committing => (ImportPhase::Finished, failure, StepView::Finished(Ok(()))),
            ImportPhase::Finished => (phase, failure, StepView::Request(ImportAction::Rollback)),
        },
    }
}

impl ImportMachine {
    /// The machine is at a phase of this import, and keeps a failure exactly while
    /// it rolls back.
    pub open spec fn fits(&self, import: Importing) -> bool {
        &&& phase_fits(import, self.phase)
        &&& (self.phase is RollingBack <==> self.failure is Some)
    }

    /// A new import, which first begins a transaction.
    pub fn start() -> (r: (ImportMachine, ImportAction))
        ensures
            r.0.phase == ImportPhase::Beginning,
            r.0.failure is None,
            r.1 == ImportAction::Begin,
    {
        (ImportMachine { phase: ImportPhase::Beginning, failure: None }, ImportAction::Begin)
    }

    /// Whether the machine takes this answer now.
    pub fn expects(&self, ev: &DbEvent) -> (r: bool)
        ensures
            r == expects(self.phase, *ev),
    {
        match self.phase {
            ImportPhase::Finished => false,
            ImportPhase::FetchingProductId { .. } | ImportPhase::FetchingTagId { .. } => match ev {
                DbEvent::Found(_) | DbEvent::Failed(_) => true,
                _ => false,
            },
            ImportPhase::LookingUpTag { .. } => match ev {
                DbEvent::Done => false,
                _ => true,
            },
            _ => match ev {
                DbEvent::Done | DbEvent::Failed(_) => true,
                _ => false,
            },
        }
    }
}

fn next_product_exec(import: &Importing, p: usize) -> (r: (ImportPhase, ImportAction))
    requires
        p <= import.products@.len(),
    ensures
        r == next_product(*import, p as int),
        phase_fits(*import, r.0),
        action_fits(*import, r.1),
{
    if p < import.products.len() {
        (ImportPhase::InsertingProduct { product: p }, ImportAction::InsertProduct { product: p })
    } else {
        (ImportPhase::Committing, ImportAction::Commit)
    }
}

fn after_properties_exec(import: &Importing, p: usize, product_id: i32) -> (r: (ImportPhase, ImportAction))
    requires
        p < import.products@.len(),
    ensures
        r == after_properties(*import, p as int, product_id),
        phase_fits(*import, r.0),
        action_fits(*import, r.1),
{
    if import.products[p].stock_var.is_some() {
        (
            ImportPhase::InsertingStockVars { product: p, product_id },
            ImportAction::InsertStockVars { product: p, product_id },
        )
    } else {
        let count = import.products.len();
        assert(p < count);
        next_product_exec(import, p + 1)
    }
}

fn after_tags_exec(import: &Importing, p: usize, product_id: i32) -> (r: (ImportPhase, ImportAction))
    requires
        p < import.products@.len(),
    ensures
        r == after_tags(*import, p as int, product_id),
        phase_fits(*import, r.0),
        action_fits(*import, r.1),
{
    if import.products[p].properties.is_some() {
        (
            ImportPhase::InsertingProperties { product: p, product_id },
            ImportAction::InsertProperties { product: p, product_id },
        )
    } else {
        after_properties_exec(import, p, product_id)
    }
}

/// `first_present_tag` skips exactly the absent tags.
pub proof fn lemma_first_present_tag(tags: Seq<Option<String>>, t: int)
    requires
        0 <= t,
    ensures
        t <= first_present_tag(tags, t) || tags.len() < t,
        first_present_tag(tags, t) <= tags.len() || tags.len() < t,
        t <= tags.len() ==> t <= first_present_tag(tags, t) <= tags.len(),
        forall|k: int| t <= k < first_present_tag(tags, t) ==> #[trigger] tags[k] is None,
        first_present_tag(tags, t) < tags.len() ==> tags[first_present_tag(tags, t)] is Some,
    decreases tags.len() - t,
{
    if t < tags.len() && tags[t] is None {
        lemma_first_present_tag(tags, t + 1);
    }
}

fn tags_from_exec(import: &Importing, p: usize, product_id: i32, t: usize) -> (r: (ImportPhase, ImportAction))
    requires
        p < import.products@.len(),
        t <= import.products@[p as int].tags@.len(),
    ensures
        r == tags_from(*import, p as int, product_id, t as int),
        phase_fits(*import, r.0),
        action_fits(*import, r.1),
{
    let tags = &import.products[p].tags;
    let mut k: usize = t;
    while k < tags.len() && tags[k].is_none()
        invariant
            t <= k <= tags@.len(),
            tags@ == import.products@[p as int].tags@,
            first_present_tag(tags@, t as int) == first_present_tag(tags@, k as int),
        decreases tags@.len() - k,
    {
        k = k + 1;
    }
    if k < tags.len() {
        (
            ImportPhase::LookingUpTag { product: p, product_id, tag: k },
            ImportAction::LookUpTag { product: p, tag: k },
        )
    } else {
        after_tags_exec(import, p, product_id)
    }
}

impl ImportMachine {
    /// Takes the database's answer and tells what to do next (see `import_transition`).
    pub fn step(&mut self, import: &Importing, ev: DbEvent) -> (r: ImportStep)
        requires
            old(self).fits(*import),
            expects(old(self).phase, ev),
        ensures
            final(self).fits(*import),
            (final(self).phase, failure_view(final(self).failure), r@) == import_transition(
                *import,
                old(self).phase,
                failure_view(old(self).failure),
                ev,
            ),
            r matches ImportStep::Request(a) ==> action_fits(*import, a),
    {
        let phase = self.phase;
        match ev {
            DbEvent::Failed(e) => {
                let is_importing = match phase {
                    ImportPhase::Beginning | ImportPhase::RollingBack | ImportPhase::Committing
                    | ImportPhase::Finished => false,
                    _ => true,
                };
                if is_importing {
                    self.phase = ImportPhase::RollingBack;
                    self.failure = Some(MyError::from_database_error(e));
                    ImportStep::Request(ImportAction::Rollback)
                } else {
                    self.phase = ImportPhase::Finished;
                    self.failure = None;
                    ImportStep::Finished(Err(MyError::from_database_error(e)))
                }
            },
            _ => {
                let next: (ImportPhase, ImportAction) = match phase {
                    ImportPhase::Beginning => (ImportPhase::InsertingUsers, ImportAction::InsertUsers),
                    ImportPhase::InsertingUsers => next_product_exec(import, 0),
                    ImportPhase::InsertingProduct { product } => (
                        ImportPhase::FetchingProductId { product },
                        ImportAction::FetchProductId { product },
                    ),
                    ImportPhase::FetchingProductId { product } => match ev {
                        DbEvent::Found(product_id) => tags_from_exec(import, product, product_id, 0),
                        _ => (phase, ImportAction::Rollback),
                    },
                    ImportPhase::LookingUpTag { product, product_id, tag } => match ev {
                        DbEvent::Found(tag_id) => (
                            ImportPhase::BindingTag { product, product_id, tag },
                            ImportAction::BindTag { product_id, tag_id },
                        ),
                        _ => (
                            ImportPhase::InsertingTag { product, product_id, tag },
                            ImportAction::InsertTag { product, tag },
                        ),
                    },
                    ImportPhase::InsertingTag { product, product_id, tag } => (
                        ImportPhase::FetchingTagId { product, product_id, tag },
                        ImportAction::FetchTagId { product, tag },
                    ),
                    ImportPhase::FetchingTagId { product, product_id, tag } => match ev {
                        DbEvent::Found(tag_id) => (
                            ImportPhase::BindingTag { product, product_id, tag },
                            ImportAction::BindTag { product_id, tag_id },
                        ),
                        _ => (phase, ImportAction::Rollback),
                    },
                    ImportPhase::BindingTag { product, product_id, tag } => {
                        let count = import.products[product].tags.len();
                        assert(tag < count);
                        tags_from_exec(import, product, product_id, tag + 1)
                    },
                    ImportPhase::InsertingProperties { product, product_id } => after_properties_exec(
                        import,
                        product,
                        product_id,
                    ),
                    ImportPhase::InsertingStockVars { product, product_id } => {
                        let count = import.products.len();
                        assert(product < count);
                        next_product_exec(import, product + 1)
                    },
                    ImportPhase::RollingBack => {
                        self.phase = ImportPhase::Finished;
                        let failure = self.failure.take();
                        match failure {
                            Some(f) => {
                                return ImportStep::Finished(Err(f));
                            },
                            None => {
                                return ImportStep::Request(ImportAction::Rollback);
                            },
                        }
                    },
                    ImportPhase::Committing => {
                        self.phase = ImportPhase::Finished;
                        return ImportStep::Finished(Ok(()));
                    },
                    ImportPhase::Finished => (phase, ImportAction::Rollback),
                };
                self.phase = next.0;
                ImportStep::Request(next.1)
            },
        }
    }
}

} // verus!

verus! {

// ---------------------------------------------------------------------------
// The statements behind the import's requests

pub const PRODUCT_ID_SQL: &'static str = "SELECT id FROM products WHERE code = ?";

pub const TAG_ID_SQL: &'static str = "SELECT id FROM tags WHERE name = ?";

pub const INSERT_TAG_SQL: &'static str = "INSERT INTO tags VALUES(0,?)";

pub const BIND_PRODUCT_TAG_SQL: &'static str = "INSERT INTO productsTotags VALUES(?,?)";

/// A request to the database.
#[derive(Debug, PartialEq, Eq)]
pub enum DbRequest {
    Begin,
    Commit,
    Rollback,
    /// Run the statement.
    Execute(Statement),
    /// Read the id in the one row the statement gives; no row is a failure.
    FetchId(Statement),
    /// Read the id in the row the statement gives, if there is one.
    FindId(Statement),
}

pub enum RequestView {
    Begin,
    Commit,
    Rollback,
    Execute(StatementView),
    FetchId(StatementView),
    FindId(StatementView),
}

impl View for DbRequest {
    type V = RequestView;

    open spec fn view(&self) -> RequestView {
        match self {
            DbRequest::Begin => RequestView::Begin,
            DbRequest::Commit => RequestView::Commit,
            DbRequest::Rollback => RequestView::Rollback,
            DbRequest::Execute(s) => RequestView::Execute(s@),
            DbRequest::FetchId(s) => RequestView::FetchId(s@),
            DbRequest::FindId(s) => RequestView::FindId(s@),
        }
    }
}

/// The insert of an imported product, with a new id.
pub open spec fn product_insert_view(p: ImportingProduct) -> StatementView {
    StatementView {
        sql: ADD_PRODUCT_SQL@,
        params: seq![
            ParamView::Text(p.code@),
            ParamView::Text(p.name@),
            ParamView::Text(p.description@),
            ParamView::Int(p.stock),
            ParamView::Text(p.image_url@),
        ],
    }
}

/// The name of tag `t` of product `p`.
pub open spec fn tag_name(import: Importing, p: int, t: int) -> Seq<char> {
    (import.products@[p].tags@[t]->0)@
}

/// The request behind each action of the import.
pub open spec fn request_view(import: Importing, action: ImportAction) -> RequestView {
    match action {
        ImportAction::Begin => RequestView::Begin,
        ImportAction::Commit => RequestView::Commit,
        ImportAction::Rollback => RequestView::Rollback,
        ImportAction::InsertUsers => RequestView::Execute(
            StatementView { sql: users_insert_sql(import.users@), params: Seq::empty() },
        ),
        ImportAction::InsertProduct { product } => RequestView::Execute(
            product_insert_view(import.products@[product as int]),
        ),
        ImportAction::FetchProductId { product } => RequestView::FetchId(
            StatementView {
                sql: PRODUCT_ID_SQL@,
                params: seq![ParamView::Text(import.products@[product as int].code@)],
            },
        ),
        ImportAction::LookUpTag { product, tag } => RequestView::FindId(
            StatementView {
                sql: TAG_ID_SQL@,
                params: seq![ParamView::Text(tag_name(import, product as int, tag as int))],
            },
        ),
        ImportAction::InsertTag { product, tag } => RequestView::Execute(
            StatementView {
                sql: INSERT_TAG_SQL@,
                params: seq![ParamView::Text(tag_name(import, product as int, tag as int))],
            },
        ),
        ImportAction::FetchTagId { product, tag } => RequestView::FetchId(
            StatementView {
                sql: TAG_ID_SQL@,
                params: seq![ParamView::Text(tag_name(import, product as int, tag as int))],
            },
        ),
        ImportAction::BindTag { product_id, tag_id } => RequestView::Execute(
            StatementView {
                sql: BIND_PRODUCT_TAG_SQL@,
                params: seq![ParamView::Int(product_id), ParamView::Int(tag_id)],
            },
        ),
        ImportAction::InsertProperties { product, product_id } => RequestView::Execute(
            StatementView {
                sql: properties_insert_sql(
                    product_id,
                    (import.products@[product as int].properties->0)@,
                ),
                params: Seq::empty(),
            },
        ),
        ImportAction::InsertStockVars { product, product_id } => RequestView::Execute(
            StatementView {
                sql: stock_vars_insert_sql(
                    product_id,
                    (import.products@[product as int].stock_var->0)@,
                ),
                params: Seq::empty(),
            },
        ),
    }
}

fn product_insert_statement(p: &ImportingProduct) -> (r: Statement)
    ensures
        r@ == product_insert_view(*p),
{
    statement5(
        ADD_PRODUCT_SQL,
        text_param(&p.code),
        text_param(&p.name),
        text_param(&p.description),
        SqlParam::Int(p.stock),
        text_param(&p.image_url),
    )
}

fn tag_statement(sql: &str, import: &Importing, product: usize, tag: usize) -> (r: Statement)
    requires
        action_fits(*import, ImportAction::LookUpTag { product, tag }),
    ensures
        r@ == (StatementView { sql: sql@, params: seq![ParamView::Text(tag_name(*import, product as int, tag as int))] }),
{
    let name = import.products[product].tags[tag].as_ref().unwrap();
    statement1(sql, text_param(name))
}

/// The request behind an action of the import.
pub fn request(import: &Importing, action: &ImportAction) -> (r: DbRequest)
    requires
        action_fits(*import, *action),
    ensures
        r@ == request_view(*import, *action),
{
    match *action {
        ImportAction::Begin => DbRequest::Begin,
        ImportAction::Commit => DbRequest::Commit,
        ImportAction::Rollback => DbRequest::Rollback,
        ImportAction::InsertUsers => DbRequest::Execute(plain_statement(users_insert_text(&import.users))),
        ImportAction::InsertProduct { product } => DbRequest::Execute(
            product_insert_statement(&import.products[product]),
        ),
        ImportAction::FetchProductId { product } => DbRequest::FetchId(
            statement1(PRODUCT_ID_SQL, text_param(&import.products[product].code)),
        ),
        ImportAction::LookUpTag { product, tag } => DbRequest::FindId(
            tag_statement(TAG_ID_SQL, import, product, tag),
        ),
        ImportAction::InsertTag { product, tag } => DbRequest::Execute(
            tag_statement(INSERT_TAG_SQL, import, product, tag),
        ),
        ImportAction::FetchTagId { product, tag } => DbRequest::FetchId(
            tag_statement(TAG_ID_SQL, import, product, tag),
        ),
        ImportAction::BindTag { product_id, tag_id } => DbRequest::Execute(
            statement2(BIND_PRODUCT_TAG_SQL, SqlParam::Int(product_id), SqlParam::Int(tag_id)),
        ),
        ImportAction::InsertProperties { product, product_id } => {
            let properties = import.products[product].properties.as_ref().unwrap();
            DbRequest::Execute(plain_statement(properties_insert_text(product_id, properties)))
        },
        ImportAction::InsertStockVars { product, product_id } => {
            let stock_vars = import.products[product].stock_var.as_ref().unwrap();
            DbRequest::Execute(plain_statement(stock_vars_insert_text(product_id, stock_vars)))
        },
    }
}

} // verus!

verus! {

// ---------------------------------------------------------------------------
// What the import keeps to

/// The product a phase works on, if it works on one.
pub open spec fn phase_product(phase: ImportPhase) -> Option<int> {
    match phase {
        ImportPhase::InsertingProduct { product } => Some(product as int),
        ImportPhase::FetchingProductId { product } => Some(product as int),
        ImportPhase::LookingUpTag { product, .. } => Some(product as int),
        ImportPhase::InsertingTag { product, .. } => Some(product as int),
        ImportPhase::FetchingTagId { product, .. } => Some(product as int),
        ImportPhase::BindingTag { product, .. } => Some(product as int),
        ImportPhase::InsertingProperties { product, .. } => Some(product as int),
        ImportPhase::InsertingStockVars { product, .. } => Some(product as int),
        _ => None,
    }
}

/// A failed statement of the import stops it: no further statement of the import
/// runs, the transaction is rolled back, and the failure is kept to answer with.
/// (The rows written before the failure stay, as the statements run beside the
/// transaction.)
pub proof fn lemma_failure_rolls_back(
    import: Importing,
    phase: ImportPhase,
    failure: Option<(ErrorKind, Seq<char>)>,
    e: DbError,
)
    requires
        is_importing(phase),
    ensures
        import_transition(import, phase, failure, DbEvent::Failed(e)) == (
            ImportPhase::RollingBack,
            Some(database_failure(e)),
            StepView::Request(ImportAction::Rollback),
        ),
{
}

/// After the rollback the import answers with the failure that caused it; if the
/// rollback itself fails, with that failure.
pub proof fn lemma_rollback_answers_failure(import: Importing, f: (ErrorKind, Seq<char>), e: DbError)
    ensures
        import_transition(import, ImportPhase::RollingBack, Some(f), DbEvent::Done) == (
            ImportPhase::Finished,
            None::<(ErrorKind, Seq<char>)>,
            StepView::Finished(Err(f)),
        ),
        import_transition(import, ImportPhase::RollingBack, Some(f), DbEvent::Failed(e)) == (
            ImportPhase::Finished,
            None::<(ErrorKind, Seq<char>)>,
            StepView::Finished(Err(database_failure(e))),
        ),
{
}

/// A finished import takes no further answer, and only a committed import
/// answers with success.
pub proof fn lemma_only_commit_succeeds(
    import: Importing,
    phase: ImportPhase,
    failure: Option<(ErrorKind, Seq<char>)>,
    ev: DbEvent,
)
    ensures
        !expects(ImportPhase::Finished, ev),
        expects(phase, ev) && import_transition(import, phase, failure, ev).2 == StepView::Finished(Ok(()))
            ==> phase is Committing && ev is Done,
{
}

/// Products are inserted in order: the first right after the users, each other
/// one right after the work on the one before it.
pub proof fn lemma_products_in_order(
    import: Importing,
    phase: ImportPhase,
    failure: Option<(ErrorKind, Seq<char>)>,
    ev: DbEvent,
    q: usize,
)
    requires
        phase_fits(import, phase),
        expects(phase, ev),
        import_transition(import, phase, failure, ev).2 == StepView::Request(ImportAction::InsertProduct { product: q }),
        import.products@.len() <= usize::MAX,
    ensures
        (q == 0 && phase is InsertingUsers) || phase_product(phase) == Some(q - 1),
{
}

/// The transaction is committed only after the users and every product went in:
/// right after the users when there are no products, otherwise only after work
/// on the last product.
pub proof fn lemma_commit_after_last_product(
    import: Importing,
    phase: ImportPhase,
    failure: Option<(ErrorKind, Seq<char>)>,
    ev: DbEvent,
)
    requires
        phase_fits(import, phase),
        expects(phase, ev),
        import_transition(import, phase, failure, ev).2 == StepView::Request(ImportAction::Commit),
    ensures
        !(ev is Failed),
        (phase is InsertingUsers && import.products@.len() == 0) || phase_product(phase) == Some(
            import.products@.len() - 1,
        ),
{
}

/// A tag that exists is bound by its id without being added again; one that does
/// not is added, its new id read, and then bound. Either way it is bound to the
/// product whose id was read.
pub proof fn lemma_tag_binding(
    import: Importing,
    product: usize,
    product_id: i32,
    tag: usize,
    tag_id: i32,
    failure: Option<(ErrorKind, Seq<char>)>,
)
    ensures
        import_transition(import, ImportPhase::LookingUpTag { product, product_id, tag }, failure, DbEvent::Found(tag_id))
            == (
            ImportPhase::BindingTag { product, product_id, tag },
            failure,
            StepView::Request(ImportAction::BindTag { product_id, tag_id }),
        ),
        import_transition(import, ImportPhase::LookingUpTag { product, product_id, tag }, failure, DbEvent::NotFound)
            == (
            ImportPhase::InsertingTag { product, product_id, tag },
            failure,
            StepView::Request(ImportAction::InsertTag { product, tag }),
        ),
        import_transition(import, ImportPhase::InsertingTag { product, product_id, tag }, failure, DbEvent::Done)
            == (
            ImportPhase::FetchingTagId { product, product_id, tag },
            failure,
            StepView::Request(ImportAction::FetchTagId { product, tag }),
        ),
        import_transition(import, ImportPhase::FetchingTagId { product, product_id, tag }, failure, DbEvent::Found(tag_id))
            == (
            ImportPhase::BindingTag { product, product_id, tag },
            failure,
            StepView::Request(ImportAction::BindTag { product_id, tag_id }),
        ),
{
}

/// Going through the tags of a product skips exactly the absent ones: the next
/// tag looked up is the first present one, and the tags are left only when no
/// present one remains.
pub proof fn lemma_no_present_tag_skipped(import: Importing, p: int, product_id: i32, t: int)
    requires
        0 <= p < import.products@.len(),
        0 <= t <= import.products@[p].tags@.len(),
        import.products@.len() <= usize::MAX,
        import.products@[p].tags@.len() <= usize::MAX,
    ensures
        match tags_from(import, p, product_id, t).1 {
            ImportAction::LookUpTag { product, tag } => {
                &&& product == p
                &&& t <= tag < import.products@[p].tags@.len()
                &&& import.products@[p].tags@[tag as int] is Some
                &&& forall|k: int| t <= k < tag ==> #[trigger] import.products@[p].tags@[k] is None
            },
            _ => forall|k: int| t <= k < import.products@[p].tags@.len() ==> #[trigger] import.products@[p].tags@[k] is None,
        },
{
    lemma_first_present_tag(import.products@[p].tags@, t);
}

} // verus!

verus! {

// ---------------------------------------------------------------------------
// What each request of the import asks

/// The tag requests work on the tags table with the tag's name: the lookup and
/// the read-back of a newly added tag's id run the same query, and adding a tag
/// inserts that name.
pub proof fn lemma_tag_requests(import: Importing, p: usize, t: usize)
    requires
        p < import.products@.len(),
        t < import.products@[p as int].tags@.len(),
        import.products@[p as int].tags@[t as int] is Some,
    ensures
        request_view(import, ImportAction::LookUpTag { product: p, tag: t }) == RequestView::FindId(
            StatementView {
                sql: "SELECT id FROM tags WHERE name = ?"@,
                params: seq![ParamView::Text((import.products@[p as int].tags@[t as int]->0)@)],
            },
        ),
        request_view(import, ImportAction::FetchTagId { product: p, tag: t }) == RequestView::FetchId(
            StatementView {
                sql: "SELECT id FROM tags WHERE name = ?"@,
                params: seq![ParamView::Text((import.products@[p as int].tags@[t as int]->0)@)],
            },
        ),
        request_view(import, ImportAction::InsertTag { product: p, tag: t }) == RequestView::Execute(
            StatementView {
                sql: "INSERT INTO tags VALUES(0,?)"@,
                params: seq![ParamView::Text((import.products@[p as int].tags@[t as int]->0)@)],
            },
        ),
{
}

/// The product requests: the insert binds the product's fields in column order,
/// its id is read back by its code, a tag is bound by the two ids, and the
/// product's properties and stock movements go in with the id that was read.
pub proof fn lemma_product_requests(import: Importing, p: usize, product_id: i32, tag_id: i32)
    requires
        p < import.products@.len(),
    ensures
        request_view(import, ImportAction::InsertProduct { product: p }) == RequestView::Execute(
            StatementView {
                sql: "INSERT INTO products VALUES(0,?,?,?,?,?)"@,
                params: seq![
                    ParamView::Text(import.products@[p as int].code@),
                    ParamView::Text(import.products@[p as int].name@),
                    ParamView::Text(import.products@[p as int].description@),
                    ParamView::Int(import.products@[p as int].stock),
                    ParamView::Text(import.products@[p as int].image_url@),
                ],
            },
        ),
        request_view(import, ImportAction::FetchProductId { product: p }) == RequestView::FetchId(
            StatementView {
                sql: "SELECT id FROM products WHERE code = ?"@,
                params: seq![ParamView::Text(import.products@[p as int].code@)],
            },
        ),
        request_view(import, ImportAction::BindTag { product_id, tag_id }) == RequestView::Execute(
            StatementView {
                sql: "INSERT INTO productsTotags VALUES(?,?)"@,
                params: seq![ParamView::Int(product_id), ParamView::Int(tag_id)],
            },
        ),
        import.products@[p as int].properties matches Some(ps) ==> request_view(
            import,
            ImportAction::InsertProperties { product: p, product_id },
        ) == RequestView::Execute(
            StatementView { sql: properties_insert_sql(product_id, ps@), params: Seq::empty() },
        ),
        import.products@[p as int].stock_var matches Some(vs) ==> request_view(
            import,
            ImportAction::InsertStockVars { product: p, product_id },
        ) == RequestView::Execute(
            StatementView { sql: stock_vars_insert_sql(product_id, vs@), params: Seq::empty() },
        ),
{
}

/// The transaction requests and the users insert.
pub proof fn lemma_transaction_requests(import: Importing)
    ensures
        request_view(import, ImportAction::Begin) == RequestView::Begin,
        request_view(import, ImportAction::Commit) == RequestView::Commit,
        request_view(import, ImportAction::Rollback) == RequestView::Rollback,
        request_view(import, ImportAction::InsertUsers) == RequestView::Execute(
            StatementView { sql: users_insert_sql(import.users@), params: Seq::empty() },
        ),
{
}

} // verus!

verus! {

// ---------------------------------------------------------------------------
// What the bulk inserts write

/// The users insert writes one row per user, in order, each
/// `(0,'username','pwd','rol',0)` of that user, separated by commas; with no
/// users it is the bare prefix.
pub proof fn lemma_users_insert_rows(users: Seq<ImportingUser>, u: ImportingUser)
    ensures
        users_insert_sql(Seq::empty()) == "INSERT INTO users VALUES "@,
        users_insert_sql(seq![u]) == "INSERT INTO users VALUES "@ + ("(0,'"@ + u.username@ + "','"@ + u.pwd@
            + "','"@ + u.rol@ + "',0)"@),
        users.len() > 0 ==> users_insert_sql(users.push(u)) == users_insert_sql(users) + seq![','] + ("(0,'"@
            + u.username@ + "','"@ + u.pwd@ + "','"@ + u.rol@ + "',0)"@),
{
    let f = |x: ImportingUser| user_row(x);
    assert(Seq::<ImportingUser>::empty().map_values(f) =~= Seq::<Seq<char>>::empty());
    assert(seq![u].map_values(f) =~= seq![user_row(u)]);
    if users.len() > 0 {
        let rows = users.push(u).map_values(f);
        assert(rows.drop_last() =~= users.map_values(f));
        assert(rows.last() == user_row(u));
        assert(rows.len() > 1);
    }
}

/// The properties insert of a product writes one row per property, in order,
/// each `(id,'property','value')` with the product's id in decimal.
pub proof fn lemma_properties_insert_rows(product_id: i32, ps: Seq<ImportingProperty>, p: ImportingProperty)
    ensures
        properties_insert_sql(product_id, Seq::empty()) == "INSERT INTO properties VALUES "@,
        properties_insert_sql(product_id, seq![p]) == "INSERT INTO properties VALUES "@ + ("("@ + decimal(
            product_id as int,
        ) + ",'"@ + p.property@ + "','"@ + p.value@ + "')"@),
        ps.len() > 0 ==> properties_insert_sql(product_id, ps.push(p)) == properties_insert_sql(product_id, ps)
            + seq![','] + ("("@ + decimal(product_id as int) + ",'"@ + p.property@ + "','"@ + p.value@ + "')"@),
{
    let f = |x: ImportingProperty| property_row(product_id, x);
    assert(Seq::<ImportingProperty>::empty().map_values(f) =~= Seq::<Seq<char>>::empty());
    assert(seq![p].map_values(f) =~= seq![property_row(product_id, p)]);
    if ps.len() > 0 {
        let rows = ps.push(p).map_values(f);
        assert(rows.drop_last() =~= ps.map_values(f));
        assert(rows.last() == property_row(product_id, p));
        assert(rows.len() > 1);
    }
}

/// The stock movements insert of a product writes one row per movement, in
/// order, each `(0,id,'date',quantity)` with the product's id and the quantity
/// in decimal.
pub proof fn lemma_stock_vars_insert_rows(product_id: i32, vs: Seq<ImportingStockVar>, v: ImportingStockVar)
    ensures
        stock_vars_insert_sql(product_id, Seq::empty()) == "INSERT INTO stockVar VALUES "@,
        stock_vars_insert_sql(product_id, seq![v]) == "INSERT INTO stockVar VALUES "@ + ("(0,"@ + decimal(
            product_id as int,
        ) + ",'"@ + v.var_date@ + "',"@ + decimal(v.quantity as int) + ")"@),
        vs.len() > 0 ==> stock_vars_insert_sql(product_id, vs.push(v)) == stock_vars_insert_sql(product_id, vs)
            + seq![','] + ("(0,"@ + decimal(product_id as int) + ",'"@ + v.var_date@ + "',"@ + decimal(
            v.quantity as int,
        ) + ")"@),
{
    let f = |x: ImportingStockVar| stock_var_row(product_id, x);
    assert(Seq::<ImportingStockVar>::empty().map_values(f) =~= Seq::<Seq<char>>::empty());
    assert(seq![v].map_values(f) =~= seq![stock_var_row(product_id, v)]);
    if vs.len() > 0 {
        let rows = vs.push(v).map_values(f);
        assert(rows.drop_last() =~= vs.map_values(f));
        assert(rows.last() == stock_var_row(product_id, v));
        assert(rows.len() > 1);
    }
}

} // verus!

verus! {

// ---------------------------------------------------------------------------
// The order of the import's requests, step by step

/// A begun transaction goes on with the users; after the users comes the first
/// product, or, with none, the commit; after a product's insert its id is read.
pub proof fn lemma_import_first_steps(import: Importing, failure: Option<(ErrorKind, Seq<char>)>, p: usize)
    ensures
        import_transition(import, ImportPhase::Beginning, failure, DbEvent::Done).2 == StepView::Request(
            ImportAction::InsertUsers,
        ),
        import_transition(import, ImportPhase::InsertingUsers, failure, DbEvent::Done).2 == (if import.products@.len()
            > 0 {
            StepView::Request(ImportAction::InsertProduct { product: 0 })
        } else {
            StepView::Request(ImportAction::Commit)
        }),
        import_transition(import, ImportPhase::InsertingProduct { product: p }, failure, DbEvent::Done).2
            == StepView::Request(ImportAction::FetchProductId { product: p }),
{
}

/// Once its id is read, a product's first present tag is looked up; with no
/// present tag, its properties go in if it has them, else its stock movements if
/// it has them, else the next product, or the commit after the last one.
pub proof fn lemma_after_product_id(
    import: Importing,
    failure: Option<(ErrorKind, Seq<char>)>,
    p: usize,
    product_id: i32,
)
    requires
        p < import.products@.len(),
        import.products@.len() <= usize::MAX,
        import.products@[p as int].tags@.len() <= usize::MAX,
    ensures
        ({
            let product = import.products@[p as int];
            let tags = product.tags@;
            let a = import_transition(import, ImportPhase::FetchingProductId { product: p }, failure, DbEvent::Found(product_id)).2;
            let looks_up = match a {
                StepView::Request(ImportAction::LookUpTag { .. }) => true,
                _ => false,
            };
            &&& a matches StepView::Request(ImportAction::LookUpTag { product: q, tag: t }) ==> q == p && t
                < tags.len() && tags[t as int] is Some && forall|k: int| 0 <= k < t ==> #[trigger] tags[k] is None
            &&& (exists|k: int| 0 <= k < tags.len() && #[trigger] tags[k] is Some) ==> looks_up
            &&& (forall|k: int| 0 <= k < tags.len() ==> #[trigger] tags[k] is None) ==> a == (if product.properties is Some {
                StepView::Request(ImportAction::InsertProperties { product: p, product_id })
            } else if product.stock_var is Some {
                StepView::Request(ImportAction::InsertStockVars { product: p, product_id })
            } else if p + 1 < import.products@.len() {
                StepView::Request(ImportAction::InsertProduct { product: (p + 1) as usize })
            } else {
                StepView::Request(ImportAction::Commit)
            })
        }),
{
    let tags = import.products@[p as int].tags@;
    lemma_first_present_tag(tags, 0);
}

/// Once a tag is bound, the product's next present tag is looked up; with none
/// left, its properties go in if it has them, else its stock movements if it has
/// them, else the next product, or the commit after the last one.
pub proof fn lemma_after_tag_bound(
    import: Importing,
    failure: Option<(ErrorKind, Seq<char>)>,
    p: usize,
    product_id: i32,
    t: usize,
)
    requires
        p < import.products@.len(),
        t < import.products@[p as int].tags@.len(),
        import.products@.len() <= usize::MAX,
        import.products@[p as int].tags@.len() <= usize::MAX,
    ensures
        ({
            let product = import.products@[p as int];
            let tags = product.tags@;
            let a = import_transition(import, ImportPhase::BindingTag { product: p, product_id, tag: t }, failure, DbEvent::Done).2;
            let looks_up = match a {
                StepView::Request(ImportAction::LookUpTag { .. }) => true,
                _ => false,
            };
            &&& a matches StepView::Request(ImportAction::LookUpTag { product: q, tag: u }) ==> q == p && t < u
                < tags.len() && tags[u as int] is Some && forall|k: int| t < k < u ==> #[trigger] tags[k] is None
            &&& (exists|k: int| t < k < tags.len() && #[trigger] tags[k] is Some) ==> looks_up
            &&& (forall|k: int| t < k < tags.len() ==> #[trigger] tags[k] is None) ==> a == (if product.properties is Some {
                StepView::Request(ImportAction::InsertProperties { product: p, product_id })
            } else if product.stock_var is Some {
                StepView::Request(ImportAction::InsertStockVars { product: p, product_id })
            } else if p + 1 < import.products@.len() {
                StepView::Request(ImportAction::InsertProduct { product: (p + 1) as usize })
            } else {
                StepView::Request(ImportAction::Commit)
            })
        }),
{
    let tags = import.products@[p as int].tags@;
    lemma_first_present_tag(tags, t + 1);
}

/// After a product's properties, its stock movements go in if it has them, with
/// the same id; else the next product, or the commit after the last one.
pub proof fn lemma_after_properties(
    import: Importing,
    failure: Option<(ErrorKind, Seq<char>)>,
    p: usize,
    product_id: i32,
)
    requires
        p < import.products@.len(),
        import.products@.len() <= usize::MAX,
    ensures
        import_transition(import, ImportPhase::InsertingProperties { product: p, product_id }, failure, DbEvent::Done).2
            == (if import.products@[p as int].stock_var is Some {
            StepView::Request(ImportAction::InsertStockVars { product: p, product_id })
        } else if p + 1 < import.products@.len() {
            StepView::Request(ImportAction::InsertProduct { product: (p + 1) as usize })
        } else {
            StepView::Request(ImportAction::Commit)
        }),
{
}

/// After a product's stock movements comes the next product, or the commit
/// after the last one.
pub proof fn lemma_after_stock_vars(
    import: Importing,
    failure: Option<(ErrorKind, Seq<char>)>,
    p: usize,
    product_id: i32,
)
    requires
        p < import.products@.len(),
        import.products@.len() <= usize::MAX,
    ensures
        import_transition(import, ImportPhase::InsertingStockVars { product: p, product_id }, failure, DbEvent::Done).2
            == (if p + 1 < import.products@.len() {
            StepView::Request(ImportAction::InsertProduct { product: (p + 1) as usize })
        } else {
            StepView::Request(ImportAction::Commit)
        }),
{
}

/// The import leaves a product (for the next product or the commit) only after
/// its stock movements when it has them, and only after its properties or stock
/// movements when it has properties; its stock movements come only after its
/// properties when it has them.
pub proof fn lemma_product_finished_in_full(
    import: Importing,
    phase: ImportPhase,
    failure: Option<(ErrorKind, Seq<char>)>,
    ev: DbEvent,
    p: int,
)
    requires
        phase_fits(import, phase),
        expects(phase, ev),
        phase_product(phase) == Some(p),
    ensures
        ({
            let a = import_transition(import, phase, failure, ev).2;
            let product = import.products@[p];
            let leaves = match a {
                StepView::Request(ImportAction::InsertProduct { .. }) => true,
                StepView::Request(ImportAction::Commit) => true,
                _ => false,
            };
            &&& leaves && product.stock_var is Some ==> phase is InsertingStockVars
            &&& leaves && product.properties is Some ==> phase is InsertingProperties || phase is InsertingStockVars
            &&& product.properties is Some ==> match a {
                StepView::Request(ImportAction::InsertStockVars { product: q, .. }) => q == p && phase is InsertingProperties,
                _ => true,
            }
        }),
{
}

} // verus!
