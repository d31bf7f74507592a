//! Tags and their binding to products.
use vstd::prelude::*;

use super::statement::{statement1, statement2, plain_statement, text_param, ParamView, SqlParam, Statement};

verus! {

/// A tag as listed.
#[derive(Debug, Clone, PartialEq, Eq)]
pub struct TagsDTO {
    pub name: String,
}

/// A tag with the number of products bound to it.
#[derive(Debug, Clone, PartialEq, Eq)]
pub struct PopularTag {
    pub tag_name: Option<String>,
    pub count: i64,
}

/// A request to add or delete a tag.
#[derive(Debug, Clone, PartialEq, Eq)]
pub struct ModifyTags {
    pub token: String,
    pub name: String,
}

/// A request to bind a tag to a product, or to unbind it.
#[derive(Debug, Clone, PartialEq, Eq)]
pub struct ModifyProductToTag {
    pub token: String,
    pub product_id: i32,
    pub name: String,
}

pub const QUERY_TAGS_SQL: &'static str = "SELECT name FROM tags";

pub const DELETE_TAG_SQL: &'static str = "DELETE FROM tags WHERE name = ?";

pub const ADD_TAG_SQL: &'static str = "INSERT INTO tags VALUES (0,?)";

pub const BIND_TAG_SQL: &'static str = "INSERT INTO productsTotags(productID,tagID) SELECT ?, id FROM tags WHERE name = ?";

pub const UNBIND_TAG_SQL: &'static str = "DELETE FROM productsTotags where productID = ? AND tagID IN (SELECT id FROM tags WHERE name = ?)";

/// Counts, for each tag in use, the products bound to it.
pub const POPULAR_TAGS_SQL: &'static str = "SELECT t.name AS tag_name, COUNT(pt.tagID) AS count
         FROM productsTotags pt
         LEFT JOIN tags t ON t.id  = pt.tagID 
         GROUP BY pt.tagID;";

/// The names of all tags, read into `TagsDTO` rows.
pub fn query_tags_statement() -> (r: Statement)
    ensures
        r@.sql == QUERY_TAGS_SQL@,
        r@.params == Seq::<ParamView>::empty(),
{
    plain_statement(String::from_str(QUERY_TAGS_SQL))
}

/// Deletes the tag with this name.
pub fn delete_tag_statement(tag: &ModifyTags) -> (r: Statement)
    ensures
        r@.sql == DELETE_TAG_SQL@,
        r@.params == seq![ParamView::Text(tag.name@)],
{
    statement1(DELETE_TAG_SQL, text_param(&tag.name))
}

/// Adds a tag with this name and a new id.
pub fn add_tag_statement(tag: &ModifyTags) -> (r: Statement)
    ensures
        r@.sql == ADD_TAG_SQL@,
        r@.params == seq![ParamView::Text(tag.name@)],
{
    statement1(ADD_TAG_SQL, text_param(&tag.name))
}

/// Binds every tag of this name to the product.
pub fn bind_tag_statement(tag: &ModifyProductToTag) -> (r: Statement)
    ensures
        r@.sql == BIND_TAG_SQL@,
        r@.params == seq![ParamView::Int(tag.product_id), ParamView::Text(tag.name@)],
{
    statement2(BIND_TAG_SQL, SqlParam::Int(tag.product_id), text_param(&tag.name))
}

/// Unbinds every tag of this name from the product.
pub fn unbind_tag_statement(tag: &ModifyProductToTag) -> (r: Statement)
    ensures
        r@.sql == UNBIND_TAG_SQL@,
        r@.params == seq![ParamView::Int(tag.product_id), ParamView::Text(tag.name@)],
{
    statement2(UNBIND_TAG_SQL, SqlParam::Int(tag.product_id), text_param(&tag.name))
}

/// The tags in use with their counts, read into `PopularTag` rows.
pub fn popular_tags_statement() -> (r: Statement)
    ensures
        r@.sql == POPULAR_TAGS_SQL@,
        r@.params == Seq::<ParamView>::empty(),
{
    plain_statement(String::from_str(POPULAR_TAGS_SQL))
}

} // verus!
