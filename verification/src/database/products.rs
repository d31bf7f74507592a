//! Products and their properties.
use vstd::prelude::*;

use super::statement::{statement1, statement2, statement3, statement5, plain_statement, text_param, ParamView, SqlParam, Statement};

verus! {

/// A request to add a product.
#[derive(Debug, Clone, PartialEq, Eq)]
pub struct AddProduct {
    pub code: String,
    pub name: String,
    pub description: String,
    pub stock: i32,
    pub token: String,
    pub image_url: String,
}

/// A request to delete a product.
#[derive(Debug, Clone, PartialEq, Eq)]
pub struct DeleteProduct {
    pub token: String,
    pub id: i32,
}

/// A request to change a product's descriptive fields.
#[derive(Debug, Clone, PartialEq, Eq)]
pub struct ModifyProduct {
    pub token: String,
    pub id: i32,
    pub code: String,
    pub name: String,
    pub description: String,
    pub image_url: String,
}

/// A request to give a product a property.
#[derive(Debug, Clone, PartialEq, Eq)]
pub struct AddProperty {
    pub token: String,
    pub id: i32,
    pub property_name: String,
    pub property_value: String,
}

/// A request to take a property from a product.
#[derive(Debug, Clone, PartialEq, Eq)]
pub struct DeleteProperty {
    pub token: String,
    pub id: i32,
    pub property_name: String,
}

/// A product as listed: its tags, property names and property values come as
/// JSON arrays in text.
#[derive(Debug, Clone, PartialEq, Eq)]
pub struct ProductDTO {
    pub id: i32,
    pub code: String,
    pub name: String,
    pub description: Option<String>,
    pub stock: Option<i32>,
    pub tags: Option<String>,
    pub image_url: Option<String>,
    pub property_names: Option<String>,
    pub property_values: Option<String>,
}

/// Lists every product with its tags and properties, one row per product.
pub const QUERY_PRODUCTS_SQL: &'static str = "
        SELECT p.id, 
            p.code,
            p.name,
            p.description,
            p.stock,
            p.image_url,
            JSON_ARRAYAGG(IFNULL(t.name,'')) AS tags,
            pp.property_names,
            pp.property_values
            FROM 
                products p
            LEFT JOIN 
                productsTotags pt ON p.id = pt.productID
            LEFT JOIN 
                tags t ON pt.tagID = t.id
            LEFT JOIN (
                SELECT ProductID, JSON_ARRAYAGG(IFNULL(property,'')) AS property_names, JSON_ARRAYAGG(IFNULL(value,'')) AS property_values
                FROM properties
                GROUP BY ProductID
                ) pp ON pp.ProductID = p.id 
            GROUP BY
                p.id;";

pub const ADD_PRODUCT_SQL: &'static str = "INSERT INTO products VALUES(0,?,?,?,?,?)";

pub const DELETE_PRODUCT_SQL: &'static str = "DELETE FROM products where id = ?";

pub const MODIFY_PRODUCT_SQL: &'static str = "UPDATE products SET code = ?, name = ?, description = ?, image_url = ? where id = ?";

pub const ADD_PROPERTY_SQL: &'static str = "INSERT INTO properties VALUES(?,?,?)";

pub const DELETE_PROPERTY_SQL: &'static str = "DELETE FROM properties WHERE productid = ? and property = ?";

/// The listing of all products, read into `ProductDTO` rows.
pub fn query_products_statement() -> (r: Statement)
    ensures
        r@.sql == QUERY_PRODUCTS_SQL@,
        r@.params == Seq::<ParamView>::empty(),
{
    plain_statement(String::from_str(QUERY_PRODUCTS_SQL))
}

/// Inserts the product with a new id.
pub fn add_product_statement(product: &AddProduct) -> (r: Statement)
    ensures
        r@.sql == ADD_PRODUCT_SQL@,
        r@.params == seq![
            ParamView::Text(product.code@),
            ParamView::Text(product.name@),
            ParamView::Text(product.description@),
            ParamView::Int(product.stock),
            ParamView::Text(product.image_url@),
        ],
{
    statement5(
        ADD_PRODUCT_SQL,
        text_param(&product.code),
        text_param(&product.name),
        text_param(&product.description),
        SqlParam::Int(product.stock),
        text_param(&product.image_url),
    )
}

/// Deletes the product with this id.
pub fn delete_product_statement(id: i32) -> (r: Statement)
    ensures
        r@.sql == DELETE_PRODUCT_SQL@,
        r@.params == seq![ParamView::Int(id)],
{
    statement1(DELETE_PRODUCT_SQL, SqlParam::Int(id))
}

/// Overwrites code, name, description and image of the product with this id;
/// the stock is left as it is.
pub fn modify_product_statement(product: &ModifyProduct) -> (r: Statement)
    ensures
        r@.sql == MODIFY_PRODUCT_SQL@,
        r@.params == seq![
            ParamView::Text(product.code@),
            ParamView::Text(product.name@),
            ParamView::Text(product.description@),
            ParamView::Text(product.image_url@),
            ParamView::Int(product.id),
        ],
{
    statement5(
        MODIFY_PRODUCT_SQL,
        text_param(&product.code),
        text_param(&product.name),
        text_param(&product.description),
        text_param(&product.image_url),
        SqlParam::Int(product.id),
    )
}

/// Gives the product a property with a value.
pub fn add_property_statement(property: &AddProperty) -> (r: Statement)
    ensures
        r@.sql == ADD_PROPERTY_SQL@,
        r@.params == seq![
            ParamView::Int(property.id),
            ParamView::Text(property.property_name@),
            ParamView::Text(property.property_value@),
        ],
{
    statement3(
        ADD_PROPERTY_SQL,
        SqlParam::Int(property.id),
        text_param(&property.property_name),
        text_param(&property.property_value),
    )
}

/// Takes every property of that name from the product.
pub fn delete_property_statement(property: &DeleteProperty) -> (r: Statement)
    ensures
        r@.sql == DELETE_PROPERTY_SQL@,
        r@.params == seq![ParamView::Int(property.id), ParamView::Text(property.property_name@)],
{
    statement2(DELETE_PROPERTY_SQL, SqlParam::Int(property.id), text_param(&property.property_name))
}

} // verus!
