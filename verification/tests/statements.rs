use tfg_backend::database::products::{
    add_product_statement, add_property_statement, delete_product_statement, delete_property_statement,
    modify_product_statement, query_products_statement, AddProduct, AddProperty, DeleteProperty, ModifyProduct,
    QUERY_PRODUCTS_SQL,
};
use tfg_backend::database::statement::SqlParam;
use tfg_backend::database::{DbError, MyError};
use tfg_backend::database::stock::{
    batch_after, batch_start, BatchStep, add_stocks_statements, change_stocks_statements, latest_stocks_statement, stock_from_code_statement,
    stock_history_statement, StockDate, StockVar,
};
use tfg_backend::database::tags::{
    add_tag_statement, bind_tag_statement, delete_tag_statement, popular_tags_statement, query_tags_statement,
    unbind_tag_statement, ModifyProductToTag, ModifyTags,
};

fn text(s: &str) -> SqlParam {
    SqlParam::Text(s.to_string())
}

#[test]
fn add_product_binds_its_fields_in_column_order() {
    let p = AddProduct {
        code: "C1".to_string(),
        name: "Chair".to_string(),
        description: "Wooden".to_string(),
        stock: 12,
        token: "t".to_string(),
        image_url: "img".to_string(),
    };
    let st = add_product_statement(&p);
    assert_eq!(st.sql, "INSERT INTO products VALUES(0,?,?,?,?,?)");
    assert_eq!(st.params, vec![text("C1"), text("Chair"), text("Wooden"), SqlParam::Int(12), text("img")]);
}

#[test]
fn modify_product_keeps_the_stock() {
    let p = ModifyProduct {
        token: "t".to_string(),
        id: 4,
        code: "C1".to_string(),
        name: "Chair".to_string(),
        description: "Oak".to_string(),
        image_url: "img".to_string(),
    };
    let st = modify_product_statement(&p);
    assert_eq!(st.sql, "UPDATE products SET code = ?, name = ?, description = ?, image_url = ? where id = ?");
    assert_eq!(st.params, vec![text("C1"), text("Chair"), text("Oak"), text("img"), SqlParam::Int(4)]);
}

#[test]
fn delete_product_and_properties() {
    let st = delete_product_statement(9);
    assert_eq!(st.sql, "DELETE FROM products where id = ?");
    assert_eq!(st.params, vec![SqlParam::Int(9)]);
    let st = add_property_statement(&AddProperty {
        token: "t".to_string(),
        id: 9,
        property_name: "color".to_string(),
        property_value: "red".to_string(),
    });
    assert_eq!(st.sql, "INSERT INTO properties VALUES(?,?,?)");
    assert_eq!(st.params, vec![SqlParam::Int(9), text("color"), text("red")]);
    let st = delete_property_statement(&DeleteProperty { token: "t".to_string(), id: 9, property_name: "color".to_string() });
    assert_eq!(st.sql, "DELETE FROM properties WHERE productid = ? and property = ?");
    assert_eq!(st.params, vec![SqlParam::Int(9), text("color")]);
}

#[test]
fn listing_queries_take_no_values() {
    let st = query_products_statement();
    assert_eq!(st.sql, QUERY_PRODUCTS_SQL);
    assert!(st.sql.contains("JSON_ARRAYAGG(IFNULL(t.name,'')) AS tags"));
    assert!(st.params.is_empty());
    assert_eq!(query_tags_statement().sql, "SELECT name FROM tags");
    assert!(popular_tags_statement().sql.starts_with("SELECT t.name AS tag_name, COUNT(pt.tagID) AS count"));
    assert!(latest_stocks_statement().sql.contains("LIMIT 15"));
}

#[test]
fn tag_statements() {
    let t = ModifyTags { token: "t".to_string(), name: "new".to_string() };
    assert_eq!(add_tag_statement(&t).sql, "INSERT INTO tags VALUES (0,?)");
    assert_eq!(add_tag_statement(&t).params, vec![text("new")]);
    assert_eq!(delete_tag_statement(&t).sql, "DELETE FROM tags WHERE name = ?");
    let b = ModifyProductToTag { token: "t".to_string(), product_id: 3, name: "new".to_string() };
    assert_eq!(
        bind_tag_statement(&b).sql,
        "INSERT INTO productsTotags(productID,tagID) SELECT ?, id FROM tags WHERE name = ?"
    );
    assert_eq!(bind_tag_statement(&b).params, vec![SqlParam::Int(3), text("new")]);
    assert_eq!(
        unbind_tag_statement(&b).sql,
        "DELETE FROM productsTotags where productID = ? AND tagID IN (SELECT id FROM tags WHERE name = ?)"
    );
}

#[test]
fn stock_batches_keep_the_order_and_date_every_insert_now() {
    let stocks = vec![StockVar { product_id: 1, quantity: 5 }, StockVar { product_id: 2, quantity: -3 }];
    let inserts = add_stocks_statements(&stocks);
    assert_eq!(inserts.len(), 2);
    assert_eq!(inserts[0].sql, "INSERT INTO stockVar VALUES (0,?,?,?)");
    assert_eq!(inserts[0].params, vec![SqlParam::Int(1), SqlParam::Now, SqlParam::Int(5)]);
    assert_eq!(inserts[1].params, vec![SqlParam::Int(2), SqlParam::Now, SqlParam::Int(-3)]);
    let changes = change_stocks_statements(&stocks);
    assert_eq!(changes[1].sql, "UPDATE products SET stock = stock + ? WHERE id = ?");
    assert_eq!(changes[1].params, vec![SqlParam::Int(-3), SqlParam::Int(2)]);
    assert!(add_stocks_statements(&Vec::new()).is_empty());
}

#[test]
fn stock_history_and_stock_by_code() {
    let st = stock_history_statement(8);
    assert!(st.sql.contains("WHERE productID = ?"));
    assert_eq!(st.params, vec![SqlParam::Int(8)]);
    let st = stock_from_code_statement("C1", 4);
    assert_eq!(
        st.sql,
        "INSERT INTO stockVar(productID, varDate ,quantity) VALUES((SELECT id FROM products WHERE code=?),? ,?)"
    );
    assert_eq!(st.params, vec![text("C1"), SqlParam::Now, SqlParam::Int(4)]);
}

#[test]
fn dates_are_listed_day_month_year() {
    assert_eq!(StockDate { year: 2024, month: 3, day: 7 }.text(), "07/03/2024");
    assert_eq!(StockDate { year: 2024, month: 2, day: 29 }.text(), "29/02/2024");
    assert_eq!(StockDate { year: 5, month: 12, day: 31 }.text(), "31/12/0005");
    assert_eq!(StockDate { year: -44, month: 3, day: 15 }.text(), "15/03/-0044");
}

#[test]
fn a_batch_runs_in_order_and_stops_at_the_first_failure() {
    assert_eq!(batch_start(0), BatchStep::Finished(Ok(())));
    assert_eq!(batch_start(3), BatchStep::Run(0));
    assert_eq!(batch_after(0, 3, Ok(())), BatchStep::Run(1));
    assert_eq!(batch_after(2, 3, Ok(())), BatchStep::Finished(Ok(())));
    assert_eq!(
        batch_after(1, 3, Err(DbError::Database("no such product".to_string()))),
        BatchStep::Finished(Err(MyError::ConstraintError("no such product".to_string())))
    );
    assert_eq!(
        batch_after(0, 3, Err(DbError::Other)),
        BatchStep::Finished(Err(MyError::InternalError("Internal error".to_string())))
    );
}
