use tfg_backend::database::migration::{
    export_products_statement, export_users_statement, ExportingDTO, ExportingUserDTO, properties_insert_text, request, stock_vars_insert_text, users_insert_text, DbEvent, DbRequest, ImportAction,
    ImportMachine, ImportPhase, ImportStep, Importing, ImportingProduct, ImportingProperty, ImportingStockVar,
    ImportingUser,
};
use tfg_backend::database::statement::SqlParam;
use tfg_backend::database::{DbError, MyError};

fn user(name: &str) -> ImportingUser {
    ImportingUser { username: name.to_string(), pwd: format!("{}-hash", name), rol: "guest".to_string() }
}

fn product(code: &str, tags: Vec<Option<&str>>, props: bool, stock: bool) -> ImportingProduct {
    ImportingProduct {
        code: code.to_string(),
        name: format!("{} name", code),
        description: "d".to_string(),
        stock: 3,
        image_url: "i".to_string(),
        tags: tags.into_iter().map(|t| t.map(|s| s.to_string())).collect(),
        properties: if props {
            Some(vec![ImportingProperty { property: "color".to_string(), value: "red".to_string() }])
        } else {
            None
        },
        stock_var: if stock {
            Some(vec![ImportingStockVar { var_date: "2024-01-02".to_string(), quantity: 10 }])
        } else {
            None
        },
    }
}

fn sample() -> Importing {
    Importing {
        token: "t".to_string(),
        users: vec![user("ana"), user("bob")],
        products: vec![
            product("P1", vec![Some("red"), None, Some("big")], true, false),
            product("P2", vec![], false, true),
        ],
    }
}

fn expect_request(step: ImportStep) -> ImportAction {
    match step {
        ImportStep::Request(a) => a,
        other => panic!("expected a request, got {:?}", other),
    }
}

#[test]
fn users_insert_puts_every_user_in_one_statement() {
    assert_eq!(
        users_insert_text(&vec![user("ana"), user("bob")]),
        "INSERT INTO users VALUES (0,'ana','ana-hash','guest',0),(0,'bob','bob-hash','guest',0)"
    );
    assert_eq!(users_insert_text(&Vec::new()), "INSERT INTO users VALUES ");
}

#[test]
fn properties_and_stock_inserts_carry_the_product_id() {
    let props = vec![
        ImportingProperty { property: "color".to_string(), value: "red".to_string() },
        ImportingProperty { property: "size".to_string(), value: "L".to_string() },
    ];
    assert_eq!(properties_insert_text(5, &props), "INSERT INTO properties VALUES (5,'color','red'),(5,'size','L')");
    let vars = vec![
        ImportingStockVar { var_date: "2024-01-02".to_string(), quantity: 10 },
        ImportingStockVar { var_date: "2024-02-03".to_string(), quantity: -4 },
    ];
    assert_eq!(
        stock_vars_insert_text(-3, &vars),
        "INSERT INTO stockVar VALUES (0,-3,'2024-01-02',10),(0,-3,'2024-02-03',-4)"
    );
}

#[test]
fn a_successful_import_runs_every_statement_in_order_and_commits() {
    let import = sample();
    let (mut m, first) = ImportMachine::start();
    assert_eq!(first, ImportAction::Begin);
    let mut seen = vec![first];
    let answers = vec![
        DbEvent::Done,          // begin
        DbEvent::Done,          // users
        DbEvent::Done,          // product P1
        DbEvent::Found(41),     // its id
        DbEvent::Found(7),      // tag "red" exists
        DbEvent::Done,          // bound
        DbEvent::NotFound,      // tag "big" does not
        DbEvent::Done,          // added
        DbEvent::Found(8),      // its id
        DbEvent::Done,          // bound
        DbEvent::Done,          // properties
        DbEvent::Done,          // product P2
        DbEvent::Found(42),     // its id
        DbEvent::Done,          // stock movements
    ];
    for ev in answers {
        assert!(m.expects(&ev));
        seen.push(expect_request(m.step(&import, ev)));
    }
    assert_eq!(
        seen,
        vec![
            ImportAction::Begin,
            ImportAction::InsertUsers,
            ImportAction::InsertProduct { product: 0 },
            ImportAction::FetchProductId { product: 0 },
            ImportAction::LookUpTag { product: 0, tag: 0 },
            ImportAction::BindTag { product_id: 41, tag_id: 7 },
            ImportAction::LookUpTag { product: 0, tag: 2 },
            ImportAction::InsertTag { product: 0, tag: 2 },
            ImportAction::FetchTagId { product: 0, tag: 2 },
            ImportAction::BindTag { product_id: 41, tag_id: 8 },
            ImportAction::InsertProperties { product: 0, product_id: 41 },
            ImportAction::InsertProduct { product: 1 },
            ImportAction::FetchProductId { product: 1 },
            ImportAction::InsertStockVars { product: 1, product_id: 42 },
            ImportAction::Commit,
        ]
    );
    assert_eq!(m.step(&import, DbEvent::Done), ImportStep::Finished(Ok(())));
    assert_eq!(m.phase, ImportPhase::Finished);
    assert!(!m.expects(&DbEvent::Done));
}

#[test]
fn an_empty_import_still_inserts_users_then_commits() {
    let import = Importing { token: "t".to_string(), users: vec![], products: vec![] };
    let (mut m, _) = ImportMachine::start();
    assert_eq!(m.step(&import, DbEvent::Done), ImportStep::Request(ImportAction::InsertUsers));
    assert_eq!(m.step(&import, DbEvent::Done), ImportStep::Request(ImportAction::Commit));
    assert_eq!(m.step(&import, DbEvent::Done), ImportStep::Finished(Ok(())));
}

#[test]
fn a_failed_statement_rolls_back_and_answers_with_its_failure() {
    let import = sample();
    let (mut m, _) = ImportMachine::start();
    m.step(&import, DbEvent::Done);
    m.step(&import, DbEvent::Done);
    let rollback = m.step(&import, DbEvent::Failed(DbError::Database("duplicate code".to_string())));
    assert_eq!(rollback, ImportStep::Request(ImportAction::Rollback));
    assert_eq!(m.phase, ImportPhase::RollingBack);
    assert_eq!(
        m.step(&import, DbEvent::Done),
        ImportStep::Finished(Err(MyError::ConstraintError("duplicate code".to_string())))
    );
    assert_eq!(m.failure, None);
}

#[test]
fn a_failed_rollback_answers_with_its_own_failure() {
    let import = sample();
    let (mut m, _) = ImportMachine::start();
    m.step(&import, DbEvent::Done);
    m.step(&import, DbEvent::Failed(DbError::Other));
    assert_eq!(
        m.step(&import, DbEvent::Failed(DbError::Database("lost".to_string()))),
        ImportStep::Finished(Err(MyError::ConstraintError("lost".to_string())))
    );
}

#[test]
fn a_missing_product_id_rolls_back_with_an_internal_error() {
    let import = sample();
    let (mut m, _) = ImportMachine::start();
    m.step(&import, DbEvent::Done);
    m.step(&import, DbEvent::Done);
    m.step(&import, DbEvent::Done);
    assert!(!m.expects(&DbEvent::NotFound));
    assert_eq!(m.step(&import, DbEvent::Failed(DbError::Other)), ImportStep::Request(ImportAction::Rollback));
    assert_eq!(
        m.step(&import, DbEvent::Done),
        ImportStep::Finished(Err(MyError::InternalError("Internal error".to_string())))
    );
}

#[test]
fn failing_to_begin_or_commit_ends_without_rollback() {
    let import = Importing { token: "t".to_string(), users: vec![], products: vec![] };
    let (mut m, _) = ImportMachine::start();
    assert_eq!(
        m.step(&import, DbEvent::Failed(DbError::Other)),
        ImportStep::Finished(Err(MyError::InternalError("Internal error".to_string())))
    );
    let (mut m, _) = ImportMachine::start();
    m.step(&import, DbEvent::Done);
    m.step(&import, DbEvent::Done);
    assert_eq!(
        m.step(&import, DbEvent::Failed(DbError::Database("deadlock".to_string()))),
        ImportStep::Finished(Err(MyError::ConstraintError("deadlock".to_string())))
    );
}

#[test]
fn requests_carry_the_statements_of_the_import() {
    let import = sample();
    assert_eq!(request(&import, &ImportAction::Begin), DbRequest::Begin);
    assert_eq!(request(&import, &ImportAction::Commit), DbRequest::Commit);
    assert_eq!(request(&import, &ImportAction::Rollback), DbRequest::Rollback);
    match request(&import, &ImportAction::InsertUsers) {
        DbRequest::Execute(st) => {
            assert_eq!(st.sql, users_insert_text(&import.users));
            assert!(st.params.is_empty());
        },
        other => panic!("{:?}", other),
    }
    match request(&import, &ImportAction::InsertProduct { product: 0 }) {
        DbRequest::Execute(st) => {
            assert_eq!(st.sql, "INSERT INTO products VALUES(0,?,?,?,?,?)");
            assert_eq!(
                st.params,
                vec![
                    SqlParam::Text("P1".to_string()),
                    SqlParam::Text("P1 name".to_string()),
                    SqlParam::Text("d".to_string()),
                    SqlParam::Int(3),
                    SqlParam::Text("i".to_string()),
                ]
            );
        },
        other => panic!("{:?}", other),
    }
    match request(&import, &ImportAction::FetchProductId { product: 1 }) {
        DbRequest::FetchId(st) => {
            assert_eq!(st.sql, "SELECT id FROM products WHERE code = ?");
            assert_eq!(st.params, vec![SqlParam::Text("P2".to_string())]);
        },
        other => panic!("{:?}", other),
    }
    match request(&import, &ImportAction::LookUpTag { product: 0, tag: 2 }) {
        DbRequest::FindId(st) => {
            assert_eq!(st.sql, "SELECT id FROM tags WHERE name = ?");
            assert_eq!(st.params, vec![SqlParam::Text("big".to_string())]);
        },
        other => panic!("{:?}", other),
    }
    match request(&import, &ImportAction::InsertTag { product: 0, tag: 0 }) {
        DbRequest::Execute(st) => {
            assert_eq!(st.sql, "INSERT INTO tags VALUES(0,?)");
            assert_eq!(st.params, vec![SqlParam::Text("red".to_string())]);
        },
        other => panic!("{:?}", other),
    }
    match request(&import, &ImportAction::BindTag { product_id: 41, tag_id: 8 }) {
        DbRequest::Execute(st) => {
            assert_eq!(st.sql, "INSERT INTO productsTotags VALUES(?,?)");
            assert_eq!(st.params, vec![SqlParam::Int(41), SqlParam::Int(8)]);
        },
        other => panic!("{:?}", other),
    }
    match request(&import, &ImportAction::InsertProperties { product: 0, product_id: 41 }) {
        DbRequest::Execute(st) => assert_eq!(st.sql, "INSERT INTO properties VALUES (41,'color','red')"),
        other => panic!("{:?}", other),
    }
    match request(&import, &ImportAction::InsertStockVars { product: 1, product_id: 42 }) {
        DbRequest::Execute(st) => assert_eq!(st.sql, "INSERT INTO stockVar VALUES (0,42,'2024-01-02',10)"),
        other => panic!("{:?}", other),
    }
}

#[test]
fn export_reads_every_user_but_admin_and_every_product() {
    let st = export_users_statement();
    assert_eq!(st.sql, "SELECT username, pwd, rol FROM users WHERE username != 'admin'");
    assert!(st.params.is_empty());
    let st = export_products_statement();
    assert!(st.sql.contains("JSON_ARRAYAGG(t.name) AS tags"));
    assert!(st.sql.contains("GROUP BY p.id"));
    let users = vec![ExportingUserDTO { username: "ana".to_string(), pwd: "h".to_string(), rol: "guest".to_string() }];
    let export = ExportingDTO::new(users.clone(), vec![]);
    assert_eq!(export.users, users);
    assert!(export.products.is_empty());
}
