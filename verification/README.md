# tfg_backend

The backend of a small inventory service: users with roles, products with tags,
properties and stock movements, stored in MySQL and served over HTTP.

- `src/` is the library, verified with Verus: the SQL statements the service
  sends (`database::{users, products, tags, stock, migration}`), the bulk import
  as a machine that says what to ask of the database next
  (`database::migration::ImportMachine`), how database and token failures become
  answers (`database::MyError`), password hashing and login tokens
  (`database::users`), and who may do what (`routes`).
- `app/` is the HTTP service around it: the routes, the connection pool, the
  running of statements, and the serde and row types.
- `tests/` runs the library on concrete values.

The service reads `DATABASE_URL` and `SECRET` from the environment (or `.env`).
A database for it can be started with

    docker run -p 3306:3306 -v $PWD/my_database:/var/lib/mysql -e MYSQL_ALLOW_EMPTY_PASSWORD=yes -e MYSQL_DATABASE=my_database --rm -d mariadb
