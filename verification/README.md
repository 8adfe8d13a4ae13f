# slintext

Table models over SQL query results, verified with Verus.

- `src/model.rs`: the `Model` trait (row count, reading a row, writing a row)
  and its implementation for `Vec`.
- `src/bijective.rs`: `BijectiveModel`, which shows another model through a
  forward function and writes edits back through a reverse function.
- `src/sqltmdl.rs`: query results shown as text tables
  (`standard_table_model_from`, `SqliteStandardTableModel`).
- `src/sqlmdl.rs`: a record model over the statements of one table
  (`SqlIdTable`, `SqliteModel`).
- `src/text.rs`: decimal notation of integers and UTF-8 decoding of stored text.
- `src/pet.rs`, `src/pets.rs`, `src/lifetimes.rs`: the pet shelter, the shop
  pets and the book inventory.
- `app/`: the programs around the library: the database connection, the pet
  store service, and the adapters that hand the models to slint.
