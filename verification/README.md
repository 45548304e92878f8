# pharma_lib

The back end of a pharmacy management desktop application: products and
their categories, stock held at locations, positions and employees, accounts
and sessions.

- `src/` is the verified library. It holds the rules of the application:
  which permissions each command asks of the caller's session, how passwords
  are hashed and checked, the filters of every list query (as plain data with
  a meaning), the records that creating or editing an entity writes, what a
  caller may see of the stock, and the steps of buying an order.
- `tests/` exercises the library on concrete values.
- `app/` is the program around it: the configuration file, the database
  queries with SeaORM, and the Tauri commands of the front end.
