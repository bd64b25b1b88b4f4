# memtable-core

In-memory tables of rows and columns, verified with Verus.

- `src/lib.rs`: the `Table` trait (cells, counts, capacities) and the
  `TableOps` trait (inserting, pushing, removing and popping whole rows and
  columns, and walking rows, columns and cells), with the spec functions
  their contracts speak of and the laws that relate them.
- `src/impls/`: `DynamicTable` (sparse, grows in both directions),
  `FixedTable` (a fixed array), `FixedColumnTable` and `FixedColumnMemTable`
  (growing rows of fixed width) and `MemFixedRowTable` (a fixed number of
  growing rows).
- `src/iter.rs`: iterators over rows, columns and cells, by reference and by
  value.
- `src/list.rs`: the row and column containers `FixedList` and
  `DynamicList`.
- `src/utils/`: building arrays from functions or from sequences of items,
  and the `RefOrOwned` / `MutRefOrOwned` wrappers.
- `src/exts/`: the cells `Cell2` to `Cell26`, each holding a value of one of
  several types, for tables of mixed data; reading tables from CSV text and
  writing them as CSV text, with the `csv` crate doing the parsing; and the
  keys under which a table kept in a key-value store finds its cells.
- `app/`: serde glue (serialising table arrays, visitors that gather items
  and hand them to the verified builders), serde copies of `Position`
  and `Capacity`, and reading and writing CSV files.
- `tests/`: tests run against the compiled library.

Not part of this crate: tables persisted in a sled database, and serde
support for the table types themselves.
