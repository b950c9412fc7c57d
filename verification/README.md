# mvts

A DuckDB extension that serves Mapbox vector tiles over HTTP from the
geometry tables of the database it is loaded into.

- `src/` is the verified library (Verus): table references and identifier
  quoting, the SQL that lists geometry tables and renders one tile, the
  parsing of DuckDB list strings and of tile request segments, the server's
  lifecycle as a state machine, the HTTP statuses, messages and headers of
  the API, and the reading of the settings.
- `app/` is the extension around it: the DuckDB entry point and SQL
  functions, the server thread, the axum handlers, the database queries, the
  HTML templates, logging, and the conversion of map bounds to WGS84.
- `tests/` exercises the library.
