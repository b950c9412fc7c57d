//! mvts: serves Mapbox vector tiles from the geometry tables of a DuckDB
//! database. This crate holds the verified core: table references and
//! identifier quoting, the SQL that lists tables and renders tiles, the
//! parsing of DuckDB list strings and of tile requests, the server's
//! lifecycle, and the answers the HTTP API gives.
pub mod api;
pub mod server;
pub mod store;
pub mod text;
pub mod utils;
