//! The map viewer page of a table.
use crate::store::opt_view;
use crate::store::tables::{table_ref_text, TableRef};
use vstd::prelude::*;

verus! {

/// The tile URL pattern of a table for the map viewer,
/// `/tables/{schema.table}/tiles/{z}/{x}/{y}.pbf`, followed by `?` and the
/// query of the page's own request where it has one.
pub open spec fn viewer_tile_url_text(table: Seq<char>, query: Option<Seq<char>>) -> Seq<char> {
    let base = "/tables/"@ + table + "/tiles/{z}/{x}/{y}.pbf"@;
    match query {
        Some(q) => base + "?"@ + q,
        None => base,
    }
}

/// Builds the tile URL pattern that the map viewer loads tiles from.
pub fn viewer_tile_url(table_ref: &TableRef, query: Option<&str>) -> (r: String)
    ensures
        r@ == viewer_tile_url_text(
            table_ref_text(table_ref.schema_name@, table_ref.table_name@),
            opt_view(query),
        ),
{
    let name = table_ref.to_string();
    let mut url = String::from_str("/tables/");
    url.append(name.as_str());
    url.append("/tiles/{z}/{x}/{y}.pbf");
    match query {
        Some(q) => {
            url.append("?");
            url.append(q);
        },
        None => {},
    }
    url
}

} // verus!
