//! Tile requests: the `y.ext` path segment, the zoom range and the answer.
use crate::api::errors::InvalidTableReference;
use crate::api::{cors_header_views, cors_headers, header_view, HttpStatus};
use crate::store::parse_table_ref_spec;
use crate::store::tables::{is_schema_qualified, table_ref_error_text, TableRef};
use crate::store::tiles::TileXYZ;
use crate::text::{
    chars_of, decimal, decimal_string, int_error_text, lemma_parse_decimal,
    parse_u32, parse_u32_spec, same_text,
};
use vstd::prelude::*;

verus! {

/// The index of the last `c` in `s`.
pub open spec fn last_index_of(s: Seq<char>, c: char) -> Option<int>
    decreases s.len(),
{
    if s.len() == 0 {
        None
    } else if s.last() == c {
        Some(s.len() - 1)
    } else {
        last_index_of(s.drop_last(), c)
    }
}

/// The tile formats that a request may ask for.
pub open spec fn is_tile_extension(ext: Seq<char>) -> bool {
    ext == "pbf"@ || ext == "mvt"@
}

/// The y coordinate of a `y.ext` path segment, or the message that refuses it:
/// the extension follows the last `.`, and y is a decimal `u32`.
pub open spec fn parse_y_spec(s: Seq<char>) -> Result<u32, Seq<char>> {
    match last_index_of(s, '.') {
        None => Err("Missing file extension. Expected .pbf or .mvt"@),
        Some(i) => {
            let ext = s.subrange(i + 1, s.len() as int);
            if !is_tile_extension(ext) {
                Err("Invalid file extension: ."@ + ext + ". Only .pbf and .mvt are allowed"@)
            } else {
                match parse_u32_spec(s.subrange(0, i)) {
                    Ok(y) => Ok(y),
                    Err(kind) => Err("Invalid y coordinate: "@ + int_error_text(kind)),
                }
            }
        },
    }
}

fn find_last(cs: &Vec<char>, c: char) -> (r: Option<usize>)
    ensures
        match r {
            Some(i) => last_index_of(cs@, c) == Some(i as int) && i < cs.len(),
            None => last_index_of(cs@, c) is None,
        },
{
    let mut j = cs.len();
    assert(cs@.take(j as int) =~= cs@);
    while j > 0
        invariant
            j <= cs.len(),
            last_index_of(cs@, c) == last_index_of(cs@.take(j as int), c),
        decreases j,
    {
        assert(cs@.take(j as int).drop_last() =~= cs@.take(j - 1));
        if cs[j - 1] == c {
            return Some(j - 1);
        }
        j = j - 1;
    }
    None
}

/// Parses the y coordinate and checks the extension of a segment like `123.pbf`.
/// Every refusal is a `400 Bad Request`: a missing extension, one other than
/// `.pbf` or `.mvt`, or a y that is not a decimal `u32`.
pub fn parse_y_with_extension(y_ext: &str) -> (r: Result<u32, (HttpStatus, String)>)
    ensures
        match r {
            Ok(y) => parse_y_spec(y_ext@) == Ok::<u32, Seq<char>>(y),
            Err((status, msg)) => status == HttpStatus::BadRequest && parse_y_spec(y_ext@)
                == Err::<u32, Seq<char>>(msg@),
        },
{
    let cs = chars_of(y_ext);
    let n = cs.len();
    match find_last(&cs, '.') {
        Some(dot_pos) => {
            let y_str = y_ext.substring_char(0, dot_pos);
            let ext = y_ext.substring_char(dot_pos + 1, n);
            if !same_text(ext, "pbf") && !same_text(ext, "mvt") {
                let mut error = String::from_str("Invalid file extension: .");
                error.append(ext);
                error.append(". Only .pbf and .mvt are allowed");
                return Err((HttpStatus::BadRequest, error));
            }
            match parse_u32(y_str) {
                Ok(y) => Ok(y),
                Err(kind) => {
                    let mut error = String::from_str("Invalid y coordinate: ");
                    error.append(kind.description());
                    Err((HttpStatus::BadRequest, error))
                },
            }
        },
        None => Err(
            (HttpStatus::BadRequest, String::from_str("Missing file extension. Expected .pbf or .mvt")),
        ),
    }
}

/// Every y, written in decimal and followed by `.pbf` or `.mvt`, parses back to itself.
pub proof fn law_parse_y_roundtrip(y: u32, ext: Seq<char>)
    requires
        ext == "pbf"@ || ext == "mvt"@,
    ensures
        parse_y_spec(decimal(y as nat) + seq!['.'] + ext) == Ok::<u32, Seq<char>>(y),
{
    reveal_strlit("pbf");
    reveal_strlit("mvt");
    let d = decimal(y as nat);
    let s = d + seq!['.'] + ext;
    assert(ext.len() == 3);
    assert(ext[0] != '.' && ext[1] != '.' && ext[2] != '.');
    assert(s.drop_last() =~= d + seq!['.'] + ext.take(2));
    assert(s.drop_last().drop_last() =~= d + seq!['.'] + ext.take(1));
    assert(s.drop_last().drop_last().drop_last() =~= d + seq!['.']);
    let s1 = s.drop_last();
    let s2 = s1.drop_last();
    let s3 = s2.drop_last();
    assert(s.last() == ext[2]);
    assert(s1.last() == ext[1]);
    assert(s2.last() == ext[0]);
    assert(s3.last() == '.');
    assert(last_index_of(s3, '.') == Some(d.len() as int));
    assert(last_index_of(s2, '.') == Some(d.len() as int));
    assert(last_index_of(s1, '.') == Some(d.len() as int));
    assert(last_index_of(s, '.') == Some(d.len() as int));
    assert(s.subrange(d.len() + 1 as int, s.len() as int) =~= ext);
    assert(s.subrange(0, d.len() as int) =~= d);
    lemma_parse_decimal(y as nat);
}

/// Zoom levels outside `min_zoom..=max_zoom` are answered `404 Not Found`.
pub open spec fn zoom_refusal(z: u32, min_zoom: u32, max_zoom: u32) -> Seq<char> {
    "Zoom level "@ + decimal(z as nat) + " not supported. Valid range: "@ + decimal(
        min_zoom as nat,
    ) + "-"@ + decimal(max_zoom as nat)
}

/// Checks a zoom level against the configured range.
pub fn check_zoom(z: u32, min_zoom: u32, max_zoom: u32) -> (r: Result<(), (HttpStatus, String)>)
    ensures
        r is Ok <==> min_zoom <= z <= max_zoom,
        r matches Err((status, msg)) ==> status == HttpStatus::NotFound && msg@ == zoom_refusal(
            z,
            min_zoom,
            max_zoom,
        ),
{
    if z < min_zoom || z > max_zoom {
        let mut msg = String::from_str("Zoom level ");
        let zs = decimal_string(z as u64);
        msg.append(zs.as_str());
        msg.append(" not supported. Valid range: ");
        let lo = decimal_string(min_zoom as u64);
        msg.append(lo.as_str());
        msg.append("-");
        let hi = decimal_string(max_zoom as u64);
        msg.append(hi.as_str());
        return Err((HttpStatus::NotFound, msg));
    }
    Ok(())
}

/// What a tile query gave, as the answer to send: the data with `200 OK` where
/// the tile has content, else `204 No Content` with an empty body.
pub fn tile_outcome(tile: Option<Vec<u8>>) -> (r: (HttpStatus, Vec<u8>))
    ensures
        match tile {
            Some(data) => if data.len() > 0 {
                r == (HttpStatus::Success, data)
            } else {
                r.0 == HttpStatus::NoContent && r.1.len() == 0
            },
            None => r.0 == HttpStatus::NoContent && r.1.len() == 0,
        },
{
    match tile {
        Some(data) => {
            if data.len() > 0 {
                (HttpStatus::Success, data)
            } else {
                (HttpStatus::NoContent, Vec::new())
            }
        },
        None => (HttpStatus::NoContent, Vec::new()),
    }
}

/// The headers of a tile answer: its content type, a cache lifetime of one
/// hour for a `200 OK` only, then the CORS headers.
pub open spec fn tile_header_views(status: HttpStatus) -> Seq<(Seq<char>, Seq<char>)> {
    let content_type = seq![("content-type"@, "application/vnd.mapbox-vector-tile"@)];
    let cache = if status == HttpStatus::Success {
        seq![("cache-control"@, "public, max-age=3600"@)]
    } else {
        Seq::<(Seq<char>, Seq<char>)>::empty()
    };
    content_type + cache + cors_header_views()
}

/// The headers to set on a tile answer with the given status.
pub fn tile_response_headers(status: HttpStatus) -> (r: Vec<(&'static str, &'static str)>)
    ensures
        r@.map_values(|h: (&'static str, &'static str)| header_view(h)) == tile_header_views(
            status,
        ),
{
    let mut r: Vec<(&'static str, &'static str)> = Vec::new();
    r.push(("content-type", "application/vnd.mapbox-vector-tile"));
    if status == HttpStatus::Success {
        r.push(("cache-control", "public, max-age=3600"));
    }
    let ghost before = r@;
    let mut cors = cors_headers();
    r.append(&mut cors);
    assert(r@.map_values(|h: (&'static str, &'static str)| header_view(h)) =~= tile_header_views(
        status,
    ));
    r
}

/// Checks a tile request in the order the API answers it: the zoom level
/// first, then the `y.ext` segment, then the table reference. A request that
/// passes all three names the table and the tile to render.
pub fn tile_request(
    table: &str,
    z: u32,
    x: u32,
    y_ext: &str,
    min_zoom: u32,
    max_zoom: u32,
) -> (r: Result<(TableRef, TileXYZ), (HttpStatus, String)>)
    ensures
        !(min_zoom <= z <= max_zoom) ==> (r matches Err((status, msg)) && status
            == HttpStatus::NotFound && msg@ == zoom_refusal(z, min_zoom, max_zoom)),
        min_zoom <= z <= max_zoom && parse_y_spec(y_ext@) is Err ==> (r matches Err((status, msg))
            && status == HttpStatus::BadRequest && parse_y_spec(y_ext@) == Err::<u32, Seq<char>>(
            msg@,
        )),
        min_zoom <= z <= max_zoom && parse_y_spec(y_ext@) is Ok && !is_schema_qualified(table@)
            ==> (r matches Err((status, msg)) && status == HttpStatus::BadRequest && msg@
            == table_ref_error_text(table@)),
        r is Ok <==> (min_zoom <= z <= max_zoom && parse_y_spec(y_ext@) is Ok
            && is_schema_qualified(table@)),
        r matches Ok((t, xyz)) ==> parse_table_ref_spec(table@) == Some((t.schema_name@, t.table_name@))
            && xyz.x == x && xyz.z == z && parse_y_spec(y_ext@) == Ok::<u32, Seq<char>>(xyz.y),
{
    match check_zoom(z, min_zoom, max_zoom) {
        Err(e) => {
            return Err(e);
        },
        Ok(()) => {},
    }
    let y = match parse_y_with_extension(y_ext) {
        Ok(y) => y,
        Err(e) => {
            return Err(e);
        },
    };
    let table_ref = match TableRef::from_str(table) {
        Ok(t) => t,
        Err(message) => {
            return Err(InvalidTableReference { message }.into_response());
        },
    };
    Ok((table_ref, TileXYZ::new(x, y, z)))
}

} // verus!
