//! Tile-related data: tile coordinates and the SQL that renders one tile.
use crate::store::errors::StoreError;
use crate::store::tables::{table_ref_quoted_text, TableRef};
use crate::store::{
    column_pair_view, format_select_columns, format_struct_fields, opt_view, quote_identifier,
    quote_literal, quoted, select_column, select_columns, sql_literal, struct_fields,
};
use crate::text::{
    concat_all, contains_text, decimal, ends_with_text, join, decimal_string, lemma_concat_all_contains,
    lemma_concat_all_split, lemma_join_contains, same_text,
    starts_with_text,
};
use vstd::prelude::*;

verus! {

/// Tile coordinates (z, x, y) of an MVT tile.
#[derive(Debug, Clone, Copy)]
pub struct TileXYZ {
    pub x: u32,
    pub y: u32,
    pub z: u32,
}

impl TileXYZ {
    pub fn new(x: u32, y: u32, z: u32) -> (r: Self)
        ensures
            r.x == x,
            r.y == y,
            r.z == z,
    {
        TileXYZ { x, y, z }
    }
}

/// The first geometry column of a table; its parameters are the schema and the table.
pub const GEOMETRY_COLUMN_SQL: &'static str = "\n        SELECT column_name\n        FROM duckdb_columns()\n        WHERE schema_name = ?\n           AND table_name = ?\n           AND upper(data_type) LIKE '%GEOMETRY%'\n        ORDER BY column_index\n        LIMIT 1";

/// The property columns of a table with their types, in column order; its
/// parameters are the schema and the table.
pub const PROPERTY_COLUMNS_SQL: &'static str = "\n        SELECT column_name, data_type\n        FROM duckdb_columns()\n        WHERE schema_name = ?\n           AND table_name = ?\n           AND upper(data_type) NOT LIKE '%GEOMETRY%'\n        ORDER BY column_index";

/// The geometry column that the column query found, or `NoGeometryColumn`
/// naming the table where it found none.
pub fn geometry_column_or_error(first: Option<String>, table_ref: &TableRef) -> (r: Result<
    String,
    StoreError,
>)
    ensures
        first is None ==> (r matches Err(StoreError::NoGeometryColumn { table_name })
            && table_name@ == table_ref.table_name@),
        first is Some ==> r == Ok::<String, StoreError>(first->0),
{
    match first {
        Some(c) => Ok(c),
        None => Err(StoreError::NoGeometryColumn { table_name: table_ref.table_name.clone() }),
    }
}

/// The query for the reference system of a geometry column, given the quoted
/// column `g` and the quoted table `t`.
pub open spec fn crs_sql(g: Seq<char>, t: Seq<char>) -> Seq<char> {
    "\n        SELECT "@
    + "ST_CRS("@
    + g
    + ")"@
    + "\n        "@
    + "FROM "@
    + t
    + "\n        WHERE "@
    + g
    + " IS NOT NULL"@
    + "\n          AND ST_IsEmpty("@
    + g
    + ") = FALSE\n        LIMIT 1\n        "@
}

/// Builds the query for the reference system of the first non-empty geometry of a column.
pub fn build_crs_sql(table_ref: &TableRef, geometry_column: &str) -> (r: String)
    ensures
        r@ == crs_sql(
            quoted(geometry_column@),
            table_ref_quoted_text(table_ref.schema_name@, table_ref.table_name@),
        ),
{
    let quoted_table = table_ref.to_quoted_string();
    let quoted_geom = quote_identifier(geometry_column);
    let mut sql = String::from_str("\n        SELECT ");
    sql.append("ST_CRS(");
    sql.append(quoted_geom.as_str());
    sql.append(")");
    sql.append("\n        ");
    sql.append("FROM ");
    sql.append(quoted_table.as_str());
    sql.append("\n        WHERE ");
    sql.append(quoted_geom.as_str());
    sql.append(" IS NOT NULL");
    sql.append("\n          AND ST_IsEmpty(");
    sql.append(quoted_geom.as_str());
    sql.append(") = FALSE\n        LIMIT 1\n        ");
    sql
}

/// The reference system of tiles, Web Mercator.
pub const WEB_MERCATOR_CRS: &'static str = "EPSG:3857";

/// The geometry expression `source` brought into Web Mercator: unchanged
/// where the column has no reference system or is in Web Mercator already,
/// else transformed from its reference system.
pub open spec fn webmercator_expr(source: Seq<char>, crs: Option<Seq<char>>) -> Seq<char> {
    match crs {
        None => source,
        Some(c) => if c == WEB_MERCATOR_CRS@ {
            source
        } else {
            "ST_Transform("@ + source + ", "@ + sql_literal(c) + ", 'EPSG:3857', always_xy := true)"@
        },
    }
}

/// Builds the expression that brings the geometry `source_expr`, whose
/// column has the reference system `crs`, into Web Mercator.
pub fn webmercator_geometry_expr(source_expr: &str, crs: Option<&str>) -> (r: String)
    ensures
        r@ == webmercator_expr(source_expr@, opt_view(crs)),
{
    match crs {
        None => String::from_str(source_expr),
        Some(c) => {
            if same_text(c, WEB_MERCATOR_CRS) {
                String::from_str(source_expr)
            } else {
                let literal = quote_literal(c);
                let mut r = String::from_str("ST_Transform(");
                r.append(source_expr);
                r.append(", ");
                r.append(literal.as_str());
                r.append(", 'EPSG:3857', always_xy := true)");
                r
            }
        },
    }
}

/// `true` or `false`, as `bool` displays.
pub open spec fn bool_text(b: bool) -> Seq<char> {
    if b {
        "true"@
    } else {
        "false"@
    }
}

fn bool_str(b: bool) -> (s: &'static str)
    ensures
        s@ == bool_text(b),
{
    if b {
        "true"
    } else {
        "false"
    }
}

/// The geometry of a row clipped and scaled into the tile's 4096 extent, with
/// a buffer of 256; `clip` says whether geometries are cut at the buffer.
pub open spec fn mvt_geometry_expr(webmercator: Seq<char>, clip: bool) -> Seq<char> {
    "ST_AsMVTGeom(ST_MakeValid("@ + webmercator + "), bounds_box, 4096, 256, "@ + bool_text(clip)
        + ")"@
}

/// The property columns as `t."col" AS "col"` entries ending in `,\n`, or
/// nothing where there are none; each name is quoted.
pub open spec fn property_select_prefix(names: Seq<Seq<char>>) -> Seq<char> {
    if names.len() == 0 {
        Seq::<char>::empty()
    } else {
        select_columns(names.map_values(|n: Seq<char>| quoted(n)), Some(seq!['t']), ",\n"@)
            + ",\n"@
    }
}

/// The tile query around its parts.
pub open spec fn tile_sql(
    select_prefix: Seq<char>,
    geom_expr: Seq<char>,
    qualified_table: Seq<char>,
    webmercator_expr: Seq<char>,
    max_features: Seq<char>,
    fields: Seq<char>,
) -> Seq<char> {
    "\n        WITH params AS (\n            SELECT ?::INTEGER AS z, ?::INTEGER AS x, ?::INTEGER AS y"@
    + "\n        ),\n        tile_raw AS (\n            SELECT \n                "@
    + "ST_TileEnvelope(z, x, y) AS bounds"@
    + ",\n                ST_Extent(ST_TileEnvelope(z, x, y)) AS bounds_box\n            FROM params\n        ),\n        tile AS (\n            SELECT bounds, bounds_box\n            FROM tile_raw\n            WHERE bounds_box IS NOT NULL\n              AND ST_XMax(bounds_box) > ST_XMin(bounds_box)\n              AND ST_YMax(bounds_box) > ST_YMin(bounds_box)\n        ),\n        geom_rows AS (\n            SELECT "@
    + select_prefix
    + geom_expr
    + " AS geom"@
    + ",\n                tile.bounds_box AS bounds_box\n            "@
    + "FROM "@
    + qualified_table
    + " AS t, tile"@
    + "\n            WHERE "@
    + "ST_Intersects("@
    + webmercator_expr
    + ", tile.bounds)"@
    + "\n            "@
    + "LIMIT "@
    + max_features
    + "\n        ),"@
    + "\n        mvt AS (\n            SELECT ST_AsMVT(\n                "@
    + "STRUCT_PACK("@
    + fields
    + "),"@
    + "\n                "@
    + "'default',\n                4096,\n                'geom'"@
    + "\n            ) AS tile\n            FROM geom_rows\n            "@
    + "WHERE geom IS NOT NULL\n              AND NOT ST_IsEmpty(geom)\n              AND (ST_Dimension(geom) <> 1 OR ST_NPoints(geom) >= 2)"@
    + "\n        )\n        "@
    + "SELECT tile FROM mvt LIMIT 1"@
    + "\n        "@
}

/// The query that renders one tile of a table as MVT: its parameters are
/// z, x and y; it reads at most `max_features` rows that meet the tile.
pub open spec fn query_tile_sql(
    table: TableRef,
    geometry_column: Seq<char>,
    crs: Option<Seq<char>>,
    props: Seq<(Seq<char>, Seq<char>)>,
    clip: bool,
    max_features: u32,
) -> Seq<char> {
    let webmercator = webmercator_expr(seq!['t', '.'] + quoted(geometry_column), crs);
    tile_sql(
        property_select_prefix(props.map_values(|p: (Seq<char>, Seq<char>)| p.0)),
        mvt_geometry_expr(webmercator, clip),
        table_ref_quoted_text(table.schema_name@, table.table_name@),
        webmercator,
        decimal(max_features as nat),
        struct_fields(props, "geom"@),
    )
}

/// Builds the query that renders one tile of a table, from the table's first
/// geometry column, that column's reference system, its property columns
/// with their types, and the clipping and feature-limit settings.
pub fn build_tile_sql(
    table_ref: &TableRef,
    geometry_column: &str,
    geometry_crs: Option<&str>,
    property_columns: &[(String, String)],
    clip_geometries: bool,
    max_features: u32,
) -> (r: String)
    ensures
        r@ == query_tile_sql(
            *table_ref,
            geometry_column@,
            opt_view(geometry_crs),
            property_columns@.map_values(|p: (String, String)| column_pair_view(p)),
            clip_geometries,
            max_features,
        ),
{
    let ghost props = property_columns@.map_values(|p: (String, String)| column_pair_view(p));
    let mut names: Vec<String> = Vec::new();
    let mut i: usize = 0;
    while i < property_columns.len()
        invariant
            0 <= i <= property_columns.len(),
            props == property_columns@.map_values(|p: (String, String)| column_pair_view(p)),
            names.len() == i,
            forall|k: int| 0 <= k < i ==> (#[trigger] names@[k])@ == quoted(props[k].0),
        decreases property_columns.len() - i,
    {
        names.push(quote_identifier(property_columns[i].0.as_str()));
        i = i + 1;
    }
    let ghost name_views = props.map_values(|p: (Seq<char>, Seq<char>)| p.0);
    assert(names@.map_values(|c: String| c@) =~= name_views.map_values(|n: Seq<char>| quoted(n)));
    let quoted_geom_col = quote_identifier(geometry_column);
    proof {
        reveal_strlit("t.");
        reveal_strlit("t");
    }
    let mut source_geom_expr = String::from_str("t.");
    source_geom_expr.append(quoted_geom_col.as_str());
    let webmercator_geom_expr = webmercator_geometry_expr(source_geom_expr.as_str(), geometry_crs);
    let select_properties = format_select_columns(names.as_slice(), Some("t"), ",\n");
    let mut geom_expr = String::from_str("ST_AsMVTGeom(ST_MakeValid(");
    geom_expr.append(webmercator_geom_expr.as_str());
    geom_expr.append("), bounds_box, 4096, 256, ");
    geom_expr.append(bool_str(clip_geometries));
    geom_expr.append(")");
    let fields = format_struct_fields(property_columns, "geom");
    let qualified_table = table_ref.to_quoted_string();
    let max_features_text = decimal_string(max_features as u64);
    let ghost webmercator = webmercator_expr(seq!['t', '.'] + quoted(geometry_column@), opt_view(geometry_crs));
    assert(source_geom_expr@ =~= seq!['t', '.'] + quoted(geometry_column@));
    assert(webmercator_geom_expr@ == webmercator);
    assert(geom_expr@ =~= mvt_geometry_expr(webmercator, clip_geometries));
    assert(opt_view(Some("t")) == Some(seq!['t']));
    let select_prefix = if names.len() == 0 {
        String::new()
    } else {
        let mut p = select_properties;
        p.append(",\n");
        p
    };
    assert(select_prefix@ =~= property_select_prefix(name_views));
    let mut sql = String::from_str("\n        WITH params AS (\n            SELECT ?::INTEGER AS z, ?::INTEGER AS x, ?::INTEGER AS y");
    sql.append("\n        ),\n        tile_raw AS (\n            SELECT \n                ");
    sql.append("ST_TileEnvelope(z, x, y) AS bounds");
    sql.append(",\n                ST_Extent(ST_TileEnvelope(z, x, y)) AS bounds_box\n            FROM params\n        ),\n        tile AS (\n            SELECT bounds, bounds_box\n            FROM tile_raw\n            WHERE bounds_box IS NOT NULL\n              AND ST_XMax(bounds_box) > ST_XMin(bounds_box)\n              AND ST_YMax(bounds_box) > ST_YMin(bounds_box)\n        ),\n        geom_rows AS (\n            SELECT ");
    sql.append(select_prefix.as_str());
    sql.append(geom_expr.as_str());
    sql.append(" AS geom");
    sql.append(",\n                tile.bounds_box AS bounds_box\n            ");
    sql.append("FROM ");
    sql.append(qualified_table.as_str());
    sql.append(" AS t, tile");
    sql.append("\n            WHERE ");
    sql.append("ST_Intersects(");
    sql.append(webmercator_geom_expr.as_str());
    sql.append(", tile.bounds)");
    sql.append("\n            ");
    sql.append("LIMIT ");
    sql.append(max_features_text.as_str());
    sql.append("\n        ),");
    sql.append("\n        mvt AS (\n            SELECT ST_AsMVT(\n                ");
    sql.append("STRUCT_PACK(");
    sql.append(fields.as_str());
    sql.append("),");
    sql.append("\n                ");
    sql.append("'default',\n                4096,\n                'geom'");
    sql.append("\n            ) AS tile\n            FROM geom_rows\n            ");
    sql.append("WHERE geom IS NOT NULL\n              AND NOT ST_IsEmpty(geom)\n              AND (ST_Dimension(geom) <> 1 OR ST_NPoints(geom) >= 2)");
    sql.append("\n        )\n        ");
    sql.append("SELECT tile FROM mvt LIMIT 1");
    sql.append("\n        ");
    sql
}

/// The tile query in pieces, each part that the laws speak of on its own.
spec fn tile_pieces(
    select_prefix: Seq<char>,
    geom_expr: Seq<char>,
    qualified_table: Seq<char>,
    webmercator: Seq<char>,
    max_features: Seq<char>,
    fields: Seq<char>,
) -> Seq<Seq<char>> {
    seq![
        "\n        WITH params AS (\n            SELECT ?::INTEGER AS z, ?::INTEGER AS x, ?::INTEGER AS y"@,
        "\n        ),\n        tile_raw AS (\n            SELECT \n                "@,
        "ST_TileEnvelope(z, x, y) AS bounds"@,
        ",\n                ST_Extent(ST_TileEnvelope(z, x, y)) AS bounds_box\n            FROM params\n        ),\n        tile AS (\n            SELECT bounds, bounds_box\n            FROM tile_raw\n            WHERE bounds_box IS NOT NULL\n              AND ST_XMax(bounds_box) > ST_XMin(bounds_box)\n              AND ST_YMax(bounds_box) > ST_YMin(bounds_box)\n        ),\n        geom_rows AS (\n            SELECT "@,
        select_prefix,
        geom_expr + " AS geom"@,
        ",\n                tile.bounds_box AS bounds_box\n            "@,
        "FROM "@ + qualified_table + " AS t, tile"@,
        "\n            WHERE "@,
        "ST_Intersects("@ + webmercator + ", tile.bounds)"@,
        "\n            "@,
        "LIMIT "@ + max_features + "\n        ),"@,
        "\n        mvt AS (\n            SELECT ST_AsMVT(\n                "@,
        "STRUCT_PACK("@ + fields + "),"@,
        "\n                "@,
        "'default',\n                4096,\n                'geom'"@,
        "\n            ) AS tile\n            FROM geom_rows\n            "@,
        "WHERE geom IS NOT NULL\n              AND NOT ST_IsEmpty(geom)\n              AND (ST_Dimension(geom) <> 1 OR ST_NPoints(geom) >= 2)"@,
        "\n        )\n        "@,
        "SELECT tile FROM mvt LIMIT 1"@,
        "\n        "@,
    ]
}

proof fn lemma_tile_pieces(
    select_prefix: Seq<char>,
    geom_expr: Seq<char>,
    qualified_table: Seq<char>,
    webmercator: Seq<char>,
    max_features: Seq<char>,
    fields: Seq<char>,
)
    ensures
        tile_sql(select_prefix, geom_expr, qualified_table, webmercator, max_features, fields)
            == concat_all(
            tile_pieces(select_prefix, geom_expr, qualified_table, webmercator, max_features, fields),
        ),
{
    let p = tile_pieces(select_prefix, geom_expr, qualified_table, webmercator, max_features, fields);
    reveal_with_fuel(concat_all, 22);
    assert(tile_sql(select_prefix, geom_expr, qualified_table, webmercator, max_features, fields)
        =~= concat_all(p));
}

/// The tile query's three parameters are, in order, z, x and y: the caller
/// binds them as `[z, x, y]`, so the tile rendered is the tile asked for.
pub proof fn law_tile_query_parameters_z_x_y(
    table: TableRef,
    geometry_column: Seq<char>,
    crs: Option<Seq<char>>,
    props: Seq<(Seq<char>, Seq<char>)>,
    clip: bool,
    max_features: u32,
)
    ensures
        starts_with_text(
            query_tile_sql(table, geometry_column, crs, props, clip, max_features),
            "\n        WITH params AS (\n            SELECT ?::INTEGER AS z, ?::INTEGER AS x, ?::INTEGER AS y\n        ),"@,
        ),
        contains_text(
            query_tile_sql(table, geometry_column, crs, props, clip, max_features),
            "ST_TileEnvelope(z, x, y) AS bounds"@,
        ),
{
    let webmercator = webmercator_expr(seq!['t', '.'] + quoted(geometry_column), crs);
    let args = (
        property_select_prefix(props.map_values(|p: (Seq<char>, Seq<char>)| p.0)),
        mvt_geometry_expr(webmercator, clip),
        table_ref_quoted_text(table.schema_name@, table.table_name@),
        webmercator,
        decimal(max_features as nat),
        struct_fields(props, "geom"@),
    );
    lemma_tile_pieces(args.0, args.1, args.2, args.3, args.4, args.5);
    let p = tile_pieces(args.0, args.1, args.2, args.3, args.4, args.5);
    let s = query_tile_sql(table, geometry_column, crs, props, clip, max_features);
    lemma_concat_all_contains(p, 2);
    let head = "\n        WITH params AS (\n            SELECT ?::INTEGER AS z, ?::INTEGER AS x, ?::INTEGER AS y\n        ),"@;
    assert(head == p[0] + "\n        ),"@) by {
        reveal_strlit("\n        WITH params AS (\n            SELECT ?::INTEGER AS z, ?::INTEGER AS x, ?::INTEGER AS y\n        ),");
        reveal_strlit("\n        WITH params AS (\n            SELECT ?::INTEGER AS z, ?::INTEGER AS x, ?::INTEGER AS y");
        reveal_strlit("\n        ),");
        assert(head =~= p[0] + "\n        ),"@);
    }
    let rest1 = p[1].subrange(11, p[1].len() as int);
    assert(p[1] == "\n        ),"@ + rest1) by {
        reveal_strlit("\n        ),\n        tile_raw AS (\n            SELECT \n                ");
        reveal_strlit("\n        ),");
        assert(p[1] =~= "\n        ),"@ + rest1);
    }
    let tail = concat_all(p.subrange(2, p.len() as int));
    assert(s == head + (rest1 + tail)) by {
        lemma_concat_all_split(p, 2);
        reveal_with_fuel(concat_all, 3);
        assert(p.subrange(0, 2).drop_last() =~= seq![p[0]]);
        assert(seq![p[0]].drop_last() =~= Seq::<Seq<char>>::empty());
        assert(s =~= head + (rest1 + tail));
    }
}

/// The tile query reads at most `max_features` rows of the table that meet
/// the tile, tests them against the same Web Mercator geometry that it
/// encodes, and packs the geometry with the property fields into one layer
/// named `default` with an extent of 4096 and the geometry field `geom`,
/// leaving out empty geometries and lines of fewer than two points; it
/// answers at most one tile, over the bounds of the tile's envelope where
/// these are a proper box.
pub proof fn law_tile_query_reads_table(
    table: TableRef,
    geometry_column: Seq<char>,
    crs: Option<Seq<char>>,
    props: Seq<(Seq<char>, Seq<char>)>,
    clip: bool,
    max_features: u32,
)
    ensures
        ({
            let s = query_tile_sql(table, geometry_column, crs, props, clip, max_features);
            let webmercator = webmercator_expr(seq!['t', '.'] + quoted(geometry_column), crs);
            &&& contains_text(
                s,
                "FROM "@ + table_ref_quoted_text(table.schema_name@, table.table_name@)
                    + " AS t, tile"@,
            )
            &&& contains_text(s, "ST_Intersects("@ + webmercator + ", tile.bounds)"@)
            &&& contains_text(s, "LIMIT "@ + decimal(max_features as nat) + "\n        ),"@)
            &&& contains_text(
                s,
                "ST_AsMVTGeom(ST_MakeValid("@ + webmercator + "), bounds_box, 4096, 256, "@
                    + bool_text(clip) + ") AS geom"@,
            )
            &&& contains_text(s, "STRUCT_PACK("@ + struct_fields(props, "geom"@) + "),"@)
            &&& contains_text(s, "'default',\n                4096,\n                'geom'"@)
            &&& contains_text(
                s,
                "WHERE geom IS NOT NULL\n              AND NOT ST_IsEmpty(geom)\n              AND (ST_Dimension(geom) <> 1 OR ST_NPoints(geom) >= 2)"@,
            )
            &&& contains_text(s, "SELECT tile FROM mvt LIMIT 1"@)
            &&& contains_text(s, ",\n                ST_Extent(ST_TileEnvelope(z, x, y)) AS bounds_box\n            FROM params\n        ),\n        tile AS (\n            SELECT bounds, bounds_box\n            FROM tile_raw\n            WHERE bounds_box IS NOT NULL\n              AND ST_XMax(bounds_box) > ST_XMin(bounds_box)\n              AND ST_YMax(bounds_box) > ST_YMin(bounds_box)\n        ),\n        geom_rows AS (\n            SELECT "@)
        }),
{
    let webmercator = webmercator_expr(seq!['t', '.'] + quoted(geometry_column), crs);
    let args = (
        property_select_prefix(props.map_values(|p: (Seq<char>, Seq<char>)| p.0)),
        mvt_geometry_expr(webmercator, clip),
        table_ref_quoted_text(table.schema_name@, table.table_name@),
        webmercator,
        decimal(max_features as nat),
        struct_fields(props, "geom"@),
    );
    lemma_tile_pieces(args.0, args.1, args.2, args.3, args.4, args.5);
    let p = tile_pieces(args.0, args.1, args.2, args.3, args.4, args.5);
    lemma_concat_all_contains(p, 5);
    lemma_concat_all_contains(p, 7);
    lemma_concat_all_contains(p, 9);
    lemma_concat_all_contains(p, 11);
    lemma_concat_all_contains(p, 13);
    lemma_concat_all_contains(p, 15);
    lemma_concat_all_contains(p, 17);
    lemma_concat_all_contains(p, 19);
    lemma_concat_all_contains(p, 3);
    assert(")"@ + " AS geom"@ == ") AS geom"@) by {
        reveal_strlit(")");
        reveal_strlit(" AS geom");
        reveal_strlit(") AS geom");
        assert(")"@ + " AS geom"@ =~= ") AS geom"@);
    }
    assert(p[5] =~= "ST_AsMVTGeom(ST_MakeValid("@ + webmercator + "), bounds_box, 4096, 256, "@
        + bool_text(clip) + ") AS geom"@);
}

/// The reference-system query asks for the reference system of the column
/// `g`, read from the table `t`, on a row whose geometry is not NULL.
pub proof fn law_crs_query_reads_column(g: Seq<char>, t: Seq<char>)
    ensures
        contains_text(crs_sql(g, t), "SELECT ST_CRS("@ + g + ")"@),
        contains_text(crs_sql(g, t), "FROM "@ + t + "\n        WHERE "@ + g + " IS NOT NULL"@),
{
    let p = seq![
        "\n        "@,
        "SELECT ST_CRS("@ + g + ")"@,
        "\n        "@,
        "FROM "@ + t + "\n        WHERE "@ + g + " IS NOT NULL"@,
        "\n          AND ST_IsEmpty("@ + g + ") = FALSE\n        LIMIT 1\n        "@,
    ];
    assert("\n        SELECT "@ + "ST_CRS("@ == "\n        "@ + "SELECT ST_CRS("@) by {
        reveal_strlit("\n        SELECT ");
        reveal_strlit("ST_CRS(");
        reveal_strlit("\n        ");
        reveal_strlit("SELECT ST_CRS(");
        assert("\n        SELECT "@ + "ST_CRS("@ =~= "\n        "@ + "SELECT ST_CRS("@);
    }
    assert(crs_sql(g, t) == concat_all(p)) by {
        reveal_with_fuel(concat_all, 6);
        assert(crs_sql(g, t) =~= concat_all(p));
    }
    lemma_concat_all_contains(p, 1);
    lemma_concat_all_contains(p, 3);
}

/// The geometry-column query asks the catalog, with the schema and then the
/// table as parameters, for the geometry-typed columns of that table in
/// column order, and keeps the first.
pub proof fn law_geometry_column_query()
    ensures
        starts_with_text(GEOMETRY_COLUMN_SQL@, "\n        SELECT column_name\n        FROM duckdb_columns()"@),
        contains_text(GEOMETRY_COLUMN_SQL@, "\n        WHERE schema_name = ?\n           AND table_name = ?\n           AND upper(data_type) LIKE '%GEOMETRY%'"@),
        ends_with_text(GEOMETRY_COLUMN_SQL@, "\n        ORDER BY column_index\n        LIMIT 1"@),
{
    reveal_strlit("\n        SELECT column_name\n        FROM duckdb_columns()\n        WHERE schema_name = ?\n           AND table_name = ?\n           AND upper(data_type) LIKE '%GEOMETRY%'");
    reveal_strlit("\n        WHERE schema_name = ?\n           AND table_name = ?\n           AND upper(data_type) LIKE '%GEOMETRY%'\n        ORDER BY column_index\n        LIMIT 1");
    reveal_strlit("\n        ORDER BY column_index\n        LIMIT 1");
    reveal_strlit("\n        SELECT column_name\n        FROM duckdb_columns()");
    reveal_strlit("\n        SELECT column_name\n        FROM duckdb_columns()\n        WHERE schema_name = ?\n           AND table_name = ?\n           AND upper(data_type) LIKE '%GEOMETRY%'\n        ORDER BY column_index\n        LIMIT 1");
    reveal_strlit("\n        WHERE schema_name = ?\n           AND table_name = ?\n           AND upper(data_type) LIKE '%GEOMETRY%'");
    assert("\n        SELECT column_name\n        FROM duckdb_columns()"@ + "\n        WHERE schema_name = ?\n           AND table_name = ?\n           AND upper(data_type) LIKE '%GEOMETRY%'\n        ORDER BY column_index\n        LIMIT 1"@ == GEOMETRY_COLUMN_SQL@) by {
        assert("\n        SELECT column_name\n        FROM duckdb_columns()"@ + "\n        WHERE schema_name = ?\n           AND table_name = ?\n           AND upper(data_type) LIKE '%GEOMETRY%'\n        ORDER BY column_index\n        LIMIT 1"@ =~= GEOMETRY_COLUMN_SQL@);
    }
    assert("\n        SELECT column_name\n        FROM duckdb_columns()"@ + "\n        WHERE schema_name = ?\n           AND table_name = ?\n           AND upper(data_type) LIKE '%GEOMETRY%'"@ + "\n        ORDER BY column_index\n        LIMIT 1"@ == GEOMETRY_COLUMN_SQL@) by {
        assert("\n        SELECT column_name\n        FROM duckdb_columns()"@ + "\n        WHERE schema_name = ?\n           AND table_name = ?\n           AND upper(data_type) LIKE '%GEOMETRY%'"@ + "\n        ORDER BY column_index\n        LIMIT 1"@ =~= GEOMETRY_COLUMN_SQL@);
    }
    assert("\n        SELECT column_name\n        FROM duckdb_columns()\n        WHERE schema_name = ?\n           AND table_name = ?\n           AND upper(data_type) LIKE '%GEOMETRY%'"@ + "\n        ORDER BY column_index\n        LIMIT 1"@ == GEOMETRY_COLUMN_SQL@) by {
        assert("\n        SELECT column_name\n        FROM duckdb_columns()\n        WHERE schema_name = ?\n           AND table_name = ?\n           AND upper(data_type) LIKE '%GEOMETRY%'"@ + "\n        ORDER BY column_index\n        LIMIT 1"@ =~= GEOMETRY_COLUMN_SQL@);
    }
}

/// The property-columns query asks the catalog, with the schema and then the
/// table as parameters, for the names and types of the columns of that table
/// that are not geometries, in column order.
pub proof fn law_property_columns_query()
    ensures
        starts_with_text(PROPERTY_COLUMNS_SQL@, "\n        SELECT column_name, data_type\n        FROM duckdb_columns()"@),
        contains_text(PROPERTY_COLUMNS_SQL@, "\n        WHERE schema_name = ?\n           AND table_name = ?\n           AND upper(data_type) NOT LIKE '%GEOMETRY%'"@),
        ends_with_text(PROPERTY_COLUMNS_SQL@, "\n        ORDER BY column_index"@),
{
    reveal_strlit("\n        SELECT column_name, data_type\n        FROM duckdb_columns()\n        WHERE schema_name = ?\n           AND table_name = ?\n           AND upper(data_type) NOT LIKE '%GEOMETRY%'");
    reveal_strlit("\n        WHERE schema_name = ?\n           AND table_name = ?\n           AND upper(data_type) NOT LIKE '%GEOMETRY%'\n        ORDER BY column_index");
    reveal_strlit("\n        ORDER BY column_index");
    reveal_strlit("\n        SELECT column_name, data_type\n        FROM duckdb_columns()");
    reveal_strlit("\n        SELECT column_name, data_type\n        FROM duckdb_columns()\n        WHERE schema_name = ?\n           AND table_name = ?\n           AND upper(data_type) NOT LIKE '%GEOMETRY%'\n        ORDER BY column_index");
    reveal_strlit("\n        WHERE schema_name = ?\n           AND table_name = ?\n           AND upper(data_type) NOT LIKE '%GEOMETRY%'");
    assert("\n        SELECT column_name, data_type\n        FROM duckdb_columns()"@ + "\n        WHERE schema_name = ?\n           AND table_name = ?\n           AND upper(data_type) NOT LIKE '%GEOMETRY%'\n        ORDER BY column_index"@ == PROPERTY_COLUMNS_SQL@) by {
        assert("\n        SELECT column_name, data_type\n        FROM duckdb_columns()"@ + "\n        WHERE schema_name = ?\n           AND table_name = ?\n           AND upper(data_type) NOT LIKE '%GEOMETRY%'\n        ORDER BY column_index"@ =~= PROPERTY_COLUMNS_SQL@);
    }
    assert("\n        SELECT column_name, data_type\n        FROM duckdb_columns()"@ + "\n        WHERE schema_name = ?\n           AND table_name = ?\n           AND upper(data_type) NOT LIKE '%GEOMETRY%'"@ + "\n        ORDER BY column_index"@ == PROPERTY_COLUMNS_SQL@) by {
        assert("\n        SELECT column_name, data_type\n        FROM duckdb_columns()"@ + "\n        WHERE schema_name = ?\n           AND table_name = ?\n           AND upper(data_type) NOT LIKE '%GEOMETRY%'"@ + "\n        ORDER BY column_index"@ =~= PROPERTY_COLUMNS_SQL@);
    }
    assert("\n        SELECT column_name, data_type\n        FROM duckdb_columns()\n        WHERE schema_name = ?\n           AND table_name = ?\n           AND upper(data_type) NOT LIKE '%GEOMETRY%'"@ + "\n        ORDER BY column_index"@ == PROPERTY_COLUMNS_SQL@) by {
        assert("\n        SELECT column_name, data_type\n        FROM duckdb_columns()\n        WHERE schema_name = ?\n           AND table_name = ?\n           AND upper(data_type) NOT LIKE '%GEOMETRY%'"@ + "\n        ORDER BY column_index"@ =~= PROPERTY_COLUMNS_SQL@);
    }
}

/// Every property column is selected from the table under its own name, both
/// quoted, whatever characters the name holds.
pub proof fn law_property_columns_selected_quoted(names: Seq<Seq<char>>, k: int)
    requires
        0 <= k < names.len(),
    ensures
        contains_text(
            property_select_prefix(names),
            "t."@ + quoted(names[k]) + " AS "@ + quoted(names[k]),
        ),
{
    let quoted_names = names.map_values(|n: Seq<char>| quoted(n));
    let alias = Some(seq!['t']);
    let entries = quoted_names.map_values(|c: Seq<char>| select_column(c, alias));
    lemma_join_contains(entries, ",\n"@, k);
    assert(seq!['t'] + seq!['.'] == "t."@) by {
        reveal_strlit("t.");
        assert(seq!['t'] + seq!['.'] =~= "t."@);
    }
    assert(entries[k] =~= "t."@ + quoted(names[k]) + " AS "@ + quoted(names[k]));
    let (a, b) = choose|a: Seq<char>, b: Seq<char>| #[trigger] (a + entries[k] + b) == join(entries, ",\n"@);
    assert(a + entries[k] + (b + ",\n"@) == property_select_prefix(names)) by {
        assert(a + entries[k] + (b + ",\n"@) =~= join(entries, ",\n"@) + ",\n"@);
    }
}

/// A geometry is brought into Web Mercator only where its column is in another
/// reference system, by transforming it from that system to EPSG:3857 with
/// longitude first.
pub proof fn law_webmercator_transform(source: Seq<char>, crs: Option<Seq<char>>)
    ensures
        crs is None ==> webmercator_expr(source, crs) == source,
        crs == Some("EPSG:3857"@) ==> webmercator_expr(source, crs) == source,
        crs is Some && crs->0 != "EPSG:3857"@ ==> webmercator_expr(source, crs) == "ST_Transform("@
            + source + ", "@ + sql_literal(crs->0) + ", 'EPSG:3857', always_xy := true)"@,
{
}

} // verus!
