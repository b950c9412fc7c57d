use mvts::api::errors::{listing_error_response, store_error_to_response, InvalidTableReference};
use mvts::api::tables::viewer_tile_url;
use mvts::api::HttpStatus;
use mvts::store::errors::StoreError;
use mvts::store::tables::{
    build_extent_sql, build_query_geometry_tables_sql, select_single_table, table_info_from_row,
    TableInfo, TableRef, GEOMETRY_TABLES_FILTER_SQL,
};
use mvts::store::tiles::{build_crs_sql, build_tile_sql, geometry_column_or_error, webmercator_geometry_expr, TileXYZ};
use mvts::store::{format_select_columns, format_struct_fields, is_native_type_name, parse_list_string, parse_table_ref, quote_identifier, quote_literal};

fn strings(v: &[&str]) -> Vec<String> {
    v.iter().map(|s| s.to_string()).collect()
}

#[test]
fn table_ref_parses_schema_and_table() {
    let r = TableRef::from_str("main.roads").unwrap();
    assert_eq!(r.schema_name, "main");
    assert_eq!(r.table_name, "roads");
    assert_eq!(r.to_string(), "main.roads");
    assert_eq!(r.to_quoted_string(), "\"main\".\"roads\"");
}

#[test]
fn table_ref_requires_schema() {
    assert_eq!(
        TableRef::from_str(".roads").unwrap_err(),
        "Schema is required. Expected format: 'schema.table', got: '.roads'"
    );
    assert_eq!(
        TableRef::from_str("roads").unwrap_err(),
        "Invalid table reference format. Expected 'schema.table', got: 'roads'"
    );
    assert_eq!(
        TableRef::from_str("a.b.c").unwrap_err(),
        "Invalid table reference format. Expected 'schema.table', got: 'a.b.c'"
    );
    let empty_table = TableRef::from_str("main.").unwrap();
    assert_eq!(empty_table.table_name, "");
}

#[test]
fn table_ref_roundtrips() {
    for text in ["main.roads", "s.t", "my schema.my table"] {
        assert_eq!(TableRef::from_str(text).unwrap().to_string(), text);
    }
    let r = TableRef::new("geo".to_string(), "parcels".to_string());
    let back = TableRef::from_str(&r.to_string()).unwrap();
    assert_eq!(back.schema_name, "geo");
    assert_eq!(back.table_name, "parcels");
}

#[test]
fn table_ref_without_schema_prints_table_only() {
    let r = TableRef::new(String::new(), "t\"x".to_string());
    assert_eq!(r.to_string(), "t\"x");
    assert_eq!(r.to_quoted_string(), "\"t\"\"x\"");
}

#[test]
fn parse_table_ref_needs_exactly_one_dot() {
    assert_eq!(parse_table_ref("a.b".to_string()), Some(("a".to_string(), "b".to_string())));
    assert_eq!(parse_table_ref("ab".to_string()), None);
    assert_eq!(parse_table_ref("a.b.c".to_string()), None);
    assert_eq!(parse_table_ref(".".to_string()), Some((String::new(), String::new())));
}

#[test]
fn quoting_doubles_quotes() {
    assert_eq!(quote_identifier("name"), "\"name\"");
    assert_eq!(quote_identifier("a\"b"), "\"a\"\"b\"");
    assert_eq!(quote_identifier(""), "\"\"");
    assert_eq!(quote_identifier("\"\""), "\"\"\"\"\"\"");
    assert_eq!(quote_literal("EPSG:4326"), "'EPSG:4326'");
    assert_eq!(quote_literal("it's"), "'it''s'");
    assert_ne!(quote_identifier("a\"b"), quote_identifier("a\"\"b"));
}

#[test]
fn select_columns_example() {
    let cols = vec!["id".to_string(), "name".to_string()];
    let result = format_select_columns(&cols, Some("t"), ",\n");
    assert_eq!(result, "t.id AS id,\nt.name AS name");
    assert_eq!(format_select_columns(&cols, None, ", "), "id, name");
    assert_eq!(format_select_columns(&[], Some("t"), ",\n"), "");
}

#[test]
fn struct_fields_cast_unsupported_types() {
    assert_eq!(format_struct_fields(&[], "geom"), "geom:=geom");
    let props = vec![
        ("name".to_string(), "varchar".to_string()),
        ("born".to_string(), "DATE".to_string()),
        ("n".to_string(), "BigInt".to_string()),
        ("ts".to_string(), "TIMESTAMP WITH TIME ZONE".to_string()),
    ];
    assert_eq!(
        format_struct_fields(&props, "geom"),
        "geom:=geom, name:=\"name\", born:=CAST(\"born\" AS VARCHAR), n:=\"n\", ts:=CAST(\"ts\" AS VARCHAR)"
    );
}

#[test]
fn list_strings_parse_into_items() {
    assert_eq!(parse_list_string("['value1', 'value2', 'value3']"), strings(&["value1", "value2", "value3"]));
    assert_eq!(parse_list_string("a,b,c"), strings(&["a", "b", "c"]));
    assert_eq!(parse_list_string("[]"), Vec::<String>::new());
    assert_eq!(parse_list_string(""), Vec::<String>::new());
    assert_eq!(parse_list_string(" \"x\" , ,y "), strings(&["x", "y"]));
    assert_eq!(parse_list_string("[[a]]"), strings(&["a"]));
}

#[test]
fn table_rows_become_table_info() {
    let info = table_info_from_row(
        "db".to_string(),
        "main".to_string(),
        "roads".to_string(),
        Some("id,name".to_string()),
        None,
    );
    assert_eq!(info.properties, strings(&["id", "name"]));
    assert!(info.geometry_columns.is_empty());
    let r = info.table_ref();
    assert_eq!(r.to_string(), "main.roads");
}

#[test]
fn single_table_is_last_row_or_not_found() {
    let r = TableRef::new("main".to_string(), "roads".to_string());
    match select_single_table(Vec::new(), false, &r) {
        Err(StoreError::TableNotFound { table_name }) => assert_eq!(table_name, "roads"),
        other => panic!("unexpected {:?}", other),
    }
    match select_single_table(Vec::new(), true, &r) {
        Err(StoreError::NoGeometryColumn { table_name }) => assert_eq!(table_name, "roads"),
        other => panic!("unexpected {:?}", other),
    }
    let a = TableInfo {
        database_name: "db".to_string(),
        schema_name: "main".to_string(),
        table_name: "a".to_string(),
        properties: vec![],
        geometry_columns: strings(&["geom"]),
    };
    let mut b = a.clone();
    b.table_name = "b".to_string();
    let found = select_single_table(vec![a, b], true, &r).unwrap();
    assert_eq!(found.table_name, "b");
}

#[test]
fn geometry_column_missing_is_an_error() {
    let r = TableRef::new("main".to_string(), "roads".to_string());
    assert_eq!(geometry_column_or_error(Some("geom".to_string()), &r).unwrap(), "geom");
    match geometry_column_or_error(None, &r) {
        Err(StoreError::NoGeometryColumn { table_name }) => assert_eq!(table_name, "roads"),
        other => panic!("unexpected {:?}", other),
    }
}

#[test]
fn store_errors_map_to_statuses() {
    let (s, m) = store_error_to_response(StoreError::TableNotFound { table_name: "x".to_string() });
    assert_eq!((s, m.as_str()), (HttpStatus::NotFound, "Table 'x' not found in database"));
    let (s, m) = store_error_to_response(StoreError::NoGeometryColumn { table_name: "x".to_string() });
    assert_eq!((s, m.as_str()), (HttpStatus::BadRequest, "Table 'x' exists but has no geometry column"));
    let (s, m) = store_error_to_response(StoreError::DatabaseError { message: "boom".to_string() });
    assert_eq!((s, m.as_str()), (HttpStatus::InternalServerError, "Database error: boom"));
    let (s, m) = listing_error_response(&StoreError::DatabaseError { message: "boom".to_string() });
    assert_eq!((s, m.as_str()), (HttpStatus::InternalServerError, "Database error: Database error: boom"));
}

#[test]
fn invalid_table_reference_is_bad_request() {
    let e = InvalidTableReference { message: "bad".to_string() };
    assert_eq!(e.to_string(), "bad");
    assert_eq!(e.into_response(), (HttpStatus::BadRequest, "bad".to_string()));
}

#[test]
fn geometry_tables_sql_filters_only_with_both_names() {
    let (all, p) = build_query_geometry_tables_sql(None, None);
    assert!(!p);
    assert!(!all.contains(GEOMETRY_TABLES_FILTER_SQL));
    let (one, p) = build_query_geometry_tables_sql(Some("main"), Some("roads"));
    assert!(p);
    assert!(one.contains(" WHERE schema_name = ? AND table_name = ?\n        GROUP BY"));
    let (half, p) = build_query_geometry_tables_sql(Some("main"), None);
    assert!(!p);
    assert_eq!(half, all);
}

#[test]
fn extent_and_crs_sql_quote_names() {
    let r = TableRef::new("main".to_string(), "roads".to_string());
    let sql = build_extent_sql(&r, "geom");
    assert!(sql.contains("MIN(ST_XMin(\"geom\")) AS xmin"));
    assert!(sql.contains("FROM \"main\".\"roads\"\n"));
    assert!(sql.ends_with("AND ST_YMax(\"geom\") != 0"));
    let crs = build_crs_sql(&r, "geom");
    assert_eq!(
        crs,
        "\n        SELECT ST_CRS(\"geom\")\n        FROM \"main\".\"roads\"\n        WHERE \"geom\" IS NOT NULL\n          AND ST_IsEmpty(\"geom\") = FALSE\n        LIMIT 1\n        "
    );
}

#[test]
fn webmercator_expression() {
    assert_eq!(webmercator_geometry_expr("t.\"g\"", None), "t.\"g\"");
    assert_eq!(webmercator_geometry_expr("t.\"g\"", Some("EPSG:3857")), "t.\"g\"");
    assert_eq!(
        webmercator_geometry_expr("t.\"g\"", Some("EPSG:4326")),
        "ST_Transform(t.\"g\", 'EPSG:4326', 'EPSG:3857', always_xy := true)"
    );
}

#[test]
fn tile_sql_holds_its_parts() {
    let r = TableRef::new("main".to_string(), "roads".to_string());
    let props = vec![("name".to_string(), "VARCHAR".to_string()), ("d".to_string(), "DATE".to_string())];
    let sql = build_tile_sql(&r, "geom", None, &props, true, 50000);
    assert!(sql.contains("SELECT t.\"name\" AS \"name\",\nt.\"d\" AS \"d\",\nST_AsMVTGeom(ST_MakeValid(t.\"geom\"), bounds_box, 4096, 256, true) AS geom,"));
    assert!(sql.contains("FROM \"main\".\"roads\" AS t, tile"));
    assert!(sql.contains("WHERE ST_Intersects(t.\"geom\", tile.bounds)"));
    assert!(sql.contains("LIMIT 50000\n"));
    assert!(sql.contains("STRUCT_PACK(geom:=geom, name:=\"name\", d:=CAST(\"d\" AS VARCHAR))"));
    let bare = build_tile_sql(&r, "geom", Some("EPSG:4326"), &[], false, 10);
    assert!(bare.contains("SELECT ST_AsMVTGeom(ST_MakeValid(ST_Transform(t.\"geom\", 'EPSG:4326', 'EPSG:3857', always_xy := true)), bounds_box, 4096, 256, false) AS geom,"));
    assert!(bare.contains("STRUCT_PACK(geom:=geom)"));
    let spaced = vec![("my col".to_string(), "INTEGER".to_string())];
    let sql = build_tile_sql(&r, "geom", None, &spaced, true, 1);
    assert!(sql.contains("SELECT t.\"my col\" AS \"my col\",\n"));
}

#[test]
fn viewer_url_keeps_query() {
    let r = TableRef::new("main".to_string(), "roads".to_string());
    assert_eq!(viewer_tile_url(&r, None), "/tables/main.roads/tiles/{z}/{x}/{y}.pbf");
    assert_eq!(viewer_tile_url(&r, Some("a=1")), "/tables/main.roads/tiles/{z}/{x}/{y}.pbf?a=1");
}

#[test]
fn tile_xyz_holds_coordinates() {
    let t = TileXYZ::new(1, 2, 3);
    assert_eq!((t.x, t.y, t.z), (1, 2, 3));
}

#[test]
fn native_type_names_are_uppercase() {
    for name in ["VARCHAR", "TEXT", "STRING", "FLOAT", "DOUBLE", "REAL", "INTEGER", "INT", "BIGINT", "BOOLEAN", "BOOL"] {
        assert!(is_native_type_name(name));
    }
    assert!(!is_native_type_name("varchar"));
    assert!(!is_native_type_name("DATE"));
    assert!(!is_native_type_name("SMALLINT"));
}
