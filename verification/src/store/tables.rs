//! Table-related data: table references, table rows and their SQL.
use crate::store::errors::StoreError;
use crate::store::{list_items, parse_list_string, parse_table_ref, parse_table_ref_spec, quote_identifier, quoted};
use crate::text::{concat_all, contains_text, ends_with_text, join, lemma_concat_all_contains,
    lemma_concat_all_split, lemma_join_split, lemma_split_pair, split, starts_with_text};
use vstd::prelude::*;

verus! {

/// A table named by schema and table name.
#[derive(Debug, Clone)]
pub struct TableRef {
    pub schema_name: String,
    pub table_name: String,
}

/// `schema.table`, or `table` alone where the schema is empty.
pub open spec fn table_ref_text(schema: Seq<char>, table: Seq<char>) -> Seq<char> {
    if schema.len() == 0 {
        table
    } else {
        schema + seq!['.'] + table
    }
}

/// `"schema"."table"`, or `"table"` alone where the schema is empty.
pub open spec fn table_ref_quoted_text(schema: Seq<char>, table: Seq<char>) -> Seq<char> {
    if schema.len() == 0 {
        quoted(table)
    } else {
        quoted(schema) + seq!['.'] + quoted(table)
    }
}

/// Whether `s` names a table with a schema: exactly one `.`, with a non-empty part before it.
pub open spec fn is_schema_qualified(s: Seq<char>) -> bool {
    match parse_table_ref_spec(s) {
        Some((schema, _)) => schema.len() > 0,
        None => false,
    }
}

/// The message with which a table reference is refused.
pub open spec fn table_ref_error_text(s: Seq<char>) -> Seq<char> {
    if parse_table_ref_spec(s) is Some {
        "Schema is required. Expected format: 'schema.table', got: '"@ + s + "'"@
    } else {
        "Invalid table reference format. Expected 'schema.table', got: '"@ + s + "'"@
    }
}

impl TableRef {
    pub fn new(schema_name: String, table_name: String) -> (r: Self)
        ensures
            r.schema_name == schema_name,
            r.table_name == table_name,
    {
        TableRef { schema_name, table_name }
    }

    /// Parses a table reference; the format `schema.table` is required.
    pub fn from_str(table_ref: &str) -> (r: Result<Self, String>)
        ensures
            r is Ok <==> is_schema_qualified(table_ref@),
            match r {
                Ok(t) => parse_table_ref_spec(table_ref@) == Some((t.schema_name@, t.table_name@)),
                Err(m) => m@ == table_ref_error_text(table_ref@),
            },
    {
        let parsed = parse_table_ref(String::from_str(table_ref));
        match parsed {
            Some((schema_name, table_name)) => {
                if schema_name.as_str().is_empty() {
                    let mut m = String::from_str(
                        "Schema is required. Expected format: 'schema.table', got: '",
                    );
                    m.append(table_ref);
                    m.append("'");
                    return Err(m);
                }
                Ok(Self::new(schema_name, table_name))
            },
            None => {
                let mut m = String::from_str(
                    "Invalid table reference format. Expected 'schema.table', got: '",
                );
                m.append(table_ref);
                m.append("'");
                Err(m)
            },
        }
    }

    /// `schema.table`, or the table name alone where the schema is empty.
    pub fn to_string(&self) -> (r: String)
        ensures
            r@ == table_ref_text(self.schema_name@, self.table_name@),
    {
        if self.schema_name.as_str().is_empty() {
            self.table_name.clone()
        } else {
            let mut r = self.schema_name.clone();
            proof {
                reveal_strlit(".");
            }
            r.append(".");
            r.append(self.table_name.as_str());
            r
        }
    }

    /// The reference with each part quoted for SQL.
    pub fn to_quoted_string(&self) -> (r: String)
        ensures
            r@ == table_ref_quoted_text(self.schema_name@, self.table_name@),
    {
        let quoted_table = quote_identifier(self.table_name.as_str());
        if self.schema_name.as_str().is_empty() {
            quoted_table
        } else {
            let mut r = quote_identifier(self.schema_name.as_str());
            proof {
                reveal_strlit(".");
            }
            r.append(".");
            r.append(quoted_table.as_str());
            r
        }
    }
}

/// Writing a parsed reference back gives the text that was parsed.
pub proof fn law_table_ref_text_roundtrip(s: Seq<char>)
    requires
        is_schema_qualified(s),
    ensures
        table_ref_text(parse_table_ref_spec(s).unwrap().0, parse_table_ref_spec(s).unwrap().1) == s,
{
    let parts = split(s, '.');
    lemma_join_split(s, '.');
    assert(parts.drop_last() =~= seq![parts[0]]);
    assert(join(parts.drop_last(), seq!['.']) == parts[0]);
    assert(parts.last() == parts[1]);
    assert(join(parts, seq!['.']) == parts[0] + seq!['.'] + parts[1]);
}

/// Parsing the text of a reference gives the reference back, when the schema
/// is not empty and neither name holds a `.`.
pub proof fn law_table_ref_parse_roundtrip(schema: Seq<char>, table: Seq<char>)
    requires
        schema.len() > 0,
        !schema.contains('.'),
        !table.contains('.'),
    ensures
        parse_table_ref_spec(table_ref_text(schema, table)) == Some((schema, table)),
        is_schema_qualified(table_ref_text(schema, table)),
{
    lemma_split_pair(schema, table, '.');
    assert(schema.push('.') + table =~= schema + seq!['.'] + table);
}

/// A table that has a geometry column, as DuckDB's catalog describes it.
/// The extent of its geometries is measured separately, by the caller.
#[derive(Debug, Clone)]
pub struct TableInfo {
    pub database_name: String,
    pub schema_name: String,
    pub table_name: String,
    pub properties: Vec<String>,
    pub geometry_columns: Vec<String>,
}

impl TableInfo {
    pub fn table_ref(&self) -> (r: TableRef)
        ensures
            r.schema_name@ == self.schema_name@,
            r.table_name@ == self.table_name@,
    {
        TableRef::new(self.schema_name.clone(), self.table_name.clone())
    }
}

/// The items of an optional list string; none where the value is NULL.
pub open spec fn optional_list_items(s: Option<Seq<char>>) -> Seq<Seq<char>> {
    match s {
        Some(t) => list_items(t),
        None => Seq::<Seq<char>>::empty(),
    }
}

pub open spec fn opt_string_view(s: Option<String>) -> Option<Seq<char>> {
    match s {
        Some(t) => Some(t@),
        None => None,
    }
}

/// Builds the description of a table from one row of the catalog query:
/// the property and geometry column lists arrive as list strings, or NULL.
pub fn table_info_from_row(
    database_name: String,
    schema_name: String,
    table_name: String,
    properties: Option<String>,
    geometry_columns: Option<String>,
) -> (r: TableInfo)
    ensures
        r.database_name == database_name,
        r.schema_name == schema_name,
        r.table_name == table_name,
        r.properties@.map_values(|x: String| x@) == optional_list_items(opt_string_view(properties)),
        r.geometry_columns@.map_values(|x: String| x@) == optional_list_items(
            opt_string_view(geometry_columns),
        ),
{
    let properties = match properties {
        Some(s) => parse_list_string(s.as_str()),
        None => {
            let v: Vec<String> = Vec::new();
            assert(v@.map_values(|x: String| x@) =~= Seq::<Seq<char>>::empty());
            v
        },
    };
    let geometry_columns = match geometry_columns {
        Some(s) => parse_list_string(s.as_str()),
        None => {
            let v: Vec<String> = Vec::new();
            assert(v@.map_values(|x: String| x@) =~= Seq::<Seq<char>>::empty());
            v
        },
    };
    TableInfo { database_name, schema_name, table_name, properties, geometry_columns }
}

/// The answer to a query for one table: the last row the catalog query for
/// geometry tables found; where it found none, `NoGeometryColumn` if the table
/// exists (it has columns, none of them geometry), else `TableNotFound`. Both
/// errors name the table.
pub fn select_single_table(tables: Vec<TableInfo>, table_exists: bool, table_ref: &TableRef) -> (r:
    Result<TableInfo, StoreError>)
    ensures
        tables.len() > 0 <==> r is Ok,
        tables.len() > 0 ==> r == Ok::<TableInfo, StoreError>(tables@.last()),
        (r matches Err(StoreError::TableNotFound { table_name })) <==> (tables.len() == 0
            && !table_exists),
        (r matches Err(StoreError::NoGeometryColumn { table_name })) <==> (tables.len() == 0
            && table_exists),
        r matches Err(StoreError::TableNotFound { table_name }) ==> table_name@
            == table_ref.table_name@,
        r matches Err(StoreError::NoGeometryColumn { table_name }) ==> table_name@
            == table_ref.table_name@,
        !(r matches Err(StoreError::DatabaseError { .. })),
{
    let mut tables = tables;
    match tables.pop() {
        Some(t) => Ok(t),
        None => {
            if table_exists {
                Err(StoreError::NoGeometryColumn { table_name: table_ref.table_name.clone() })
            } else {
                Err(StoreError::TableNotFound { table_name: table_ref.table_name.clone() })
            }
        },
    }
}

/// Whether a table exists, whatever its columns: true where the catalog
/// holds a column of it. Its parameters are the schema and the table.
pub const TABLE_EXISTS_SQL: &'static str = "\n        SELECT COUNT(*) > 0\n        FROM duckdb_columns()\n        WHERE schema_name = ?\n           AND table_name = ?";

/// The catalog query for tables with a geometry column, before its filter.
pub const GEOMETRY_TABLES_SELECT_SQL: &'static str = "\n        SELECT\n            database_name,\n            schema_name,\n            table_name,\n            STRING_AGG(DISTINCT column_name, ',')\n                FILTER (WHERE upper(data_type) NOT LIKE '%GEOMETRY%') AS properties,\n            STRING_AGG(DISTINCT column_name, ',')\n                FILTER (WHERE upper(data_type) LIKE '%GEOMETRY%') AS geometry_columns\n        FROM duckdb_columns()";

/// The filter of the catalog query for one table; its parameters are the schema and the table.
pub const GEOMETRY_TABLES_FILTER_SQL: &'static str = " WHERE schema_name = ? AND table_name = ?";

/// The grouping of the catalog query: one row per table.
pub const GEOMETRY_TABLES_GROUP_SQL: &'static str = "\n        GROUP BY database_name, schema_name, table_name";

/// The filter of the catalog query that keeps the tables with a geometry column.
pub const GEOMETRY_TABLES_HAVING_SQL: &'static str = "\n        HAVING COUNT(*) FILTER (WHERE upper(data_type) LIKE '%GEOMETRY%') > 0";

/// The order of the catalog query.
pub const GEOMETRY_TABLES_ORDER_SQL: &'static str = "\n        ORDER BY database_name, schema_name, table_name";

/// The first geometry column of a table; its parameters are the schema and the table.
pub const FIRST_GEOMETRY_COLUMN_SQL: &'static str = "\n        SELECT column_name\n        FROM duckdb_columns()\n        WHERE schema_name = ?\n           AND table_name = ?\n           AND upper(data_type) LIKE '%GEOMETRY%'\n        ORDER BY column_index\n        LIMIT 1";

/// The catalog query: for one table where both names are given, else for all.
pub open spec fn geometry_tables_sql(filtered: bool) -> Seq<char> {
    let tail = GEOMETRY_TABLES_GROUP_SQL@ + GEOMETRY_TABLES_HAVING_SQL@ + GEOMETRY_TABLES_ORDER_SQL@;
    if filtered {
        GEOMETRY_TABLES_SELECT_SQL@ + GEOMETRY_TABLES_FILTER_SQL@ + tail
    } else {
        GEOMETRY_TABLES_SELECT_SQL@ + tail
    }
}

/// Builds the SQL query for geometry tables; the flag says whether the query
/// takes the schema and table as parameters.
pub fn build_query_geometry_tables_sql(schema_name: Option<&str>, table_name: Option<&str>) -> (r: (
    String,
    bool,
))
    ensures
        r.1 == (schema_name is Some && table_name is Some),
        r.0@ == geometry_tables_sql(r.1),
{
    let mut sql = String::from_str(GEOMETRY_TABLES_SELECT_SQL);
    let mut has_params = false;
    if schema_name.is_some() && table_name.is_some() {
        sql.append(GEOMETRY_TABLES_FILTER_SQL);
        has_params = true;
    }
    sql.append(GEOMETRY_TABLES_GROUP_SQL);
    sql.append(GEOMETRY_TABLES_HAVING_SQL);
    sql.append(GEOMETRY_TABLES_ORDER_SQL);
    (sql, has_params)
}

/// Every catalog query, for all tables or for one, lists only tables that have
/// a geometry column, one row per table, ordered by database, schema and table;
/// its rows hold the database, schema and table names, then the non-geometry
/// columns, then the geometry columns.
pub proof fn law_catalog_lists_geometry_tables(filtered: bool)
    ensures
        contains_text(
            geometry_tables_sql(filtered),
            "\n        GROUP BY database_name, schema_name, table_name\n        HAVING COUNT(*) FILTER (WHERE upper(data_type) LIKE '%GEOMETRY%') > 0\n        ORDER BY database_name, schema_name, table_name"@,
        ),
        starts_with_text(
            geometry_tables_sql(filtered),
            "\n        SELECT\n            database_name,\n            schema_name,\n            table_name,\n            STRING_AGG(DISTINCT column_name, ',')\n                FILTER (WHERE upper(data_type) NOT LIKE '%GEOMETRY%') AS properties,\n            STRING_AGG(DISTINCT column_name, ',')\n                FILTER (WHERE upper(data_type) LIKE '%GEOMETRY%') AS geometry_columns\n        FROM duckdb_columns()"@,
        ),
{
    let select = GEOMETRY_TABLES_SELECT_SQL@;
    let group = GEOMETRY_TABLES_GROUP_SQL@ + GEOMETRY_TABLES_HAVING_SQL@ + GEOMETRY_TABLES_ORDER_SQL@;
    assert(group == "\n        GROUP BY database_name, schema_name, table_name\n        HAVING COUNT(*) FILTER (WHERE upper(data_type) LIKE '%GEOMETRY%') > 0\n        ORDER BY database_name, schema_name, table_name"@) by {
        reveal_strlit("\n        GROUP BY database_name, schema_name, table_name");
        reveal_strlit("\n        HAVING COUNT(*) FILTER (WHERE upper(data_type) LIKE '%GEOMETRY%') > 0");
        reveal_strlit("\n        ORDER BY database_name, schema_name, table_name");
        reveal_strlit("\n        GROUP BY database_name, schema_name, table_name\n        HAVING COUNT(*) FILTER (WHERE upper(data_type) LIKE '%GEOMETRY%') > 0\n        ORDER BY database_name, schema_name, table_name");
        assert(group =~= "\n        GROUP BY database_name, schema_name, table_name\n        HAVING COUNT(*) FILTER (WHERE upper(data_type) LIKE '%GEOMETRY%') > 0\n        ORDER BY database_name, schema_name, table_name"@);
    }
    let empty = Seq::<char>::empty();
    if filtered {
        let a = select + GEOMETRY_TABLES_FILTER_SQL@;
        assert(a + group + empty =~= geometry_tables_sql(filtered));
        assert(select + (GEOMETRY_TABLES_FILTER_SQL@ + group) =~= geometry_tables_sql(filtered));
    } else {
        assert(select + group + empty =~= geometry_tables_sql(filtered));
        assert(select + group =~= geometry_tables_sql(filtered));
    }
}

/// The query for one table is the query for all tables with the filter on
/// schema and table, in that order of parameters, before its grouping.
pub proof fn law_catalog_filter_narrows_listing()
    ensures
        exists|a: Seq<char>, b: Seq<char>|
            #![trigger a + b]
            a + b == geometry_tables_sql(false) && a
                + " WHERE schema_name = ? AND table_name = ?"@ + b == geometry_tables_sql(true)
                && starts_with_text(b, "\n        GROUP BY"@),
{
    let a = GEOMETRY_TABLES_SELECT_SQL@;
    let b = GEOMETRY_TABLES_GROUP_SQL@ + GEOMETRY_TABLES_HAVING_SQL@ + GEOMETRY_TABLES_ORDER_SQL@;
    assert(a + b =~= geometry_tables_sql(false));
    assert(a + " WHERE schema_name = ? AND table_name = ?"@ + b =~= geometry_tables_sql(true));
    reveal_strlit("\n        GROUP BY database_name, schema_name, table_name");
    reveal_strlit("\n        GROUP BY");
    let rest = b.subrange(17, b.len() as int);
    assert("\n        GROUP BY"@ + rest =~= b);
}

/// The query for the extent of the geometries in one column of a table,
/// given the quoted column `g` and the quoted table `t`.
pub open spec fn extent_sql(g: Seq<char>, t: Seq<char>) -> Seq<char> {
    "\n        SELECT \n            "@
    + "MIN(ST_XMin("@
    + g
    + ")) AS xmin"@
    + ", \n            "@
    + "MIN(ST_YMin("@
    + g
    + ")) AS ymin"@
    + ", \n            "@
    + "MAX(ST_XMax("@
    + g
    + ")) AS xmax"@
    + ", \n            "@
    + "MAX(ST_YMax("@
    + g
    + ")) AS ymax"@
    + "\n        "@
    + "FROM "@
    + t
    + "\n        WHERE "@
    + g
    + " IS NOT NULL"@
    + "\n        AND ST_IsEmpty("@
    + g
    + ") = FALSE\n        AND ST_XMin("@
    + g
    + ") != 0\n        AND ST_YMin("@
    + g
    + ") != 0\n        AND ST_XMax("@
    + g
    + ") != 0\n        AND ST_YMax("@
    + g
    + ") != 0"@
}

/// Builds the query for the extent of a geometry column: the minimum and
/// maximum coordinates over its non-empty geometries.
pub fn build_extent_sql(table_ref: &TableRef, geometry_column: &str) -> (r: String)
    ensures
        r@ == extent_sql(
            quoted(geometry_column@),
            table_ref_quoted_text(table_ref.schema_name@, table_ref.table_name@),
        ),
{
    let quoted_table = table_ref.to_quoted_string();
    let quoted_geom = quote_identifier(geometry_column);
    let mut sql = String::from_str("\n        SELECT \n            ");
    sql.append("MIN(ST_XMin(");
    sql.append(quoted_geom.as_str());
    sql.append(")) AS xmin");
    sql.append(", \n            ");
    sql.append("MIN(ST_YMin(");
    sql.append(quoted_geom.as_str());
    sql.append(")) AS ymin");
    sql.append(", \n            ");
    sql.append("MAX(ST_XMax(");
    sql.append(quoted_geom.as_str());
    sql.append(")) AS xmax");
    sql.append(", \n            ");
    sql.append("MAX(ST_YMax(");
    sql.append(quoted_geom.as_str());
    sql.append(")) AS ymax");
    sql.append("\n        ");
    sql.append("FROM ");
    sql.append(quoted_table.as_str());
    sql.append("\n        WHERE ");
    sql.append(quoted_geom.as_str());
    sql.append(" IS NOT NULL");
    sql.append("\n        AND ST_IsEmpty(");
    sql.append(quoted_geom.as_str());
    sql.append(") = FALSE\n        AND ST_XMin(");
    sql.append(quoted_geom.as_str());
    sql.append(") != 0\n        AND ST_YMin(");
    sql.append(quoted_geom.as_str());
    sql.append(") != 0\n        AND ST_XMax(");
    sql.append(quoted_geom.as_str());
    sql.append(") != 0\n        AND ST_YMax(");
    sql.append(quoted_geom.as_str());
    sql.append(") != 0");
    sql
}

spec fn extent_rest(g: Seq<char>) -> Seq<char> {
    "\n        AND ST_IsEmpty("@ + g + ") = FALSE\n        AND ST_XMin("@ + g + ") != 0\n        AND ST_YMin("@
        + g + ") != 0\n        AND ST_XMax("@ + g + ") != 0\n        AND ST_YMax("@ + g
        + ") != 0"@
}

/// `extent_sql` in five parts: the four aggregates, then the table and filter.
proof fn lemma_extent_parts(g: Seq<char>, t: Seq<char>)
    ensures
        extent_sql(g, t) == "\n        SELECT \n            "@ + ("MIN(ST_XMin("@ + g + ")) AS xmin"@)
            + ", \n            "@ + ("MIN(ST_YMin("@ + g + ")) AS ymin"@) + ", \n            "@
            + ("MAX(ST_XMax("@ + g + ")) AS xmax"@) + ", \n            "@ + ("MAX(ST_YMax("@ + g
            + ")) AS ymax"@) + "\n        "@ + ("FROM "@ + t + "\n        WHERE "@ + g
            + " IS NOT NULL"@) + extent_rest(g),
{
    assert(extent_sql(g, t) =~= "\n        SELECT \n            "@ + ("MIN(ST_XMin("@ + g
        + ")) AS xmin"@) + ", \n            "@ + ("MIN(ST_YMin("@ + g + ")) AS ymin"@)
        + ", \n            "@ + ("MAX(ST_XMax("@ + g + ")) AS xmax"@) + ", \n            "@
        + ("MAX(ST_YMax("@ + g + ")) AS ymax"@) + "\n        "@ + ("FROM "@ + t
        + "\n        WHERE "@ + g + " IS NOT NULL"@) + extent_rest(g));
}

/// The extent query reads the table `t` and measures the column `g`: the
/// smallest lower x and y edges and the largest upper x and y edges over the
/// rows whose geometry is not NULL, not empty, and has no edge at 0.
pub proof fn law_extent_query_measures_column(g: Seq<char>, t: Seq<char>)
    ensures
        contains_text(extent_sql(g, t), "MIN(ST_XMin("@ + g + ")) AS xmin"@),
        contains_text(extent_sql(g, t), "MIN(ST_YMin("@ + g + ")) AS ymin"@),
        contains_text(extent_sql(g, t), "MAX(ST_XMax("@ + g + ")) AS xmax"@),
        contains_text(extent_sql(g, t), "MAX(ST_YMax("@ + g + ")) AS ymax"@),
        contains_text(extent_sql(g, t), "FROM "@ + t + "\n        WHERE "@ + g + " IS NOT NULL"@),
        ends_with_text(
            extent_sql(g, t),
            "\n        AND ST_IsEmpty("@ + g + ") = FALSE\n        AND ST_XMin("@ + g
                + ") != 0\n        AND ST_YMin("@ + g + ") != 0\n        AND ST_XMax("@ + g
                + ") != 0\n        AND ST_YMax("@ + g + ") != 0"@,
        ),
{
    lemma_extent_parts(g, t);
    let p = seq![
        "\n        SELECT \n            "@,
        "MIN(ST_XMin("@ + g + ")) AS xmin"@,
        ", \n            "@,
        "MIN(ST_YMin("@ + g + ")) AS ymin"@,
        ", \n            "@,
        "MAX(ST_XMax("@ + g + ")) AS xmax"@,
        ", \n            "@,
        "MAX(ST_YMax("@ + g + ")) AS ymax"@,
        "\n        "@,
        "FROM "@ + t + "\n        WHERE "@ + g + " IS NOT NULL"@,
        extent_rest(g),
    ];
    assert(extent_sql(g, t) == concat_all(p)) by {
        reveal_with_fuel(concat_all, 12);
    }
    lemma_concat_all_contains(p, 1);
    lemma_concat_all_contains(p, 3);
    lemma_concat_all_contains(p, 5);
    lemma_concat_all_contains(p, 7);
    lemma_concat_all_contains(p, 9);
    lemma_concat_all_split(p, 10);
    assert(p.subrange(10, 11) =~= seq![extent_rest(g)]);
    assert(concat_all(seq![extent_rest(g)]) == extent_rest(g)) by {
        reveal_with_fuel(concat_all, 2);
        assert(seq![extent_rest(g)].drop_last() =~= Seq::<Seq<char>>::empty());
        assert(Seq::<char>::empty() + extent_rest(g) =~= extent_rest(g));
    }
    assert(concat_all(p.subrange(0, 10)) + extent_rest(g) == extent_sql(g, t));
}

/// The first-geometry-column query asks the catalog, with the schema and then
/// the table as parameters, for the geometry-typed columns of that table in
/// column order, and keeps the first.
pub proof fn law_first_geometry_column_query()
    ensures
        starts_with_text(FIRST_GEOMETRY_COLUMN_SQL@, "\n        SELECT column_name\n        FROM duckdb_columns()"@),
        contains_text(FIRST_GEOMETRY_COLUMN_SQL@, "\n        WHERE schema_name = ?\n           AND table_name = ?\n           AND upper(data_type) LIKE '%GEOMETRY%'"@),
        ends_with_text(FIRST_GEOMETRY_COLUMN_SQL@, "\n        ORDER BY column_index\n        LIMIT 1"@),
{
    reveal_strlit("\n        SELECT column_name\n        FROM duckdb_columns()\n        WHERE schema_name = ?\n           AND table_name = ?\n           AND upper(data_type) LIKE '%GEOMETRY%'");
    reveal_strlit("\n        WHERE schema_name = ?\n           AND table_name = ?\n           AND upper(data_type) LIKE '%GEOMETRY%'\n        ORDER BY column_index\n        LIMIT 1");
    reveal_strlit("\n        ORDER BY column_index\n        LIMIT 1");
    reveal_strlit("\n        SELECT column_name\n        FROM duckdb_columns()");
    reveal_strlit("\n        SELECT column_name\n        FROM duckdb_columns()\n        WHERE schema_name = ?\n           AND table_name = ?\n           AND upper(data_type) LIKE '%GEOMETRY%'\n        ORDER BY column_index\n        LIMIT 1");
    reveal_strlit("\n        WHERE schema_name = ?\n           AND table_name = ?\n           AND upper(data_type) LIKE '%GEOMETRY%'");
    assert("\n        SELECT column_name\n        FROM duckdb_columns()"@ + "\n        WHERE schema_name = ?\n           AND table_name = ?\n           AND upper(data_type) LIKE '%GEOMETRY%'\n        ORDER BY column_index\n        LIMIT 1"@ == FIRST_GEOMETRY_COLUMN_SQL@) by {
        assert("\n        SELECT column_name\n        FROM duckdb_columns()"@ + "\n        WHERE schema_name = ?\n           AND table_name = ?\n           AND upper(data_type) LIKE '%GEOMETRY%'\n        ORDER BY column_index\n        LIMIT 1"@ =~= FIRST_GEOMETRY_COLUMN_SQL@);
    }
    assert("\n        SELECT column_name\n        FROM duckdb_columns()"@ + "\n        WHERE schema_name = ?\n           AND table_name = ?\n           AND upper(data_type) LIKE '%GEOMETRY%'"@ + "\n        ORDER BY column_index\n        LIMIT 1"@ == FIRST_GEOMETRY_COLUMN_SQL@) by {
        assert("\n        SELECT column_name\n        FROM duckdb_columns()"@ + "\n        WHERE schema_name = ?\n           AND table_name = ?\n           AND upper(data_type) LIKE '%GEOMETRY%'"@ + "\n        ORDER BY column_index\n        LIMIT 1"@ =~= FIRST_GEOMETRY_COLUMN_SQL@);
    }
    assert("\n        SELECT column_name\n        FROM duckdb_columns()\n        WHERE schema_name = ?\n           AND table_name = ?\n           AND upper(data_type) LIKE '%GEOMETRY%'"@ + "\n        ORDER BY column_index\n        LIMIT 1"@ == FIRST_GEOMETRY_COLUMN_SQL@) by {
        assert("\n        SELECT column_name\n        FROM duckdb_columns()\n        WHERE schema_name = ?\n           AND table_name = ?\n           AND upper(data_type) LIKE '%GEOMETRY%'"@ + "\n        ORDER BY column_index\n        LIMIT 1"@ =~= FIRST_GEOMETRY_COLUMN_SQL@);
    }
}

/// The existence query counts the catalog's columns of the table, with the
/// schema and then the table as parameters, whatever their type.
pub proof fn law_table_exists_query()
    ensures
        starts_with_text(TABLE_EXISTS_SQL@, "\n        SELECT COUNT(*) > 0\n        FROM duckdb_columns()"@),
        ends_with_text(TABLE_EXISTS_SQL@, "\n        WHERE schema_name = ?\n           AND table_name = ?"@),
{
    reveal_strlit("\n        SELECT COUNT(*) > 0\n        FROM duckdb_columns()");
    reveal_strlit("\n        SELECT COUNT(*) > 0\n        FROM duckdb_columns()\n        WHERE schema_name = ?\n           AND table_name = ?");
    reveal_strlit("\n        WHERE schema_name = ?\n           AND table_name = ?");
    assert("\n        SELECT COUNT(*) > 0\n        FROM duckdb_columns()"@ + "\n        WHERE schema_name = ?\n           AND table_name = ?"@ == TABLE_EXISTS_SQL@) by {
        assert("\n        SELECT COUNT(*) > 0\n        FROM duckdb_columns()"@ + "\n        WHERE schema_name = ?\n           AND table_name = ?"@ =~= TABLE_EXISTS_SQL@);
    }
    assert("\n        SELECT COUNT(*) > 0\n        FROM duckdb_columns()"@ + "\n        WHERE schema_name = ?\n           AND table_name = ?"@ == TABLE_EXISTS_SQL@) by {
        assert("\n        SELECT COUNT(*) > 0\n        FROM duckdb_columns()"@ + "\n        WHERE schema_name = ?\n           AND table_name = ?"@ =~= TABLE_EXISTS_SQL@);
    }
}

} // verus!
