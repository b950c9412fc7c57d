//! Data store layer: the SQL text and the parsing of what DuckDB returns.
//! The queries themselves run outside this crate; everything that decides
//! what is asked and how the answers are read stands here.
pub mod errors;
pub mod tables;
pub mod tiles;

use crate::text::{
    chars_of, join, join_strings, lemma_split_append, lemma_split_len, same_text,
    skip_end, skip_start, split, split_ranges, to_uppercase, trim_both, trim_end, trim_range,
    trim_start, uppercase_of, TrimPattern,
};
use vstd::prelude::*;

verus! {

/// The view of an optional text.
pub open spec fn opt_view(o: Option<&str>) -> Option<Seq<char>> {
    match o {
        Some(s) => Some(s@),
        None => None,
    }
}

// ---------------------------------------------------------------------------
// Table identifiers
// ---------------------------------------------------------------------------

/// `schema.table`: the two pieces of a text with exactly one dot.
pub open spec fn parse_table_ref_spec(s: Seq<char>) -> Option<(Seq<char>, Seq<char>)> {
    let parts = split(s, '.');
    if parts.len() == 2 {
        Some((parts[0], parts[1]))
    } else {
        None
    }
}

/// Parses a table identifier into schema and table names: the text must hold
/// exactly one `.`; either side may be empty.
pub fn parse_table_ref(table_string: String) -> (r: Option<(String, String)>)
    ensures
        match r {
            Some((a, b)) => parse_table_ref_spec(table_string@) == Some((a@, b@)),
            None => parse_table_ref_spec(table_string@) is None,
        },
{
    let s = table_string.as_str();
    let cs = chars_of(s);
    let n = cs.len();
    let ranges = split_ranges(&cs, 0, n, '.');
    assert(cs@.subrange(0, n as int) =~= cs@);
    if ranges.len() != 2 {
        return None;
    }
    let (a0, a1) = ranges[0];
    let (b0, b1) = ranges[1];
    let schema = String::from_str(s.substring_char(a0, a1));
    let table = String::from_str(s.substring_char(b0, b1));
    Some((schema, table))
}

// ---------------------------------------------------------------------------
// Identifier quoting
// ---------------------------------------------------------------------------

/// `s` with every `q` doubled.
pub open spec fn escape_quotes(s: Seq<char>, q: char) -> Seq<char>
    decreases s.len(),
{
    if s.len() == 0 {
        Seq::<char>::empty()
    } else if s.last() == q {
        escape_quotes(s.drop_last(), q) + seq![q, q]
    } else {
        escape_quotes(s.drop_last(), q).push(s.last())
    }
}

/// `s` between two `q`, with every `q` inside doubled.
pub open spec fn quote_with(s: Seq<char>, q: char) -> Seq<char> {
    seq![q] + escape_quotes(s, q) + seq![q]
}

/// `s` as a quoted SQL identifier.
pub open spec fn quoted(s: Seq<char>) -> Seq<char> {
    quote_with(s, '"')
}

/// `s` as an SQL string literal.
pub open spec fn sql_literal(s: Seq<char>) -> Seq<char> {
    quote_with(s, '\'')
}

/// Wraps `s` in the quote character `q` (`"` or `'`) and doubles each `q` inside.
fn quote_text(s: &str, q: char) -> (r: String)
    requires
        q == '"' || q == '\'',
    ensures
        r@ == quote_with(s@, q),
{
    let cs = chars_of(s);
    let n = cs.len();
    let single: &str;
    let double: &str;
    if q == '"' {
        proof {
            reveal_strlit("\"");
            reveal_strlit("\"\"");
        }
        single = "\"";
        double = "\"\"";
    } else {
        proof {
            reveal_strlit("'");
            reveal_strlit("''");
        }
        single = "'";
        double = "''";
    }
    let mut r = String::from_str(single);
    let mut st: usize = 0;
    let mut i: usize = 0;
    assert(cs@.take(0) =~= Seq::<char>::empty());
    assert(cs@.subrange(0, 0) =~= Seq::<char>::empty());
    while i < n
        invariant
            0 <= st <= i <= n,
            n == cs.len(),
            cs@ == s@,
            single@ == seq![q],
            double@ == seq![q, q],
            r@ + cs@.subrange(st as int, i as int) == seq![q] + escape_quotes(
                cs@.take(i as int),
                q,
            ),
        decreases n - i,
    {
        let c = cs[i];
        assert(cs@.take(i + 1).drop_last() =~= cs@.take(i as int));
        assert(cs@.take(i + 1).last() == c);
        let ghost old_r = r@;
        let ghost old_piece = cs@.subrange(st as int, i as int);
        if c == q {
            assert(escape_quotes(cs@.take(i + 1), q) == escape_quotes(cs@.take(i as int), q)
                + seq![q, q]);
            let piece = s.substring_char(st, i);
            r.append(piece);
            r.append(double);
            assert(piece@ == old_piece);
            assert(r@ == old_r + old_piece + seq![q, q]);
            st = i + 1;
            assert(cs@.subrange(st as int, i + 1) =~= Seq::<char>::empty());
            assert(r@ + cs@.subrange(st as int, i + 1) =~= old_r + old_piece + seq![q, q]);
            assert(r@ + cs@.subrange(st as int, i + 1) =~= seq![q] + escape_quotes(
                cs@.take(i + 1),
                q,
            ));
        } else {
            assert(escape_quotes(cs@.take(i + 1), q) == escape_quotes(cs@.take(i as int), q).push(
                c,
            ));
            assert(cs@.subrange(st as int, i + 1) =~= cs@.subrange(st as int, i as int).push(c));
            assert(r@ + cs@.subrange(st as int, i + 1) =~= (old_r + old_piece).push(c));
            assert(r@ + cs@.subrange(st as int, i + 1) =~= seq![q] + escape_quotes(
                cs@.take(i + 1),
                q,
            ));
        }
        i = i + 1;
    }
    let tail = s.substring_char(st, n);
    r.append(tail);
    r.append(single);
    assert(cs@.take(n as int) =~= cs@);
    assert(r@ =~= quote_with(s@, q));
    r
}

/// Quotes an identifier for SQL: wraps it in `"` and doubles each `"` inside.
pub fn quote_identifier(s: &str) -> (r: String)
    ensures
        r@ == quoted(s@),
{
    quote_text(s, '"')
}

/// Quotes a text as an SQL string literal: wraps it in `'` and doubles each `'` inside.
pub fn quote_literal(s: &str) -> (r: String)
    ensures
        r@ == sql_literal(s@),
{
    quote_text(s, '\'')
}

pub proof fn lemma_escape_len(s: Seq<char>, q: char)
    ensures
        escape_quotes(s, q).len() >= s.len(),
    decreases s.len(),
{
    if s.len() > 0 {
        lemma_escape_len(s.drop_last(), q);
    }
}

/// Doubling quotes loses nothing: different texts escape differently.
pub proof fn lemma_escape_injective(a: Seq<char>, b: Seq<char>, q: char)
    requires
        escape_quotes(a, q) == escape_quotes(b, q),
    ensures
        a == b,
    decreases a.len(),
{
    lemma_escape_len(a, q);
    lemma_escape_len(b, q);
    if a.len() == 0 {
        assert(b.len() == 0);
        assert(a =~= b);
    } else {
        assert(b.len() > 0);
        let ea = escape_quotes(a.drop_last(), q);
        let eb = escape_quotes(b.drop_last(), q);
        let e = escape_quotes(a, q);
        if a.last() == q {
            assert(e.last() == q);
            if b.last() != q {
                assert(e.last() == b.last());
            }
            assert(ea =~= e.subrange(0, e.len() - 2));
            assert(eb =~= e.subrange(0, e.len() - 2));
        } else {
            assert(e.last() == a.last());
            if b.last() == q {
                assert(e.last() == q);
            }
            assert(ea =~= e.drop_last());
            assert(eb =~= e.drop_last());
        }
        lemma_escape_injective(a.drop_last(), b.drop_last(), q);
        assert(a =~= a.drop_last().push(a.last()));
        assert(b =~= b.drop_last().push(b.last()));
    }
}

/// Quoting is injective: two identifiers that quote to the same SQL text are
/// the same identifier, so a quoted name always refers to the name given.
pub proof fn law_quote_identifier_injective(a: Seq<char>, b: Seq<char>)
    requires
        quoted(a) == quoted(b),
    ensures
        a == b,
{
    let qa = quoted(a);
    assert(escape_quotes(a, '"') =~= qa.subrange(1, qa.len() - 1));
    assert(escape_quotes(b, '"') =~= qa.subrange(1, qa.len() - 1));
    lemma_escape_injective(a, b, '"');
}

// ---------------------------------------------------------------------------
// SELECT lists and MVT struct fields
// ---------------------------------------------------------------------------

/// One entry of a SELECT list: `alias.col AS col`, or `col` without an alias.
pub open spec fn select_column(col: Seq<char>, alias: Option<Seq<char>>) -> Seq<char> {
    match alias {
        Some(a) => a + seq!['.'] + col + " AS "@ + col,
        None => col,
    }
}

/// The SELECT list for `columns`, entries separated by `separator`.
pub open spec fn select_columns(
    columns: Seq<Seq<char>>,
    alias: Option<Seq<char>>,
    separator: Seq<char>,
) -> Seq<char> {
    join(columns.map_values(|c: Seq<char>| select_column(c, alias)), separator)
}

/// Formats a list of columns as a SELECT clause, e.g. `t.id AS id,\nt.name AS name`
/// for the columns `id`, `name`, the alias `t` and the separator `,\n`.
pub fn format_select_columns(columns: &[String], table_alias: Option<&str>, separator: &str) -> (r:
    String)
    ensures
        r@ == select_columns(
            columns@.map_values(|c: String| c@),
            opt_view(table_alias),
            separator@,
        ),
{
    let ghost cols = columns@.map_values(|c: String| c@);
    let ghost alias = opt_view(table_alias);
    if columns.len() == 0 {
        assert(cols.map_values(|c: Seq<char>| select_column(c, alias)) =~= Seq::<
            Seq<char>,
        >::empty());
        return String::new();
    }
    let mut items: Vec<String> = Vec::new();
    let mut i: usize = 0;
    while i < columns.len()
        invariant
            0 <= i <= columns.len(),
            cols == columns@.map_values(|c: String| c@),
            alias == opt_view(table_alias),
            items.len() == i,
            forall|k: int| 0 <= k < i ==> (#[trigger] items@[k])@ == select_column(cols[k], alias),
        decreases columns.len() - i,
    {
        let col = columns[i].as_str();
        let item = match table_alias {
            Some(a) => {
                let mut e = String::from_str(a);
                proof {
                    reveal_strlit(".");
                }
                e.append(".");
                e.append(col);
                e.append(" AS ");
                e.append(col);
                e
            },
            None => String::from_str(col),
        };
        items.push(item);
        i = i + 1;
    }
    let r = join_strings(&items, separator);
    assert(items@.map_values(|p: String| p@) =~= cols.map_values(
        |c: Seq<char>| select_column(c, alias),
    ));
    r
}

/// The column types that ST_AsMVT takes as they are; every other type is cast to VARCHAR.
pub open spec fn is_mvt_native_type(upper: Seq<char>) -> bool {
    ||| upper == "VARCHAR"@
    ||| upper == "TEXT"@
    ||| upper == "STRING"@
    ||| upper == "FLOAT"@
    ||| upper == "DOUBLE"@
    ||| upper == "REAL"@
    ||| upper == "INTEGER"@
    ||| upper == "INT"@
    ||| upper == "BIGINT"@
    ||| upper == "BOOLEAN"@
    ||| upper == "BOOL"@
}

/// Whether a column of type `data_type` needs a cast to VARCHAR for ST_AsMVT;
/// the type name is compared after uppercasing.
pub open spec fn needs_varchar_cast(data_type: Seq<char>) -> bool {
    !is_mvt_native_type(uppercase_of(data_type))
}

/// One STRUCT_PACK field for a property column.
pub open spec fn struct_field(name: Seq<char>, data_type: Seq<char>) -> Seq<char> {
    if needs_varchar_cast(data_type) {
        name + ":=CAST("@ + quoted(name) + " AS VARCHAR)"@
    } else {
        name + ":="@ + quoted(name)
    }
}

/// The STRUCT_PACK fields: the geometry first, then each property column.
pub open spec fn struct_fields(props: Seq<(Seq<char>, Seq<char>)>, geometry_expr: Seq<char>) -> Seq<
    char,
> {
    let geom = "geom:="@ + geometry_expr;
    if props.len() == 0 {
        geom
    } else {
        geom + ", "@ + join(
            props.map_values(|p: (Seq<char>, Seq<char>)| struct_field(p.0, p.1)),
            ", "@,
        )
    }
}

pub open spec fn column_pair_view(p: (String, String)) -> (Seq<char>, Seq<char>) {
    (p.0@, p.1@)
}

/// Whether an uppercased type name is one that ST_AsMVT takes as it is.
pub fn is_native_type_name(upper: &str) -> (b: bool)
    ensures
        b == is_mvt_native_type(upper@),
{
    same_text(upper, "VARCHAR") || same_text(upper, "TEXT") || same_text(upper, "STRING")
        || same_text(upper, "FLOAT") || same_text(upper, "DOUBLE") || same_text(upper, "REAL")
        || same_text(upper, "INTEGER") || same_text(upper, "INT") || same_text(upper, "BIGINT")
        || same_text(upper, "BOOLEAN") || same_text(upper, "BOOL")
}

/// Formats the STRUCT_PACK fields for ST_AsMVT, e.g. `geom:=g, name:="name"`;
/// a property whose type ST_AsMVT does not take (DATE, TIMESTAMP, ...) is cast to VARCHAR.
pub fn format_struct_fields(property_columns: &[(String, String)], geometry_expr: &str) -> (r:
    String)
    ensures
        r@ == struct_fields(
            property_columns@.map_values(|p: (String, String)| column_pair_view(p)),
            geometry_expr@,
        ),
{
    let ghost props = property_columns@.map_values(|p: (String, String)| column_pair_view(p));
    let mut geom_field = String::from_str("geom:=");
    geom_field.append(geometry_expr);
    if property_columns.len() == 0 {
        return geom_field;
    }
    let mut fields: Vec<String> = Vec::new();
    let mut i: usize = 0;
    while i < property_columns.len()
        invariant
            0 <= i <= property_columns.len(),
            props == property_columns@.map_values(|p: (String, String)| column_pair_view(p)),
            fields.len() == i,
            forall|k: int|
                0 <= k < i ==> (#[trigger] fields@[k])@ == struct_field(props[k].0, props[k].1),
        decreases property_columns.len() - i,
    {
        let name = property_columns[i].0.as_str();
        let data_type = property_columns[i].1.as_str();
        let quoted_col = quote_identifier(name);
        let upper = to_uppercase(data_type);
        let native = is_native_type_name(upper.as_str());
        let mut field = String::from_str(name);
        if native {
            field.append(":=");
            field.append(quoted_col.as_str());
        } else {
            field.append(":=CAST(");
            field.append(quoted_col.as_str());
            field.append(" AS VARCHAR)");
        }
        fields.push(field);
        i = i + 1;
    }
    let joined = join_strings(&fields, ", ");
    assert(fields@.map_values(|p: String| p@) =~= props.map_values(
        |p: (Seq<char>, Seq<char>)| struct_field(p.0, p.1),
    ));
    let mut r = geom_field;
    r.append(", ");
    r.append(joined.as_str());
    r
}

// ---------------------------------------------------------------------------
// DuckDB LIST strings
// ---------------------------------------------------------------------------

/// One item of a list string, trimmed of whitespace, then of `'`, then of `"`.
pub open spec fn list_item(item: Seq<char>) -> Seq<char> {
    trim_both(
        trim_both(trim_both(item, TrimPattern::Whitespace), TrimPattern::Char('\'')),
        TrimPattern::Char('"'),
    )
}

/// The non-empty texts of `items`, in order.
pub open spec fn nonempty_items(items: Seq<Seq<char>>) -> Seq<Seq<char>>
    decreases items.len(),
{
    if items.len() == 0 {
        Seq::<Seq<char>>::empty()
    } else if items.last().len() > 0 {
        nonempty_items(items.drop_last()).push(items.last())
    } else {
        nonempty_items(items.drop_last())
    }
}

/// The items of a list string such as `['a', 'b']` or `a,b`: without the
/// leading `[` and trailing `]`, split at commas, each item cleaned, empty ones dropped.
pub open spec fn list_items(s: Seq<char>) -> Seq<Seq<char>> {
    let inner = trim_end(trim_start(s, TrimPattern::Char('[')), TrimPattern::Char(']'));
    nonempty_items(split(inner, ',').map_values(|x: Seq<char>| list_item(x)))
}

/// Parses a DuckDB LIST string representation, `['value1', 'value2']` or
/// plain comma-separated values, into its items.
pub fn parse_list_string(s: &str) -> (r: Vec<String>)
    ensures
        r@.map_values(|x: String| x@) == list_items(s@),
{
    let cs = chars_of(s);
    let n = cs.len();
    let lo = skip_start(&cs, 0, n, TrimPattern::Char('['));
    let hi = skip_end(&cs, lo, n, TrimPattern::Char(']'));
    assert(cs@.subrange(0, n as int) =~= s@);
    let ghost pieces = split(cs@.subrange(lo as int, hi as int), ',');
    let ghost cleaned = pieces.map_values(|x: Seq<char>| list_item(x));
    let ranges = split_ranges(&cs, lo, hi, ',');
    let mut out: Vec<String> = Vec::new();
    let mut k: usize = 0;
    assert(cleaned.take(0) =~= Seq::<Seq<char>>::empty());
    while k < ranges.len()
        invariant
            0 <= k <= ranges.len(),
            ranges.len() == pieces.len(),
            cleaned == pieces.map_values(|x: Seq<char>| list_item(x)),
            pieces == split(cs@.subrange(lo as int, hi as int), ','),
            cs@ == s@,
            forall|j: int|
                0 <= j < ranges.len() ==> lo <= (#[trigger] ranges[j]).0 <= ranges[j].1 <= hi
                    && cs@.subrange(ranges[j].0 as int, ranges[j].1 as int) == pieces[j],
            hi <= cs.len(),
            out@.map_values(|x: String| x@) == nonempty_items(cleaned.take(k as int)),
        decreases ranges.len() - k,
    {
        let (a, b) = ranges[k];
        let (a1, b1) = trim_range(&cs, a, b, TrimPattern::Whitespace);
        let (a2, b2) = trim_range(&cs, a1, b1, TrimPattern::Char('\''));
        let (a3, b3) = trim_range(&cs, a2, b2, TrimPattern::Char('"'));
        assert(cs@.subrange(a3 as int, b3 as int) == cleaned[k as int]);
        assert(cleaned.take(k + 1).drop_last() =~= cleaned.take(k as int));
        assert(cleaned.take(k + 1).last() == cleaned[k as int]);
        let ghost before = out@;
        if a3 < b3 {
            let item = String::from_str(s.substring_char(a3, b3));
            out.push(item);
            assert(out@.map_values(|x: String| x@) =~= before.map_values(|x: String| x@).push(
                item@,
            ));
        }
        k = k + 1;
    }
    assert(cleaned.take(k as int) =~= cleaned);
    out
}


proof fn lemma_nonempty_items(items: Seq<Seq<char>>)
    ensures
        forall|i: int|
            0 <= i < nonempty_items(items).len() ==> (#[trigger] nonempty_items(items)[i]).len()
                > 0,
    decreases items.len(),
{
    if items.len() > 0 {
        let pre = nonempty_items(items.drop_last());
        lemma_nonempty_items(items.drop_last());
        if items.last().len() > 0 {
            let r = pre.push(items.last());
            assert forall|i: int| 0 <= i < r.len() implies (#[trigger] r[i]).len() > 0 by {
                if i < pre.len() {
                    assert(r[i] == pre[i]);
                }
            }
        }
    }
}

/// Every item of a parsed list string is non-empty.
pub proof fn law_list_items_nonempty(s: Seq<char>)
    ensures
        forall|i: int| 0 <= i < list_items(s).len() ==> (#[trigger] list_items(s)[i]).len() > 0,
{
    let inner = trim_end(trim_start(s, TrimPattern::Char('[')), TrimPattern::Char(']'));
    lemma_nonempty_items(split(inner, ',').map_values(|x: Seq<char>| list_item(x)));
}

proof fn lemma_nonempty_items_identity(items: Seq<Seq<char>>)
    requires
        forall|i: int| 0 <= i < items.len() ==> (#[trigger] items[i]).len() > 0,
    ensures
        nonempty_items(items) == items,
    decreases items.len(),
{
    if items.len() > 0 {
        lemma_nonempty_items_identity(items.drop_last());
        assert(items.drop_last().push(items.last()) =~= items);
    }
}

/// Splitting what was joined with a separator that no piece holds gives the pieces back.
pub proof fn lemma_split_join(items: Seq<Seq<char>>, c: char)
    requires
        items.len() >= 1,
        forall|i: int| 0 <= i < items.len() ==> !(#[trigger] items[i]).contains(c),
    ensures
        split(join(items, seq![c]), c) == items,
    decreases items.len(),
{
    if items.len() == 1 {
        crate::text::lemma_split_single(items[0], c);
        assert(seq![items[0]] =~= items);
    } else {
        let pre = items.drop_last();
        let x = join(pre, seq![c]);
        assert(forall|i: int| 0 <= i < pre.len() ==> pre[i] == items[i]);
        lemma_split_join(pre, c);
        assert(!items.last().contains(c)) by {
            assert(items.last() == items[items.len() - 1]);
        }
        assert(x.push(c).drop_last() =~= x);
        lemma_split_len(x, c);
        assert(split(x.push(c), c) == pre.push(Seq::<char>::empty()));
        lemma_split_append(x.push(c), items.last(), c);
        assert(x + seq![c] + items.last() =~= x.push(c) + items.last());
        assert(Seq::<char>::empty() + items.last() =~= items.last());
        assert(pre.push(Seq::<char>::empty()).update(pre.len() as int, items.last()) =~= items);
    }
}

/// Whether list parsing keeps an item as it is: no surrounding whitespace
/// or quotes, and no comma inside.
pub open spec fn is_plain_list_item(x: Seq<char>) -> bool {
    &&& x.len() > 0
    &&& !x.contains(',')
    &&& list_item(x) == x
}

/// A list written as its items separated by commas, the form that
/// `STRING_AGG(column_name, ',')` returns, parses back into the same items,
/// where every item is plain and the list neither starts with `[` nor ends with `]`.
pub proof fn law_list_items_roundtrip(items: Seq<Seq<char>>)
    requires
        items.len() >= 1,
        forall|i: int| 0 <= i < items.len() ==> is_plain_list_item(#[trigger] items[i]),
        items[0][0] != '[',
        items.last().last() != ']',
    ensures
        list_items(join(items, seq![','])) == items,
{
    let s = join(items, seq![',']);
    lemma_split_join(items, ',');
    lemma_join_bounds(items, ',');
    assert(trim_start(s, TrimPattern::Char('[')) == s);
    assert(trim_end(s, TrimPattern::Char(']')) == s);
    let cleaned = items.map_values(|x: Seq<char>| list_item(x));
    assert(cleaned =~= items);
    lemma_nonempty_items_identity(items);
}

/// A join starts with the first piece's first character and ends with the
/// last piece's last character, where those pieces are not empty.
proof fn lemma_join_bounds(items: Seq<Seq<char>>, c: char)
    requires
        items.len() >= 1,
        items[0].len() > 0,
        items.last().len() > 0,
    ensures
        join(items, seq![c]).len() > 0,
        join(items, seq![c])[0] == items[0][0],
        join(items, seq![c]).last() == items.last().last(),
    decreases items.len(),
{
    if items.len() > 1 {
        let pre = items.drop_last();
        if pre.len() == 1 {
        } else {
            lemma_join_bounds_first(pre, c);
        }
        let x = join(pre, seq![c]);
        assert(join(items, seq![c]) == x + seq![c] + items.last());
    }
}

proof fn lemma_join_bounds_first(items: Seq<Seq<char>>, c: char)
    requires
        items.len() >= 1,
        items[0].len() > 0,
    ensures
        join(items, seq![c]).len() > 0,
        join(items, seq![c])[0] == items[0][0],
    decreases items.len(),
{
    if items.len() > 1 {
        let pre = items.drop_last();
        lemma_join_bounds_first(pre, c);
        assert(join(items, seq![c]) == join(pre, seq![c]) + seq![c] + items.last());
    }
}

/// ST_AsMVT takes exactly these column types as they are, compared after
/// uppercasing: VARCHAR, TEXT, STRING, FLOAT, DOUBLE, REAL, INTEGER, INT,
/// BIGINT, BOOLEAN and BOOL; a column of any other type is cast to VARCHAR.
pub proof fn law_native_mvt_types(name: Seq<char>, data_type: Seq<char>)
    ensures
        ({
            let u = uppercase_of(data_type);
            let native = u == "VARCHAR"@ || u == "TEXT"@ || u == "STRING"@ || u == "FLOAT"@ || u
                == "DOUBLE"@ || u == "REAL"@ || u == "INTEGER"@ || u == "INT"@ || u == "BIGINT"@
                || u == "BOOLEAN"@ || u == "BOOL"@;
            &&& native ==> struct_field(name, data_type) == name + ":="@ + quoted(name)
            &&& !native ==> struct_field(name, data_type) == name + ":=CAST("@ + quoted(name)
                + " AS VARCHAR)"@
        }),
{
}

/// Dates, timestamps and times are cast to VARCHAR.
pub proof fn law_temporal_types_cast(name: Seq<char>, data_type: Seq<char>)
    requires
        uppercase_of(data_type) == "DATE"@ || uppercase_of(data_type) == "TIMESTAMP"@
            || uppercase_of(data_type) == "TIME"@,
    ensures
        struct_field(name, data_type) == name + ":=CAST("@ + quoted(name) + " AS VARCHAR)"@,
{
    reveal_strlit("DATE");
    reveal_strlit("TIMESTAMP");
    reveal_strlit("TIME");
    reveal_strlit("VARCHAR");
    reveal_strlit("TEXT");
    reveal_strlit("STRING");
    reveal_strlit("FLOAT");
    reveal_strlit("DOUBLE");
    reveal_strlit("REAL");
    reveal_strlit("INTEGER");
    reveal_strlit("INT");
    reveal_strlit("BIGINT");
    reveal_strlit("BOOLEAN");
    reveal_strlit("BOOL");
    let u = uppercase_of(data_type);
    if u == "DATE"@ {
        assert(u[0] == 'D' && u.len() == 4 && "DOUBLE"@.len() == 6 && "BOOLEAN"@.len() == 7);
        assert(u != "TEXT"@ && u != "STRING"@ && u != "FLOAT"@ && u != "REAL"@ && u != "INT"@);
        assert(u != "INTEGER"@ && u != "VARCHAR"@ && u != "BIGINT"@ && u != "BOOL"@);
        assert(u != "DOUBLE"@ && u != "BOOLEAN"@);
    } else if u == "TIME"@ {
        assert(u[0] == 'T' && u[1] == 'I' && u.len() == 4 && "DOUBLE"@[0] == 'D');
        assert(u != "TEXT"@ && u != "STRING"@ && u != "FLOAT"@ && u != "REAL"@ && u != "INT"@);
        assert(u != "INTEGER"@ && u != "VARCHAR"@ && u != "BIGINT"@ && u != "BOOL"@);
        assert(u != "DOUBLE"@ && u != "BOOLEAN"@);
    } else {
        assert(u[0] == 'T' && u[1] == 'I' && u.len() == 9 && "DOUBLE"@[0] == 'D');
        assert(u != "TEXT"@ && u != "STRING"@ && u != "FLOAT"@ && u != "REAL"@ && u != "INT"@);
        assert(u != "INTEGER"@ && u != "VARCHAR"@ && u != "BIGINT"@ && u != "BOOL"@);
        assert(u != "DOUBLE"@ && u != "BOOLEAN"@);
    }
}

} // verus!
