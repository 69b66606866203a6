//! Query addresses of the archive's tables.
use vstd::prelude::*;

verus! {

/// Address of the archive's table service, shared by every table.
pub const BASE_URL: &'static str = "https://exoplanetarchive.ipac.caltech.edu/cgi-bin/nstedAPI/nph-nstedAPI";

/// The text of each column name.
pub open spec fn column_views(columns: Seq<String>) -> Seq<Seq<char>> {
    columns.map_values(|c: String| c@)
}

/// Column names separated by commas, in the order given.
pub open spec fn joined(columns: Seq<Seq<char>>) -> Seq<char>
    decreases columns.len(),
{
    if columns.len() == 0 {
        Seq::empty()
    } else if columns.len() == 1 {
        columns[0]
    } else {
        joined(columns.drop_last()) + seq![','] + columns.last()
    }
}

/// `<base>?table=<table>&format=json`
pub open spec fn load_url_of(table: Seq<char>) -> Seq<char> {
    BASE_URL@ + "?table="@ + table + "&format=json"@
}

/// `<base>?table=<table>&select=<fields>&format=json`
pub open spec fn select_url_of(table: Seq<char>, fields: Seq<char>) -> Seq<char> {
    BASE_URL@ + "?table="@ + table + "&select="@ + fields + "&format=json"@
}

/// The address that asks for every column of `table`.
pub fn load_url(table: &str) -> (r: String)
    ensures
        r@ == load_url_of(table@),
{
    let mut r = BASE_URL.to_owned();
    r.append("?table=");
    r.append(table);
    r.append("&format=json");
    r
}

/// The address that asks for the columns `fields` (already separated by
/// commas) of `table`. The list is passed on as it is, also when it is empty.
pub fn select_url(table: &str, fields: &str) -> (r: String)
    ensures
        r@ == select_url_of(table@, fields@),
{
    let mut r = BASE_URL.to_owned();
    r.append("?table=");
    r.append(table);
    r.append("&select=");
    r.append(fields);
    r.append("&format=json");
    r
}

/// Joins column names with commas, keeping their order.
pub fn join_columns(columns: &Vec<String>) -> (r: String)
    ensures
        r@ == joined(column_views(columns@)),
{
    let mut r = String::new();
    let mut i: usize = 0;
    while i < columns.len()
        invariant
            i <= columns@.len(),
            r@ == joined(column_views(columns@.take(i as int))),
        decreases columns.len() - i,
    {
        let ghost before = columns@.take(i as int);
        let ghost after = columns@.take(i as int + 1);
        assert(column_views(after).drop_last() =~= column_views(before));
        if i > 0 {
            r.append(",");
        }
        r.append(columns[i].as_str());
        proof {
            reveal_strlit(",");
            if i == 0 {
                assert(r@ =~= column_views(after)[0]);
            } else {
                assert(r@ =~= joined(column_views(before)) + seq![','] + column_views(after).last());
            }
        }
        i = i + 1;
    }
    assert(columns@.take(columns@.len() as int) =~= columns@);
    r
}

/// The address that asks for the listed columns of `table`, in the order
/// given. An empty list still yields a `select=` parameter.
pub fn select_columns_url(table: &str, columns: &Vec<String>) -> (r: String)
    ensures
        r@ == select_url_of(table@, joined(column_views(columns@))),
{
    let fields = join_columns(columns);
    select_url(table, fields.as_str())
}

/// Adding a column to a non-empty list appends a comma and that column to
/// the joined text: the columns stand in the order the caller gave them.
pub proof fn lemma_join_keeps_order(columns: Seq<Seq<char>>, column: Seq<char>)
    requires
        columns.len() > 0,
    ensures
        joined(columns.push(column)) == joined(columns) + seq![','] + column,
{
    assert(columns.push(column).drop_last() =~= columns);
}

/// Two requests for the same table and columns of the same text get the same
/// address, with `table`, `select` and `format` in that order.
pub proof fn lemma_select_url_determined(
    table1: Seq<char>,
    columns1: Seq<String>,
    table2: Seq<char>,
    columns2: Seq<String>,
)
    requires
        table1 == table2,
        column_views(columns1) == column_views(columns2),
    ensures
        select_url_of(table1, joined(column_views(columns1))) == select_url_of(
            table2,
            joined(column_views(columns2)),
        ),
        select_url_of(table1, joined(column_views(columns1))) == BASE_URL@ + "?table="@ + table1
            + "&select="@ + joined(column_views(columns1)) + "&format=json"@,
{
}

/// An empty column list still yields a `select=` parameter, so the address
/// differs from the one that asks for every column.
pub proof fn lemma_empty_selection_keeps_select(table: Seq<char>)
    ensures
        select_url_of(table, joined(column_views(Seq::empty()))) == BASE_URL@ + "?table="@ + table
            + "&select=&format=json"@,
        select_url_of(table, joined(column_views(Seq::empty()))) != load_url_of(table),
{
    reveal_strlit("&select=");
    reveal_strlit("&select=&format=json");
    reveal_strlit("&format=json");
    let empty = joined(column_views(Seq::<String>::empty()));
    assert(empty =~= Seq::<char>::empty());
    assert("&select="@ + empty + "&format=json"@ =~= "&select=&format=json"@);
    assert(BASE_URL@ + "?table="@ + table + "&select="@ + empty + "&format=json"@
        =~= BASE_URL@ + "?table="@ + table + ("&select="@ + empty + "&format=json"@));
    assert(select_url_of(table, empty).len() == load_url_of(table).len() + 8);
}

} // verus!
