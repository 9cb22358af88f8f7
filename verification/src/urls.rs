//! Building resource URLs against the profile's endpoint.
//!
//! Share, schema and table names are user-supplied content that may hold
//! reserved characters, so every name is percent-encoded before it is
//! spliced into a path. Query parameters are appended only for fields that
//! are set.

use vstd::prelude::*;

verus! {

use vstd::string::StrSliceExecFns;
use vstd::utf8::encode_utf8;

use crate::decimal::dec_digits;
use crate::decimal::u64_to_dec;
use crate::pagination::Pagination;
use crate::pagination::PaginationView;
use crate::query::TableChangesQuery;
use crate::query::TableVersionQuery;
use crate::query::VersionRange;
use crate::time::format_rfc3339_seconds;
use crate::time::rfc3339_of_seconds;
use crate::text::chars_vec;
use crate::text::push_all;
use crate::text::push_str_chars;
use crate::text::string_from_chars;

/// Bytes that pass through percent-encoding unchanged: the unreserved set.
pub open spec fn is_unreserved(b: u8) -> bool {
    ('A' as u8 <= b && b <= 'Z' as u8) || ('a' as u8 <= b && b <= 'z' as u8) || ('0' as u8 <= b
        && b <= '9' as u8) || b == '-' as u8 || b == '.' as u8 || b == '_' as u8 || b == '~' as u8
}

/// The upper-case hexadecimal digit of a value below sixteen.
pub open spec fn hex_upper(d: u8) -> char {
    if d < 10 {
        ((d + '0' as u8) as u8) as char
    } else {
        ((d - 10 + 'A' as u8) as u8) as char
    }
}

/// The percent-encoding of one byte.
pub open spec fn enc_byte(b: u8) -> Seq<char> {
    if is_unreserved(b) {
        seq![b as char]
    } else {
        seq!['%', hex_upper(b / 16), hex_upper(b % 16)]
    }
}

/// The percent-encoding of a byte sequence.
pub open spec fn percent_encode(bs: Seq<u8>) -> Seq<char>
    decreases bs.len(),
{
    if bs.len() == 0 {
        Seq::empty()
    } else {
        percent_encode(bs.drop_last()) + enc_byte(bs.last())
    }
}

/// The percent-encoding of a path or query segment: its UTF-8 bytes,
/// encoded.
pub open spec fn enc_seg(seg: Seq<char>) -> Seq<char> {
    percent_encode(encode_utf8(seg))
}

/// An endpoint with at most one trailing slash taken off.
pub open spec fn trim_slash(e: Seq<char>) -> Seq<char> {
    if e.len() > 0 && e.last() == '/' {
        e.drop_last()
    } else {
        e
    }
}

/// The separator the next query parameter needs.
pub open spec fn sep(url: Seq<char>) -> Seq<char> {
    if url.contains('?') {
        "&"@
    } else {
        "?"@
    }
}

/// A URL with the page-size parameter appended, when one is set.
pub open spec fn with_max_results(url: Seq<char>, m: Option<u32>) -> Seq<char> {
    match m {
        Some(n) => url + sep(url) + "maxResults="@ + dec_digits(n as int),
        None => url,
    }
}

/// A URL with the page-token parameter appended, when one is set.
pub open spec fn with_page_token(url: Seq<char>, t: Option<Seq<char>>) -> Seq<char> {
    match t {
        Some(tok) => url + sep(url) + "pageToken="@ + enc_seg(tok),
        None => url,
    }
}

/// A URL with the pagination parameters appended, each only when set.
pub open spec fn with_pagination_spec(url: Seq<char>, p: PaginationView) -> Seq<char> {
    with_page_token(with_max_results(url, p.max_results), p.page_token)
}

/// The listing URL of the shares of an endpoint.
pub open spec fn shares_url_spec(endpoint: Seq<char>, p: PaginationView) -> Seq<char> {
    with_pagination_spec(trim_slash(endpoint) + "/shares"@, p)
}

/// The URL of one share.
pub open spec fn share_url_spec(endpoint: Seq<char>, share: Seq<char>) -> Seq<char> {
    trim_slash(endpoint) + "/shares/"@ + enc_seg(share)
}

/// The listing URL of the schemas of a share.
pub open spec fn schemas_url_spec(endpoint: Seq<char>, share: Seq<char>, p: PaginationView) -> Seq<
    char,
> {
    with_pagination_spec(share_url_spec(endpoint, share) + "/schemas"@, p)
}

/// The listing URL of all tables of a share.
pub open spec fn all_tables_url_spec(
    endpoint: Seq<char>,
    share: Seq<char>,
    p: PaginationView,
) -> Seq<char> {
    with_pagination_spec(share_url_spec(endpoint, share) + "/schemas/all-tables"@, p)
}

/// The listing URL of the tables of a schema.
pub open spec fn schema_tables_url_spec(
    endpoint: Seq<char>,
    share: Seq<char>,
    schema: Seq<char>,
    p: PaginationView,
) -> Seq<char> {
    with_pagination_spec(
        share_url_spec(endpoint, share) + "/schemas/"@ + enc_seg(schema) + "/tables"@,
        p,
    )
}

/// The URL naming one table.
pub open spec fn table_path_spec(
    endpoint: Seq<char>,
    share: Seq<char>,
    schema: Seq<char>,
    table: Seq<char>,
) -> Seq<char> {
    share_url_spec(endpoint, share) + "/schemas/"@ + enc_seg(schema) + "/tables/"@ + enc_seg(table)
}

/// The URL of a table's version lookup, with the starting-timestamp
/// parameter appended only when one is given.
pub open spec fn table_version_url_spec(
    endpoint: Seq<char>,
    share: Seq<char>,
    schema: Seq<char>,
    table: Seq<char>,
    starting_timestamp: Option<Seq<char>>,
) -> Seq<char> {
    let base = table_path_spec(endpoint, share, schema, table) + "/version"@;
    match starting_timestamp {
        Some(ts) => base + sep(base) + "startingTimestamp="@ + enc_seg(ts),
        None => base,
    }
}

/// The URL of a table's metadata lookup.
pub open spec fn table_metadata_url_spec(
    endpoint: Seq<char>,
    share: Seq<char>,
    schema: Seq<char>,
    table: Seq<char>,
) -> Seq<char> {
    table_path_spec(endpoint, share, schema, table) + "/metadata"@
}

/// The URL of a table's data query.
pub open spec fn table_data_url_spec(
    endpoint: Seq<char>,
    share: Seq<char>,
    schema: Seq<char>,
    table: Seq<char>,
) -> Seq<char> {
    table_path_spec(endpoint, share, schema, table) + "/query"@
}

/// The URL of a table's changes query.
pub open spec fn table_changes_url_spec(
    endpoint: Seq<char>,
    share: Seq<char>,
    schema: Seq<char>,
    table: Seq<char>,
) -> Seq<char> {
    table_path_spec(endpoint, share, schema, table) + "/changes"@
}

/// The URL of a table's version lookup for a version query: the latest
/// version adds no parameter, an instant adds its RFC 3339 text as the
/// starting timestamp.
pub fn table_version_url_for(
    endpoint: &str,
    share: &str,
    schema: &str,
    table: &str,
    query: &TableVersionQuery,
) -> (r: String)
    ensures
        r@ == table_version_url_spec(
            endpoint@,
            share@,
            schema@,
            table@,
            crate::query::version_query_timestamp(*query),
        ),
{
    match query.to_timestamp() {
        Some(ts) => table_version_url(endpoint, share, schema, table, Some(ts.as_str())),
        None => table_version_url(endpoint, share, schema, table, None),
    }
}

/// A changes URL with the query's parameters appended: the range by version
/// numbers or by RFC 3339 instants, and the historical-metadata switch only
/// when set.
pub open spec fn with_changes_query(url: Seq<char>, q: TableChangesQuery) -> Seq<char> {
    let ranged = match q.range {
        VersionRange::Number { start, end } => {
            let s = url + sep(url) + "startingVersion="@ + dec_digits(start as int);
            match end {
                Some(e) => s + sep(s) + "endingVersion="@ + dec_digits(e as int),
                None => s,
            }
        },
        VersionRange::Timestamp { start, end } => {
            let s = url + sep(url) + "startingTimestamp="@ + enc_seg(rfc3339_of_seconds(start));
            match end {
                Some(e) => s + sep(s) + "endingTimestamp="@ + enc_seg(rfc3339_of_seconds(e)),
                None => s,
            }
        },
    };
    match q.include_historical_metadata {
        Some(b) => ranged + sep(ranged) + "includeHistoricalMetadata="@ + (if b {
            "true"@
        } else {
            "false"@
        }),
        None => ranged,
    }
}

/// The URL of a table's changes query carrying the query's parameters,
/// exactly as [`with_changes_query`] describes.
pub fn table_changes_url_with(
    endpoint: &str,
    share: &str,
    schema: &str,
    table: &str,
    query: &TableChangesQuery,
) -> (r: String)
    ensures
        r@ == with_changes_query(
            table_changes_url_spec(endpoint@, share@, schema@, table@),
            *query,
        ),
{
    let mut u = table_path_chars(endpoint, share, schema, table);
    push_str_chars(&mut u, "/changes");
    let mut u = u;
    match query.range {
        VersionRange::Number { start, end } => {
            let d = u64_to_dec(start as u64);
            u = add_param(u, "startingVersion=", &d);
            match end {
                Some(e) => {
                    let d = u64_to_dec(e as u64);
                    u = add_param(u, "endingVersion=", &d);
                },
                None => {},
            }
        },
        VersionRange::Timestamp { start, end } => {
            let ts = format_rfc3339_seconds(start);
            let enc = percent_encode_chars(ts.as_str());
            u = add_param(u, "startingTimestamp=", &enc);
            match end {
                Some(e) => {
                    let ts = format_rfc3339_seconds(e);
                    let enc = percent_encode_chars(ts.as_str());
                    u = add_param(u, "endingTimestamp=", &enc);
                },
                None => {},
            }
        },
    }
    match query.include_historical_metadata {
        Some(b) => {
            let v = if b {
                chars_vec("true")
            } else {
                chars_vec("false")
            };
            u = add_param(u, "includeHistoricalMetadata=", &v);
        },
        None => {},
    }
    string_from_chars(&u)
}

fn contains_char_x(v: &Vec<char>, c: char) -> (r: bool)
    ensures
        r == v@.contains(c),
{
    let mut i: usize = 0;
    while i < v.len()
        invariant
            0 <= i <= v@.len(),
            forall|k: int| 0 <= k < i ==> v@[k] != c,
        decreases v@.len() - i,
    {
        if v[i] == c {
            return true;
        }
        i += 1;
    }
    false
}

/// Percent-encode the bytes of a segment, exactly as [`enc_seg`] describes.
fn percent_encode_chars(seg: &str) -> (r: Vec<char>)
    ensures
        r@ == enc_seg(seg@),
{
    let bs = seg.as_bytes();
    let ghost bsv = bs@;
    proof {
        assert(bs@ == encode_utf8(seg@));
    }
    let mut out: Vec<char> = Vec::new();
    let mut i: usize = 0;
    while i < bs.len()
        invariant
            0 <= i <= bsv.len(),
            bs@ == bsv,
            out@ == percent_encode(bsv.take(i as int)),
        decreases bsv.len() - i,
    {
        let b = bs[i];
        if (('A' as u8) <= b && b <= ('Z' as u8)) || (('a' as u8) <= b && b <= ('z' as u8)) || (('0' as u8) <= b && b <= ('9' as u8)) || b
            == ('-' as u8) || b == ('.' as u8) || b == ('_' as u8) || b == ('~' as u8) {
            out.push(b as char);
        } else {
            out.push('%');
            let hi = b / 16;
            let lo = b % 16;
            let hi_c = if hi < 10 {
                (hi + ('0' as u8)) as char
            } else {
                (hi - 10 + ('A' as u8)) as char
            };
            let lo_c = if lo < 10 {
                (lo + ('0' as u8)) as char
            } else {
                (lo - 10 + ('A' as u8)) as char
            };
            out.push(hi_c);
            out.push(lo_c);
        }
        proof {
            assert(bsv.take(i + 1).drop_last() =~= bsv.take(i as int));
            assert(bsv.take(i + 1).last() == bsv[i as int]);
            assert(out@ =~= percent_encode(bsv.take(i as int)) + enc_byte(bsv[i as int]));
        }
        i += 1;
    }
    proof {
        assert(bsv.take(bsv.len() as int) =~= bsv);
    }
    out
}

/// The endpoint's characters with at most one trailing slash taken off.
fn trimmed_chars(endpoint: &str) -> (r: Vec<char>)
    ensures
        r@ == trim_slash(endpoint@),
{
    let mut v = chars_vec(endpoint);
    if v.len() > 0 && v[v.len() - 1] == '/' {
        v.pop();
        proof {
            assert(v@ =~= trim_slash(endpoint@));
        }
    }
    v
}

/// Append one query parameter: the right separator, the key with its
/// equals sign, and the already-encoded value.
fn add_param(url: Vec<char>, key_eq: &str, value: &Vec<char>) -> (r: Vec<char>)
    ensures
        r@ == url@ + sep(url@) + key_eq@ + value@,
{
    let ghost url0 = url@;
    let has_query = contains_char_x(&url, '?');
    let mut u = url;
    if has_query {
        u.push('&');
        proof {
            reveal_strlit("&");
            assert(u@ =~= url0 + sep(url0));
        }
    } else {
        u.push('?');
        proof {
            reveal_strlit("?");
            assert(u@ =~= url0 + sep(url0));
        }
    }
    push_str_chars(&mut u, key_eq);
    push_all(&mut u, value);
    u
}

/// Append the pagination parameters, exactly as [`with_pagination_spec`]
/// describes.
fn with_pagination_chars(url: Vec<char>, p: &Pagination) -> (r: Vec<char>)
    ensures
        r@ == with_pagination_spec(url@, p@),
{
    let mut u = url;
    match p.max_results() {
        Some(m) => {
            let d = u64_to_dec(m as u64);
            u = add_param(u, "maxResults=", &d);
        },
        None => {},
    }
    match p.page_token() {
        Some(t) => {
            let e = percent_encode_chars(t);
            u = add_param(u, "pageToken=", &e);
        },
        None => {},
    }
    u
}

/// A URL with the pagination parameters appended, exactly as
/// [`with_pagination_spec`] describes: each parameter only when set, and
/// neither when both are unset.
pub fn with_pagination(url: &str, pagination: &Pagination) -> (r: String)
    ensures
        r@ == with_pagination_spec(url@, pagination@),
{
    let u = chars_vec(url);
    let u = with_pagination_chars(u, pagination);
    string_from_chars(&u)
}

/// The listing URL of the shares of an endpoint, exactly as
/// [`shares_url_spec`] describes.
pub fn shares_url(endpoint: &str, pagination: &Pagination) -> (r: String)
    ensures
        r@ == shares_url_spec(endpoint@, pagination@),
{
    let mut u = trimmed_chars(endpoint);
    push_str_chars(&mut u, "/shares");
    let u = with_pagination_chars(u, pagination);
    string_from_chars(&u)
}

/// The characters of the URL of one share.
fn share_url_chars(endpoint: &str, share: &str) -> (r: Vec<char>)
    ensures
        r@ == share_url_spec(endpoint@, share@),
{
    let mut u = trimmed_chars(endpoint);
    push_str_chars(&mut u, "/shares/");
    let e = percent_encode_chars(share);
    push_all(&mut u, &e);
    u
}

/// The URL of one share, exactly as [`share_url_spec`] describes.
pub fn share_url(endpoint: &str, share: &str) -> (r: String)
    ensures
        r@ == share_url_spec(endpoint@, share@),
{
    let u = share_url_chars(endpoint, share);
    string_from_chars(&u)
}

/// The listing URL of the schemas of a share, exactly as
/// [`schemas_url_spec`] describes.
pub fn schemas_url(endpoint: &str, share: &str, pagination: &Pagination) -> (r: String)
    ensures
        r@ == schemas_url_spec(endpoint@, share@, pagination@),
{
    let mut u = share_url_chars(endpoint, share);
    push_str_chars(&mut u, "/schemas");
    let u = with_pagination_chars(u, pagination);
    string_from_chars(&u)
}

/// The listing URL of all tables of a share, exactly as
/// [`all_tables_url_spec`] describes.
pub fn all_tables_url(endpoint: &str, share: &str, pagination: &Pagination) -> (r: String)
    ensures
        r@ == all_tables_url_spec(endpoint@, share@, pagination@),
{
    let mut u = share_url_chars(endpoint, share);
    push_str_chars(&mut u, "/schemas/all-tables");
    let u = with_pagination_chars(u, pagination);
    string_from_chars(&u)
}

/// The listing URL of the tables of a schema, exactly as
/// [`schema_tables_url_spec`] describes.
pub fn schema_tables_url(endpoint: &str, share: &str, schema: &str, pagination: &Pagination) -> (r:
    String)
    ensures
        r@ == schema_tables_url_spec(endpoint@, share@, schema@, pagination@),
{
    let mut u = share_url_chars(endpoint, share);
    push_str_chars(&mut u, "/schemas/");
    let e = percent_encode_chars(schema);
    push_all(&mut u, &e);
    push_str_chars(&mut u, "/tables");
    let u = with_pagination_chars(u, pagination);
    string_from_chars(&u)
}

/// The characters of the URL naming one table.
fn table_path_chars(endpoint: &str, share: &str, schema: &str, table: &str) -> (r: Vec<char>)
    ensures
        r@ == table_path_spec(endpoint@, share@, schema@, table@),
{
    let mut u = share_url_chars(endpoint, share);
    push_str_chars(&mut u, "/schemas/");
    let e = percent_encode_chars(schema);
    push_all(&mut u, &e);
    push_str_chars(&mut u, "/tables/");
    let t = percent_encode_chars(table);
    push_all(&mut u, &t);
    u
}

/// The URL of a table's version lookup, exactly as
/// [`table_version_url_spec`] describes.
pub fn table_version_url(
    endpoint: &str,
    share: &str,
    schema: &str,
    table: &str,
    starting_timestamp: Option<&str>,
) -> (r: String)
    ensures
        r@ == table_version_url_spec(
            endpoint@,
            share@,
            schema@,
            table@,
            starting_timestamp.deep_view(),
        ),
{
    let mut u = table_path_chars(endpoint, share, schema, table);
    push_str_chars(&mut u, "/version");
    match starting_timestamp {
        Some(ts) => {
            let e = percent_encode_chars(ts);
            let u = add_param(u, "startingTimestamp=", &e);
            string_from_chars(&u)
        },
        None => string_from_chars(&u),
    }
}

/// The URL of a table's metadata lookup, exactly as
/// [`table_metadata_url_spec`] describes.
pub fn table_metadata_url(endpoint: &str, share: &str, schema: &str, table: &str) -> (r: String)
    ensures
        r@ == table_metadata_url_spec(endpoint@, share@, schema@, table@),
{
    let mut u = table_path_chars(endpoint, share, schema, table);
    push_str_chars(&mut u, "/metadata");
    string_from_chars(&u)
}

/// The URL of a table's data query, exactly as [`table_data_url_spec`]
/// describes.
pub fn table_data_url(endpoint: &str, share: &str, schema: &str, table: &str) -> (r: String)
    ensures
        r@ == table_data_url_spec(endpoint@, share@, schema@, table@),
{
    let mut u = table_path_chars(endpoint, share, schema, table);
    push_str_chars(&mut u, "/query");
    string_from_chars(&u)
}

/// The URL of a table's changes query, exactly as
/// [`table_changes_url_spec`] describes.
pub fn table_changes_url(endpoint: &str, share: &str, schema: &str, table: &str) -> (r: String)
    ensures
        r@ == table_changes_url_spec(endpoint@, share@, schema@, table@),
{
    let mut u = table_path_chars(endpoint, share, schema, table);
    push_str_chars(&mut u, "/changes");
    string_from_chars(&u)
}

} // verus!
