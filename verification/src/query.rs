//! Query parameters of the table endpoints.

use vstd::prelude::*;

verus! {

use crate::decimal::dec_digits;
use crate::decimal::u64_to_dec;
use crate::error::DeltaSharingError;
use crate::error::DeltaSharingErrorView;
use crate::error::ErrorKindView;
use crate::json::json_escape;
use crate::json::json_escape_chars;
use crate::text::chars_vec;
use crate::text::push_all;
use crate::text::push_str_chars;
use crate::text::string_from_chars;
use crate::time::format_rfc3339_seconds;
use crate::time::parse_rfc3339_seconds;
use crate::time::rfc3339_of_seconds;
use crate::time::seconds_of_rfc3339;

/// Which version of a table a lookup asks for: the latest one, or the one
/// current at an instant, given in whole seconds since the epoch.
#[derive(Debug, Clone, Copy, PartialEq, Eq, Structural)]
pub enum TableVersionQuery {
    Latest,
    Timestamp(i64),
}

/// The starting-timestamp parameter a version query adds to the lookup URL:
/// none for the latest version, the RFC 3339 text of the instant otherwise.
pub open spec fn version_query_timestamp(q: TableVersionQuery) -> Option<Seq<char>> {
    match q {
        TableVersionQuery::Latest => None,
        TableVersionQuery::Timestamp(ts) => Some(rfc3339_of_seconds(ts)),
    }
}

/// A lower-case ASCII letter for an upper-case one; any other character
/// unchanged.
pub open spec fn ascii_lower(c: char) -> char {
    if 'A' <= c && c <= 'Z' {
        ((c as u8) + 0x20) as char
    } else {
        c
    }
}

/// A text with its ASCII letters lowered.
pub open spec fn ascii_lower_seq(s: Seq<char>) -> Seq<char> {
    Seq::new(s.len(), |i: int| ascii_lower(s[i]))
}

/// The message given when a version query text parses to nothing.
pub open spec fn version_query_parse_message() -> Seq<char> {
    "Cannot parse TableVersionQuery. The string must be either `latest` or a timestamp in ISO8601 format like `2021-08-01T00:00:00Z`."@
}

/// The version query a text denotes: the word `latest` in any case means
/// the latest version, an RFC 3339 instant means that instant, anything
/// else is a `Request` error.
pub open spec fn version_query_of_text(s: Seq<char>) -> Result<
    TableVersionQuery,
    DeltaSharingErrorView,
> {
    if ascii_lower_seq(s) == "latest"@ {
        Ok(TableVersionQuery::Latest)
    } else {
        match seconds_of_rfc3339(s) {
            Some(sec) => Ok(TableVersionQuery::Timestamp(sec)),
            None => Err(
                DeltaSharingErrorView {
                    kind: ErrorKindView::Request,
                    message: version_query_parse_message(),
                },
            ),
        }
    }
}

/// Whether the ASCII-lowered text equals the (already lower-case) word.
fn eq_ascii_lower(s: &str, word: &str) -> (r: bool)
    ensures
        r == (ascii_lower_seq(s@) == word@),
{
    let sv = chars_vec(s);
    let wv = chars_vec(word);
    if sv.len() != wv.len() {
        proof {
            assert(ascii_lower_seq(s@).len() == s@.len());
        }
        return false;
    }
    let mut i: usize = 0;
    while i < sv.len()
        invariant
            sv@ == s@,
            wv@ == word@,
            sv@.len() == wv@.len(),
            0 <= i <= sv@.len(),
            forall|k: int| 0 <= k < i ==> ascii_lower(s@[k]) == word@[k],
        decreases sv@.len() - i,
    {
        let c = sv[i];
        let lowered = if 'A' <= c && c <= 'Z' {
            ((c as u8) + 0x20) as char
        } else {
            c
        };
        if lowered != wv[i] {
            proof {
                assert(ascii_lower_seq(s@)[i as int] != word@[i as int]);
            }
            return false;
        }
        i += 1;
    }
    proof {
        assert(ascii_lower_seq(s@) =~= word@);
    }
    true
}

impl TableVersionQuery {
    /// The starting-timestamp parameter of the query, exactly as
    /// [`version_query_timestamp`] describes.
    pub fn to_timestamp(&self) -> (r: Option<String>)
        ensures
            r.deep_view() == version_query_timestamp(*self),
    {
        match self {
            TableVersionQuery::Latest => None,
            TableVersionQuery::Timestamp(ts) => Some(format_rfc3339_seconds(*ts)),
        }
    }

    /// Read a version query from text, exactly as [`version_query_of_text`]
    /// describes.
    pub fn parse_text(s: &str) -> (r: Result<Self, DeltaSharingError>)
        ensures
            match r {
                Ok(q) => version_query_of_text(s@) == Ok::<
                    TableVersionQuery,
                    DeltaSharingErrorView,
                >(q),
                Err(e) => version_query_of_text(s@) == Err::<
                    TableVersionQuery,
                    DeltaSharingErrorView,
                >(e@),
            },
    {
        if eq_ascii_lower(s, "latest") {
            Ok(TableVersionQuery::Latest)
        } else {
            match parse_rfc3339_seconds(s) {
                Some(sec) => Ok(TableVersionQuery::Timestamp(sec)),
                None => Err(
                    DeltaSharingError::request(
                        "Cannot parse TableVersionQuery. The string must be either `latest` or a timestamp in ISO8601 format like `2021-08-01T00:00:00Z`.",
                    ),
                ),
            }
        }
    }
}

impl Default for TableVersionQuery {
    /// The latest version.
    fn default() -> (r: Self)
        ensures
            r == TableVersionQuery::Latest,
    {
        TableVersionQuery::Latest
    }
}

impl core::str::FromStr for TableVersionQuery {
    type Err = DeltaSharingError;

    fn from_str(s: &str) -> Result<Self, DeltaSharingError> {
        Self::parse_text(s)
    }
}

impl From<i64> for TableVersionQuery {
    /// The version current at the instant, given in whole seconds since the
    /// epoch.
    fn from(ts: i64) -> (r: Self)
        ensures
            r == TableVersionQuery::Timestamp(ts),
    {
        TableVersionQuery::Timestamp(ts)
    }
}

impl vstd::std_specs::convert::FromSpecImpl<i64> for TableVersionQuery {
    open spec fn obeys_from_spec() -> bool {
        true
    }

    open spec fn from_spec(ts: i64) -> TableVersionQuery {
        TableVersionQuery::Timestamp(ts)
    }
}

/// A range of table versions, by version number or by instant (whole
/// seconds since the epoch), each with an optional end.
#[derive(Debug, Clone, Copy, PartialEq, Eq, Structural)]
pub enum VersionRange {
    Number { start: u32, end: Option<u32> },
    Timestamp { start: i64, end: Option<i64> },
}

impl VersionRange {
    /// A range of version numbers.
    pub fn new_number(start_version: u32, end_version: Option<u32>) -> (r: Self)
        ensures
            r == (VersionRange::Number { start: start_version, end: end_version }),
    {
        VersionRange::Number { start: start_version, end: end_version }
    }

    /// A range of instants.
    pub fn new_timestamp(start_ts: i64, end_ts: Option<i64>) -> (r: Self)
        ensures
            r == (VersionRange::Timestamp { start: start_ts, end: end_ts }),
    {
        VersionRange::Timestamp { start: start_ts, end: end_ts }
    }
}

/// The parameters of a table changes query: the version range to cover and
/// whether to include historical metadata.
#[derive(Debug, Clone, Copy, PartialEq, Eq, Structural)]
pub struct TableChangesQuery {
    pub range: VersionRange,
    pub include_historical_metadata: Option<bool>,
}

impl TableChangesQuery {
    /// A query over the given range, without historical metadata.
    pub fn new(version_range: VersionRange) -> (r: Self)
        ensures
            r == (TableChangesQuery { range: version_range, include_historical_metadata: None }),
    {
        TableChangesQuery { range: version_range, include_historical_metadata: None }
    }

    /// The same query, asking for historical metadata as given.
    pub fn with_historical_metadata(self, included: bool) -> (r: Self)
        ensures
            r == (TableChangesQuery {
                range: self.range,
                include_historical_metadata: Some(included),
            }),
    {
        TableChangesQuery { range: self.range, include_historical_metadata: Some(included) }
    }
}

/// The hints and bounds of a table data query. Every field is optional; an
/// empty query asks for the whole table.
#[derive(Debug, Clone, PartialEq, Eq)]
pub struct TableDataQuery {
    pub predicate_hints: Option<String>,
    pub json_predicate_hints: Option<String>,
    pub limit_hint: Option<u32>,
    pub version: Option<u32>,
    pub timestamp: Option<String>,
    pub starting_version: Option<u32>,
    pub ending_version: Option<u32>,
}

/// One member of an emitted JSON object with a string value.
pub open spec fn member_str(key: Seq<char>, v: Seq<char>) -> Seq<char> {
    seq!['"'] + key + seq!['"', ':', '"'] + json_escape(v) + seq!['"']
}

/// One member of an emitted JSON object with an unsigned number value.
pub open spec fn member_num(key: Seq<char>, n: int) -> Seq<char> {
    seq!['"'] + key + seq!['"', ':'] + dec_digits(n)
}

/// Members joined by commas.
pub open spec fn join_comma(parts: Seq<Seq<char>>) -> Seq<char>
    decreases parts.len(),
{
    if parts.len() == 0 {
        Seq::empty()
    } else if parts.len() == 1 {
        parts[0]
    } else {
        join_comma(parts.drop_last()) + seq![','] + parts.last()
    }
}

/// An emitted JSON object holding the given members.
pub open spec fn object_text(parts: Seq<Seq<char>>) -> Seq<char> {
    seq!['{'] + join_comma(parts) + seq!['}']
}

/// The members a string field contributes: one when set, none otherwise.
pub open spec fn opt_member_str(key: Seq<char>, v: Option<Seq<char>>) -> Seq<Seq<char>> {
    match v {
        Some(s) => seq![member_str(key, s)],
        None => Seq::empty(),
    }
}

/// The members a number field contributes: one when set, none otherwise.
pub open spec fn opt_member_num(key: Seq<char>, v: Option<int>) -> Seq<Seq<char>> {
    match v {
        Some(n) => seq![member_num(key, n)],
        None => Seq::empty(),
    }
}

/// The members of a data query's body, in the protocol's field order: only
/// the fields that are set appear.
pub open spec fn data_query_members(q: TableDataQuery) -> Seq<Seq<char>> {
    opt_member_str(
        "predicateHints"@,
        match q.predicate_hints {
            Some(s) => Some(s@),
            None => None,
        },
    ) + opt_member_str(
        "jsonPredicateHints"@,
        match q.json_predicate_hints {
            Some(s) => Some(s@),
            None => None,
        },
    ) + opt_member_num(
        "limitHint"@,
        match q.limit_hint {
            Some(n) => Some(n as int),
            None => None,
        },
    ) + opt_member_num(
        "version"@,
        match q.version {
            Some(n) => Some(n as int),
            None => None,
        },
    ) + opt_member_str(
        "timestamp"@,
        match q.timestamp {
            Some(s) => Some(s@),
            None => None,
        },
    ) + opt_member_num(
        "startingVersion"@,
        match q.starting_version {
            Some(n) => Some(n as int),
            None => None,
        },
    ) + opt_member_num(
        "endingVersion"@,
        match q.ending_version {
            Some(n) => Some(n as int),
            None => None,
        },
    )
}

/// The JSON body of a data query.
pub open spec fn data_query_body(q: TableDataQuery) -> Seq<char> {
    object_text(data_query_members(q))
}

/// Emit one string member, exactly as [`member_str`] describes.
fn member_str_x(key: &str, v: &str) -> (r: Vec<char>)
    ensures
        r@ == member_str(key@, v@),
{
    let mut out: Vec<char> = Vec::new();
    out.push('"');
    push_str_chars(&mut out, key);
    out.push('"');
    out.push(':');
    out.push('"');
    let escaped = json_escape_chars(v);
    push_all(&mut out, &escaped);
    out.push('"');
    proof {
        assert(out@ =~= member_str(key@, v@));
    }
    out
}

/// Emit one number member, exactly as [`member_num`] describes.
fn member_num_x(key: &str, n: u64) -> (r: Vec<char>)
    ensures
        r@ == member_num(key@, n as int),
{
    let mut out: Vec<char> = Vec::new();
    out.push('"');
    push_str_chars(&mut out, key);
    out.push('"');
    out.push(':');
    let mut digits = u64_to_dec(n);
    out.append(&mut digits);
    proof {
        assert(out@ =~= member_num(key@, n as int));
    }
    out
}

/// Emit an object from its members, exactly as [`object_text`] describes.
fn object_text_x(parts: &Vec<Vec<char>>) -> (r: String)
    ensures
        r@ =~= object_text(parts.deep_view()),
{
    let ghost pv = parts.deep_view();
    let mut out: Vec<char> = Vec::new();
    out.push('{');
    let mut i: usize = 0;
    while i < parts.len()
        invariant
            pv == parts.deep_view(),
            pv.len() == parts@.len(),
            0 <= i <= parts@.len(),
            out@ == seq!['{'] + join_comma(pv.take(i as int)),
        decreases parts@.len() - i,
    {
        if i > 0 {
            out.push(',');
        }
        push_all(&mut out, &parts[i]);
        proof {
            assert(pv.take(i + 1).drop_last() =~= pv.take(i as int));
            assert(pv.take(i + 1).last() == pv[i as int]);
            assert(pv[i as int] =~= parts@[i as int]@);
            if i == 0 {
                assert(out@ =~= seq!['{'] + join_comma(pv.take(1)));
            } else {
                assert(out@ =~= seq!['{'] + join_comma(pv.take(i + 1)));
            }
        }
        i += 1;
    }
    out.push('}');
    proof {
        assert(pv.take(pv.len() as int) =~= pv);
        assert(out@ =~= object_text(pv));
    }
    string_from_chars(&out)
}

impl TableDataQuery {
    /// The JSON body of the query, exactly as [`data_query_body`]
    /// describes: only the fields that are set appear, in the protocol's
    /// field order.
    #[verifier::rlimit(60)]
    pub fn to_json_body(&self) -> (r: String)
        ensures
            r@ == data_query_body(*self),
    {
        let mut parts: Vec<Vec<char>> = Vec::new();
        let ghost m1 = opt_member_str(
            "predicateHints"@,
            match &(*self).predicate_hints {
                Some(s) => Some(s@),
                None => None,
            },
        );
        match &self.predicate_hints {
            Some(s) => parts.push(member_str_x("predicateHints", s.as_str())),
            None => {},
        }
        proof {
            assert(parts.deep_view() =~~= m1);
        }
        let ghost m2 = m1 + opt_member_str(
            "jsonPredicateHints"@,
            match &(*self).json_predicate_hints {
                Some(s) => Some(s@),
                None => None,
            },
        );
        match &self.json_predicate_hints {
            Some(s) => parts.push(member_str_x("jsonPredicateHints", s.as_str())),
            None => {},
        }
        proof {
            assert(parts.deep_view() =~~= m2);
        }
        let ghost m3 = m2 + opt_member_num(
            "limitHint"@,
            match (*self).limit_hint {
                Some(n) => Some(n as int),
                None => None,
            },
        );
        match self.limit_hint {
            Some(n) => parts.push(member_num_x("limitHint", n as u64)),
            None => {},
        }
        proof {
            assert(parts.deep_view() =~~= m3);
        }
        let ghost m4 = m3 + opt_member_num(
            "version"@,
            match (*self).version {
                Some(n) => Some(n as int),
                None => None,
            },
        );
        match self.version {
            Some(n) => parts.push(member_num_x("version", n as u64)),
            None => {},
        }
        proof {
            assert(parts.deep_view() =~~= m4);
        }
        let ghost m5 = m4 + opt_member_str(
            "timestamp"@,
            match &(*self).timestamp {
                Some(s) => Some(s@),
                None => None,
            },
        );
        match &self.timestamp {
            Some(s) => parts.push(member_str_x("timestamp", s.as_str())),
            None => {},
        }
        proof {
            assert(parts.deep_view() =~~= m5);
        }
        let ghost m6 = m5 + opt_member_num(
            "startingVersion"@,
            match (*self).starting_version {
                Some(n) => Some(n as int),
                None => None,
            },
        );
        match self.starting_version {
            Some(n) => parts.push(member_num_x("startingVersion", n as u64)),
            None => {},
        }
        proof {
            assert(parts.deep_view() =~~= m6);
        }
        let ghost m7 = m6 + opt_member_num(
            "endingVersion"@,
            match (*self).ending_version {
                Some(n) => Some(n as int),
                None => None,
            },
        );
        match self.ending_version {
            Some(n) => parts.push(member_num_x("endingVersion", n as u64)),
            None => {},
        }
        proof {
            assert(parts.deep_view() =~~= m7);
            assert(data_query_members(*self) == m7);
        }
        object_text_x(&parts)
    }
}

impl TableDataQuery {
    /// A query without hints or bounds: the whole table.
    pub fn new() -> (r: Self)
        ensures
            r.predicate_hints is None,
            r.json_predicate_hints is None,
            r.limit_hint is None,
            r.version is None,
            r.timestamp is None,
            r.starting_version is None,
            r.ending_version is None,
    {
        TableDataQuery {
            predicate_hints: None,
            json_predicate_hints: None,
            limit_hint: None,
            version: None,
            timestamp: None,
            starting_version: None,
            ending_version: None,
        }
    }
}

} // verus!
