//! Reading the protocol's envelopes out of parsed JSON documents.
//!
//! An envelope is a JSON object with known fields. The helpers here look
//! fields up by key (the first member with the key counts) and read string
//! fields; the traits tie an executable reader to its specification.

use vstd::prelude::*;

verus! {

use crate::json::Json;
use crate::json::JsonView;

/// The value of the first member with the given key, if any.
pub open spec fn obj_get(m: Seq<(Seq<char>, JsonView)>, key: Seq<char>) -> Option<JsonView>
    decreases m.len(),
{
    if m.len() == 0 {
        None
    } else if m[0].0 == key {
        Some(m[0].1)
    } else {
        obj_get(m.drop_first(), key)
    }
}

/// A required string field: present and a string.
pub open spec fn req_str_field(m: Seq<(Seq<char>, JsonView)>, key: Seq<char>) -> Option<Seq<char>> {
    match obj_get(m, key) {
        Some(JsonView::Str(s)) => Some(s),
        _ => None,
    }
}

/// An optional string field: absent or null count as nothing, a string
/// counts as itself, any other value is invalid (the outer `None`).
pub open spec fn opt_str_field(m: Seq<(Seq<char>, JsonView)>, key: Seq<char>) -> Option<
    Option<Seq<char>>,
> {
    match obj_get(m, key) {
        None => Some(None),
        Some(JsonView::Null) => Some(None),
        Some(JsonView::Str(s)) => Some(Some(s)),
        Some(_) => None,
    }
}

/// Look a key up among an object's members, exactly as [`obj_get`]
/// describes.
pub fn obj_get_x<'a>(m: &'a Vec<(String, Json)>, key: &str) -> (r: Option<&'a Json>)
    ensures
        match r {
            Some(v) => obj_get(Json::view_members(m@), key@) == Some(v@),
            None => obj_get(Json::view_members(m@), key@) is None,
        },
{
    let ghost mv = Json::view_members(m@);
    proof {
        Json::lemma_view_members(m@);
        assert(mv.skip(0) =~= mv);
    }
    let mut i: usize = 0;
    while i < m.len()
        invariant
            0 <= i <= m@.len(),
            mv == Json::view_members(m@),
            mv.len() == m@.len(),
            forall|k: int| 0 <= k < m@.len() ==> #[trigger] mv[k] == (m@[k].0@, m@[k].1@),
            obj_get(mv, key@) == obj_get(mv.skip(i as int), key@),
        decreases m@.len() - i,
    {
        proof {
            assert(mv.skip(i as int)[0] == mv[i as int]);
        }
        if crate::text::str_eq(m[i].0.as_str(), key) {
            return Some(&m[i].1);
        }
        proof {
            assert(mv.skip(i as int).drop_first() =~= mv.skip(i as int + 1));
        }
        i += 1;
    }
    proof {
        assert(mv.skip(i as int) =~= Seq::<(Seq<char>, JsonView)>::empty());
    }
    None
}

/// Read a required string field, exactly as [`req_str_field`] describes.
pub fn req_str_field_x(m: &Vec<(String, Json)>, key: &str) -> (r: Option<String>)
    ensures
        match r {
            Some(s) => req_str_field(Json::view_members(m@), key@) == Some(s@),
            None => req_str_field(Json::view_members(m@), key@) is None,
        },
{
    match obj_get_x(m, key) {
        Some(Json::Str(s)) => Some(s.clone()),
        _ => None,
    }
}

/// Read an optional string field, exactly as [`opt_str_field`] describes.
pub fn opt_str_field_x(m: &Vec<(String, Json)>, key: &str) -> (r: Option<Option<String>>)
    ensures
        match r {
            Some(o) => opt_str_field(Json::view_members(m@), key@) == Some(o.deep_view()),
            None => opt_str_field(Json::view_members(m@), key@) is None,
        },
{
    match obj_get_x(m, key) {
        None => Some(None),
        Some(Json::Null) => Some(None),
        Some(Json::Str(s)) => Some(Some(s.clone())),
        Some(_) => None,
    }
}

/// A required unsigned number field: present and a number of plain decimal
/// digits that fits.
pub open spec fn req_u64_field(m: Seq<(Seq<char>, JsonView)>, key: Seq<char>) -> Option<u64> {
    match obj_get(m, key) {
        Some(JsonView::Num(raw)) => crate::decimal::dec_u64_of(raw),
        _ => None,
    }
}

/// An optional unsigned number field: absent or null count as nothing, a
/// number of plain decimal digits that fits counts as itself, anything else
/// is invalid (the outer `None`).
pub open spec fn opt_u64_field(m: Seq<(Seq<char>, JsonView)>, key: Seq<char>) -> Option<
    Option<u64>,
> {
    match obj_get(m, key) {
        None => Some(None),
        Some(JsonView::Null) => Some(None),
        Some(JsonView::Num(raw)) => match crate::decimal::dec_u64_of(raw) {
            Some(v) => Some(Some(v)),
            None => None,
        },
        _ => None,
    }
}

/// Read a required unsigned number field, exactly as [`req_u64_field`]
/// describes.
pub fn req_u64_field_x(m: &Vec<(String, Json)>, key: &str) -> (r: Option<u64>)
    ensures
        r == req_u64_field(Json::view_members(m@), key@),
{
    match obj_get_x(m, key) {
        Some(Json::Num(raw)) => {
            let digits = crate::text::chars_vec(raw.as_str());
            crate::decimal::parse_dec_u64(&digits)
        },
        _ => None,
    }
}

/// Read an optional unsigned number field, exactly as [`opt_u64_field`]
/// describes.
pub fn opt_u64_field_x(m: &Vec<(String, Json)>, key: &str) -> (r: Option<Option<u64>>)
    ensures
        match r {
            Some(o) => opt_u64_field(Json::view_members(m@), key@) == Some(o),
            None => opt_u64_field(Json::view_members(m@), key@) is None,
        },
{
    match obj_get_x(m, key) {
        None => Some(None),
        Some(Json::Null) => Some(None),
        Some(Json::Num(raw)) => {
            let digits = crate::text::chars_vec(raw.as_str());
            match crate::decimal::parse_dec_u64(&digits) {
                Some(v) => Some(Some(v)),
                None => None,
            }
        },
        Some(_) => None,
    }
}

/// The string-or-null map an object's members hold: each value must be a
/// string or null.
pub open spec fn string_map_of_members(m: Seq<(Seq<char>, JsonView)>) -> Option<
    Seq<(Seq<char>, Option<Seq<char>>)>,
>
    decreases m.len(),
{
    if m.len() == 0 {
        Some(Seq::empty())
    } else {
        let entry = match m[0].1 {
            JsonView::Str(s) => Some((m[0].0, Some(s))),
            JsonView::Null => Some((m[0].0, None)),
            _ => None,
        };
        match entry {
            Some(e) => match string_map_of_members(m.drop_first()) {
                Some(rest) => Some(seq![e] + rest),
                None => None,
            },
            None => None,
        }
    }
}

/// Read a string-or-null map out of an object's members, exactly as
/// [`string_map_of_members`] describes.
pub fn string_map_from_members(m: &Vec<(String, Json)>) -> (r: Option<
    Vec<(String, Option<String>)>,
>)
    ensures
        match r {
            Some(v) => string_map_of_members(Json::view_members(m@)) == Some(v.deep_view()),
            None => string_map_of_members(Json::view_members(m@)) is None,
        },
{
    let ghost mv = Json::view_members(m@);
    proof {
        Json::lemma_view_members(m@);
    }
    let mut out: Vec<(String, Option<String>)> = Vec::new();
    let mut i: usize = 0;
    while i < m.len()
        invariant
            0 <= i <= m@.len(),
            mv == Json::view_members(m@),
            mv.len() == m@.len(),
            forall|k: int| 0 <= k < m@.len() ==> #[trigger] mv[k] == (m@[k].0@, m@[k].1@),
            out@.len() == i,
            forall|k: int|
                0 <= k < i ==> #[trigger] out@[k].0@ == mv[k].0 && (match mv[k].1 {
                    JsonView::Str(s) => out@[k].1.deep_view() == Some(s),
                    JsonView::Null => out@[k].1 is None,
                    _ => false,
                }),
        decreases m@.len() - i,
    {
        let value = match &m[i].1 {
            Json::Str(s) => Some(s.clone()),
            Json::Null => None,
            _ => {
                proof {
                    lemma_string_map_of_members_invalid(mv, i as int);
                }
                return None;
            },
        };
        out.push((m[i].0.clone(), value));
        i += 1;
    }
    proof {
        assert forall|k: int| 0 <= k < mv.len() implies (#[trigger] mv[k].1 is Str
            || mv[k].1 is Null) by {
            assert(out@[k].0@ == mv[k].0);
        }
        lemma_string_map_of_members_total(mv);
        match string_map_of_members(mv) {
            Some(vs) => {
                assert forall|k: int| 0 <= k < vs.len() implies out.deep_view()[k] == vs[k] by {
                    assert(out.deep_view()[k] == (out@[k].0@, out@[k].1.deep_view()));
                }
                assert(out.deep_view() =~= vs);
            },
            None => {},
        }
    }
    Some(out)
}

/// If one member's value is neither a string nor null, the map is invalid.
proof fn lemma_string_map_of_members_invalid(m: Seq<(Seq<char>, JsonView)>, i: int)
    requires
        0 <= i < m.len(),
        !(m[i].1 is Str),
        !(m[i].1 is Null),
    ensures
        string_map_of_members(m) is None,
    decreases m.len(),
{
    if i > 0 {
        lemma_string_map_of_members_invalid(m.drop_first(), i - 1);
    }
}

/// If every member's value is a string or null, the map reads, and maps
/// each member in order.
proof fn lemma_string_map_of_members_total(m: Seq<(Seq<char>, JsonView)>)
    requires
        forall|k: int| 0 <= k < m.len() ==> (#[trigger] m[k].1 is Str || m[k].1 is Null),
    ensures
        string_map_of_members(m) matches Some(vs) && vs.len() == m.len() && (forall|k: int|
            0 <= k < m.len() ==> #[trigger] vs[k].0 == m[k].0 && (match m[k].1 {
                JsonView::Str(s) => vs[k].1 == Some(s),
                _ => vs[k].1 is None,
            })),
    decreases m.len(),
{
    if m.len() > 0 {
        assert(forall|k: int|
            0 <= k < m.drop_first().len() ==> #[trigger] m.drop_first()[k] == m[k + 1]);
        lemma_string_map_of_members_total(m.drop_first());
        let e = match m[0].1 {
            JsonView::Str(s) => (m[0].0, Some(s)),
            _ => (m[0].0, None::<Seq<char>>),
        };
        match string_map_of_members(m.drop_first()) {
            Some(rest) => {
                let vs = seq![e] + rest;
                assert(string_map_of_members(m) == Some(vs));
                assert forall|k: int| 0 <= k < m.len() implies #[trigger] vs[k].0 == m[k].0 && (
                match m[k].1 {
                    JsonView::Str(s) => vs[k].1 == Some(s),
                    _ => vs[k].1 is None,
                }) by {
                    if k > 0 {
                        assert(vs[k] == rest[k - 1]);
                        assert(m.drop_first()[k - 1] == m[k]);
                    }
                }
            },
            None => {},
        }
    }
}

/// A value of the protocol that can be read out of one JSON value.
pub trait JsonValue: View + Sized {
    /// The value a JSON document holds, if it holds one.
    spec fn of_json(j: JsonView) -> Option<Self::V>;

    /// Read the value out of a JSON document, exactly as `of_json`
    /// describes.
    fn from_json(j: &Json) -> (r: Option<Self>)
        ensures
            match r {
                Some(v) => Self::of_json(j@) == Some(v@),
                None => Self::of_json(j@) is None,
            },
    ;
}

/// The values a sequence of JSON documents holds: all of them or none.
pub open spec fn items_of_json<T: JsonValue>(items: Seq<JsonView>) -> Option<Seq<T::V>>
    decreases items.len(),
{
    if items.len() == 0 {
        Some(Seq::empty())
    } else {
        match T::of_json(items[0]) {
            Some(v) => match items_of_json::<T>(items.drop_first()) {
                Some(rest) => Some(seq![v] + rest),
                None => None,
            },
            None => None,
        }
    }
}

/// `items_of_json` succeeds iff every element reads, and then maps each
/// element to its value.
pub proof fn lemma_items_of_json<T: JsonValue>(items: Seq<JsonView>)
    ensures
        (items_of_json::<T>(items) is Some) <==> (forall|k: int|
            0 <= k < items.len() ==> T::of_json(#[trigger] items[k]) is Some),
        items_of_json::<T>(items) matches Some(vs) ==> vs.len() == items.len() && (forall|k: int|
            0 <= k < items.len() ==> Some(vs[k]) == T::of_json(#[trigger] items[k])),
    decreases items.len(),
{
    if items.len() > 0 {
        let rest_items = items.drop_first();
        lemma_items_of_json::<T>(rest_items);
        assert(forall|k: int|
            0 <= k < rest_items.len() ==> #[trigger] rest_items[k] == items[k + 1]);
        if forall|k: int| 0 <= k < items.len() ==> T::of_json(#[trigger] items[k]) is Some {
            assert(T::of_json(items[0]) is Some);
            assert forall|k: int|
                0 <= k < rest_items.len() implies T::of_json(#[trigger] rest_items[k]) is Some by {
                assert(rest_items[k] == items[k + 1]);
                assert(T::of_json(items[k + 1]) is Some);
            }
        }
        match T::of_json(items[0]) {
            Some(v) => {
                match items_of_json::<T>(rest_items) {
                    Some(rest) => {
                        let vs = seq![v] + rest;
                        assert(items_of_json::<T>(items) == Some(vs));
                        assert forall|k: int|
                            0 <= k < items.len() implies Some(#[trigger] vs[k]) == T::of_json(
                            items[k],
                        ) by {
                            if k == 0 {
                                assert(vs[0] == v);
                            } else {
                                assert(rest_items[k - 1] == items[k]);
                                assert(Some(rest[k - 1]) == T::of_json(rest_items[k - 1]));
                                assert(vs[k] == rest[k - 1]);
                            }
                        }
                        assert forall|k: int|
                            0 <= k < items.len() implies T::of_json(
                            #[trigger] items[k],
                        ) is Some by {
                            assert(Some(vs[k]) == T::of_json(items[k]));
                        }
                    },
                    None => {
                        assert(!(forall|k: int|
                            0 <= k < rest_items.len() ==> T::of_json(
                                #[trigger] rest_items[k],
                            ) is Some));
                        let k0 = choose|k: int|
                            0 <= k < rest_items.len() && !(T::of_json(
                                #[trigger] rest_items[k],
                            ) is Some);
                        assert(!(T::of_json(items[k0 + 1]) is Some));
                    },
                }
            },
            None => {
                assert(!(T::of_json(items[0]) is Some));
            },
        }
    }
}

/// Read a sequence of values out of JSON documents, exactly as
/// [`items_of_json`] describes.
pub fn items_from_json<T: JsonValue>(items: &Vec<Json>) -> (r: Option<Vec<T>>)
    ensures
        match r {
            Some(v) => items_of_json::<T>(Json::view_list(items@)) == Some(
                crate::response::views_of(v@),
            ),
            None => items_of_json::<T>(Json::view_list(items@)) is None,
        },
{
    let ghost jv = Json::view_list(items@);
    proof {
        Json::lemma_view_list(items@);
        lemma_items_of_json::<T>(jv);
    }
    let mut out: Vec<T> = Vec::new();
    let mut i: usize = 0;
    while i < items.len()
        invariant
            0 <= i <= items@.len(),
            jv == Json::view_list(items@),
            jv.len() == items@.len(),
            forall|k: int| 0 <= k < items@.len() ==> #[trigger] jv[k] == items@[k]@,
            out@.len() == i,
            forall|k: int| 0 <= k < i ==> Some(#[trigger] out@[k]@) == T::of_json(jv[k]),
        decreases items@.len() - i,
    {
        match T::from_json(&items[i]) {
            Some(v) => {
                out.push(v);
            },
            None => {
                proof {
                    lemma_items_of_json::<T>(jv);
                    assert(jv[i as int] == items@[i as int]@);
                    assert(!(T::of_json(jv[i as int]) is Some));
                }
                return None;
            },
        }
        i += 1;
    }
    proof {
        lemma_items_of_json::<T>(jv);
        assert forall|k: int| 0 <= k < jv.len() implies T::of_json(#[trigger] jv[k]) is Some by {
            assert(Some(out@[k]@) == T::of_json(jv[k]));
        }
        match items_of_json::<T>(jv) {
            Some(vs) => {
                assert forall|k: int|
                    0 <= k < vs.len() implies crate::response::views_of(out@)[k] == vs[k] by {
                    assert(Some(out@[k]@) == T::of_json(jv[k]));
                    assert(Some(vs[k]) == T::of_json(jv[k]));
                }
                assert(crate::response::views_of(out@) =~= vs);
            },
            None => {},
        }
    }
    Some(out)
}

impl JsonValue for String {
    /// A JSON string.
    open spec fn of_json(j: JsonView) -> Option<Seq<char>> {
        match j {
            JsonView::Str(s) => Some(s),
            _ => None,
        }
    }

    fn from_json(j: &Json) -> (r: Option<Self>) {
        match j {
            Json::Str(s) => Some(s.clone()),
            _ => None,
        }
    }
}

/// A required list-of-strings field: present and an array of strings.
pub open spec fn req_str_list_field(m: Seq<(Seq<char>, JsonView)>, key: Seq<char>) -> Option<
    Seq<Seq<char>>,
> {
    match obj_get(m, key) {
        Some(JsonView::Arr(elems)) => items_of_json::<String>(elems),
        _ => None,
    }
}

/// Read a required list-of-strings field, exactly as [`req_str_list_field`]
/// describes.
pub fn req_str_list_field_x(m: &Vec<(String, Json)>, key: &str) -> (r: Option<Vec<String>>)
    ensures
        match r {
            Some(v) => req_str_list_field(Json::view_members(m@), key@) == Some(
                crate::response::views_of(v@),
            ),
            None => req_str_list_field(Json::view_members(m@), key@) is None,
        },
{
    match obj_get_x(m, key) {
        Some(Json::Arr(elems)) => items_from_json::<String>(elems),
        _ => None,
    }
}

/// A response body that can be read out of a JSON text.
pub trait JsonPayload: View + Sized {
    /// The payload a body text holds, if it holds one.
    spec fn body_of(s: Seq<char>) -> Option<Self::V>;

    /// Read the payload out of a body text, exactly as `body_of` describes.
    fn parse_body(body: &str) -> (r: Option<Self>)
        ensures
            match r {
                Some(v) => Self::body_of(body@) == Some(v@),
                None => Self::body_of(body@) is None,
            },
    ;
}

} // verus!
