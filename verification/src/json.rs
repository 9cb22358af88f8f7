//! A small verified JSON reader.
//!
//! The Delta Sharing protocol exchanges JSON envelopes whose shape is fixed:
//! objects with string fields, arrays of objects, an integer here and there.
//! This module defines that grammar as specification functions over a
//! sequence of characters and provides an executable parser proved equal to
//! them. Numbers are kept as their raw text: no field of the protocol's
//! envelopes is read as a non-integer number.
//!
//! The grammar is the JSON value grammar: objects, arrays, strings with the
//! usual escapes (including `\uXXXX` and surrogate pairs), numbers, `true`,
//! `false` and `null`. Input longer than [`MAX_TEXT_LEN`] characters is
//! rejected outright, which bounds the parser's fuel.

use vstd::prelude::*;

verus! {

/// Texts longer than this are rejected before parsing.
pub const MAX_TEXT_LEN: usize = 0x0fff_ffff;

/// A parsed JSON value.
pub enum Json {
    Null,
    Bool(bool),
    /// A number, kept as its raw text.
    Num(String),
    /// A string, with escapes decoded.
    Str(String),
    Arr(Vec<Json>),
    Obj(Vec<(String, Json)>),
}

/// Specification-level value of a [`Json`].
pub enum JsonView {
    Null,
    Bool(bool),
    Num(Seq<char>),
    Str(Seq<char>),
    Arr(Seq<JsonView>),
    Obj(Seq<(Seq<char>, JsonView)>),
}

impl View for Json {
    type V = JsonView;

    open spec fn view(&self) -> JsonView
        decreases self,
    {
        match self {
            Json::Null => JsonView::Null,
            Json::Bool(b) => JsonView::Bool(*b),
            Json::Num(s) => JsonView::Num(s@),
            Json::Str(s) => JsonView::Str(s@),
            Json::Arr(v) => JsonView::Arr(Json::view_list(v@)),
            Json::Obj(v) => JsonView::Obj(Json::view_members(v@)),
        }
    }
}

impl Json {
    /// The views of a sequence of values, in order.
    pub closed spec fn view_list(s: Seq<Json>) -> Seq<JsonView>
        decreases s,
    {
        if s.len() == 0 {
            Seq::empty()
        } else {
            Json::view_list(s.drop_last()).push(s.last()@)
        }
    }

    /// The views of a sequence of members, in order.
    pub closed spec fn view_members(s: Seq<(String, Json)>) -> Seq<(Seq<char>, JsonView)>
        decreases s,
    {
        if s.len() == 0 {
            Seq::empty()
        } else {
            Json::view_members(s.drop_last()).push((s.last().0@, s.last().1@))
        }
    }

    /// `view_list` maps each element to its view.
    pub proof fn lemma_view_list(s: Seq<Json>)
        ensures
            Json::view_list(s).len() == s.len(),
            forall|i: int| 0 <= i < s.len() ==> #[trigger] Json::view_list(s)[i] == s[i]@,
        decreases s.len(),
    {
        if s.len() > 0 {
            Json::lemma_view_list(s.drop_last());
            assert(Json::view_list(s) == Json::view_list(s.drop_last()).push(s.last()@));
            assert forall|i: int| 0 <= i < s.len() implies #[trigger] Json::view_list(s)[i]
                == s[i]@ by {
                if i < s.len() - 1 {
                    assert(s.drop_last()[i] == s[i]);
                    assert(Json::view_list(s)[i] == Json::view_list(s.drop_last())[i]);
                } else {
                    assert(s.last() == s[i]);
                }
            }
        }
    }

    /// `view_members` maps each member to its view.
    pub proof fn lemma_view_members(s: Seq<(String, Json)>)
        ensures
            Json::view_members(s).len() == s.len(),
            forall|i: int|
                0 <= i < s.len() ==> #[trigger] Json::view_members(s)[i] == (s[i].0@, s[i].1@),
        decreases s.len(),
    {
        if s.len() > 0 {
            Json::lemma_view_members(s.drop_last());
            assert(Json::view_members(s) == Json::view_members(s.drop_last()).push(
                (s.last().0@, s.last().1@),
            ));
            assert forall|i: int| 0 <= i < s.len() implies #[trigger] Json::view_members(s)[i] == (
            s[i].0@,
            s[i].1@,
            ) by {
                if i < s.len() - 1 {
                    assert(s.drop_last()[i] == s[i]);
                    assert(Json::view_members(s)[i] == Json::view_members(s.drop_last())[i]);
                } else {
                    assert(s.last() == s[i]);
                }
            }
        }
    }
}

/// JSON insignificant whitespace.
pub open spec fn is_ws(c: char) -> bool {
    c == ' ' || c == '\t' || c == '\n' || c == '\r'
}

/// The first index at or after `i` that holds no whitespace.
pub open spec fn skip_ws(s: Seq<char>, i: int) -> int
    decreases s.len() - i,
{
    if 0 <= i < s.len() && is_ws(s[i]) {
        skip_ws(s, i + 1)
    } else {
        i
    }
}

pub open spec fn is_digit(c: char) -> bool {
    '0' <= c && c <= '9'
}

/// The first index at or after `i` that holds no decimal digit.
pub open spec fn skip_digits(s: Seq<char>, i: int) -> int
    decreases s.len() - i,
{
    if 0 <= i < s.len() && is_digit(s[i]) {
        skip_digits(s, i + 1)
    } else {
        i
    }
}

pub open spec fn is_hex_digit(c: char) -> bool {
    is_digit(c) || ('a' <= c && c <= 'f') || ('A' <= c && c <= 'F')
}

/// The value of one hexadecimal digit.
pub open spec fn hex_val(c: char) -> int {
    if is_digit(c) {
        c as u32 - '0' as u32
    } else if 'a' <= c && c <= 'f' {
        c as u32 - 'a' as u32 + 10
    } else {
        c as u32 - 'A' as u32 + 10
    }
}

/// The value of the four hexadecimal digits at `i`; `None` if any of the
/// four characters is no such digit or the text ends first.
pub open spec fn hex4(s: Seq<char>, i: int) -> Option<int> {
    if i + 4 <= s.len() && is_hex_digit(s[i]) && is_hex_digit(s[i + 1]) && is_hex_digit(s[i + 2])
        && is_hex_digit(s[i + 3]) {
        Some(
            0x1000 * hex_val(s[i]) + 0x100 * hex_val(s[i + 1]) + 0x10 * hex_val(s[i + 2]) + hex_val(
                s[i + 3],
            ),
        )
    } else {
        None
    }
}

/// A Unicode scalar: a code point that is no surrogate.
pub open spec fn is_scalar(v: int) -> bool {
    0 <= v <= 0x10ffff && !(0xd800 <= v && v <= 0xdfff)
}

/// The escape sequence starting at `i`, which points just past a backslash
/// inside a string: the decoded character and the index just past the
/// escape. Surrogate pairs written as two `\u` escapes decode to one
/// character.
pub open spec fn unescape(s: Seq<char>, i: int) -> Option<(char, int)> {
    if !(0 <= i < s.len()) {
        None
    } else if s[i] == '"' {
        Some(('"', i + 1))
    } else if s[i] == '\\' {
        Some(('\\', i + 1))
    } else if s[i] == '/' {
        Some(('/', i + 1))
    } else if s[i] == 'b' {
        Some(('\u{8}', i + 1))
    } else if s[i] == 'f' {
        Some(('\u{c}', i + 1))
    } else if s[i] == 'n' {
        Some(('\n', i + 1))
    } else if s[i] == 'r' {
        Some(('\r', i + 1))
    } else if s[i] == 't' {
        Some(('\t', i + 1))
    } else if s[i] == 'u' {
        match hex4(s, i + 1) {
            Some(hi) => if is_scalar(hi) {
                Some(((hi as u32) as char, i + 5))
            } else if 0xd800 <= hi && hi <= 0xdbff && i + 7 <= s.len() && s[i + 5] == '\\' && s[i
                + 6] == 'u' {
                match hex4(s, i + 7) {
                    Some(lo) => if 0xdc00 <= lo && lo <= 0xdfff {
                        Some(
                            (
                                ((0x10000 + (hi - 0xd800) * 0x400 + (lo - 0xdc00)) as u32) as char,
                                i + 11,
                            ),
                        )
                    } else {
                        None
                    },
                    None => None,
                }
            } else {
                None
            },
            None => None,
        }
    } else {
        None
    }
}

/// The string body starting at `i`, which points just past the opening
/// quote: the decoded content and the index just past the closing quote.
pub open spec fn parse_string(s: Seq<char>, i: int, fuel: nat) -> Option<(Seq<char>, int)>
    decreases fuel,
{
    if fuel == 0 || !(0 <= i < s.len()) {
        None
    } else if s[i] == '"' {
        Some((Seq::empty(), i + 1))
    } else if s[i] == '\\' {
        match unescape(s, i + 1) {
            Some((c, j)) => match parse_string(s, j, (fuel - 1) as nat) {
                Some((rest, k)) => Some((seq![c] + rest, k)),
                None => None,
            },
            None => None,
        }
    } else if s[i] as u32 >= 0x20 {
        match parse_string(s, i + 1, (fuel - 1) as nat) {
            Some((rest, k)) => Some((seq![s[i]] + rest, k)),
            None => None,
        }
    } else {
        None
    }
}

/// The number token starting at `i`: its raw text and the index just past
/// it. The token follows the JSON number grammar: an optional minus sign,
/// an integer part without leading zeroes, an optional fraction, an
/// optional exponent.
pub open spec fn parse_number(s: Seq<char>, i: int) -> Option<(Seq<char>, int)> {
    let j = if 0 <= i < s.len() && s[i] == '-' {
        i + 1
    } else {
        i
    };
    if !(j < s.len() && is_digit(s[j])) {
        None
    } else {
        let k = if s[j] == '0' {
            j + 1
        } else {
            skip_digits(s, j)
        };
        let f = if k < s.len() && s[k] == '.' && k + 1 < s.len() && is_digit(s[k + 1]) {
            skip_digits(s, k + 1)
        } else {
            k
        };
        let e = if f < s.len() && (s[f] == 'e' || s[f] == 'E') {
            let g = if f + 1 < s.len() && (s[f + 1] == '+' || s[f + 1] == '-') {
                f + 2
            } else {
                f + 1
            };
            if g < s.len() && is_digit(s[g]) {
                skip_digits(s, g)
            } else {
                f
            }
        } else {
            f
        };
        if e == f && f < s.len() && (s[f] == 'e' || s[f] == 'E') {
            None
        } else {
            Some((s.subrange(i, e), e))
        }
    }
}

/// The JSON value starting at `i`, leading whitespace allowed: the value
/// and the index just past it.
pub open spec fn parse_value(s: Seq<char>, i: int, fuel: nat) -> Option<(JsonView, int)>
    decreases fuel,
{
    if fuel == 0 {
        None
    } else {
        let j = skip_ws(s, i);
        if !(0 <= j < s.len()) {
            None
        } else if s[j] == '"' {
            match parse_string(s, j + 1, (fuel - 1) as nat) {
                Some((content, k)) => Some((JsonView::Str(content), k)),
                None => None,
            }
        } else if s[j] == '[' {
            parse_array(s, j + 1, (fuel - 1) as nat)
        } else if s[j] == '{' {
            parse_object(s, j + 1, (fuel - 1) as nat)
        } else if s[j] == 't' {
            if j + 4 <= s.len() && s[j + 1] == 'r' && s[j + 2] == 'u' && s[j + 3] == 'e' {
                Some((JsonView::Bool(true), j + 4))
            } else {
                None
            }
        } else if s[j] == 'f' {
            if j + 5 <= s.len() && s[j + 1] == 'a' && s[j + 2] == 'l' && s[j + 3] == 's' && s[j
                + 4] == 'e' {
                Some((JsonView::Bool(false), j + 5))
            } else {
                None
            }
        } else if s[j] == 'n' {
            if j + 4 <= s.len() && s[j + 1] == 'u' && s[j + 2] == 'l' && s[j + 3] == 'l' {
                Some((JsonView::Null, j + 4))
            } else {
                None
            }
        } else if s[j] == '-' || is_digit(s[j]) {
            match parse_number(s, j) {
                Some((raw, k)) => Some((JsonView::Num(raw), k)),
                None => None,
            }
        } else {
            None
        }
    }
}

/// The array body starting at `i`, which points just past the opening
/// bracket: the elements and the index just past the closing bracket.
pub open spec fn parse_array(s: Seq<char>, i: int, fuel: nat) -> Option<(JsonView, int)>
    decreases fuel,
{
    if fuel == 0 {
        None
    } else {
        let j = skip_ws(s, i);
        if 0 <= j < s.len() && s[j] == ']' {
            Some((JsonView::Arr(Seq::empty()), j + 1))
        } else {
            match parse_items(s, i, (fuel - 1) as nat) {
                Some((items, k)) => Some((JsonView::Arr(items), k)),
                None => None,
            }
        }
    }
}

/// One or more comma-separated array elements starting at `i`, closed by a
/// bracket: the elements and the index just past the bracket.
pub open spec fn parse_items(s: Seq<char>, i: int, fuel: nat) -> Option<(Seq<JsonView>, int)>
    decreases fuel,
{
    if fuel == 0 {
        None
    } else {
        match parse_value(s, i, (fuel - 1) as nat) {
            Some((v, j)) => {
                let k = skip_ws(s, j);
                if 0 <= k < s.len() && s[k] == ',' {
                    match parse_items(s, k + 1, (fuel - 1) as nat) {
                        Some((rest, m)) => Some((seq![v] + rest, m)),
                        None => None,
                    }
                } else if 0 <= k < s.len() && s[k] == ']' {
                    Some((seq![v], k + 1))
                } else {
                    None
                }
            },
            None => None,
        }
    }
}

/// The object body starting at `i`, which points just past the opening
/// brace: the members in source order and the index just past the closing
/// brace.
pub open spec fn parse_object(s: Seq<char>, i: int, fuel: nat) -> Option<(JsonView, int)>
    decreases fuel,
{
    if fuel == 0 {
        None
    } else {
        let j = skip_ws(s, i);
        if 0 <= j < s.len() && s[j] == '}' {
            Some((JsonView::Obj(Seq::empty()), j + 1))
        } else {
            match parse_members(s, i, (fuel - 1) as nat) {
                Some((members, k)) => Some((JsonView::Obj(members), k)),
                None => None,
            }
        }
    }
}

/// One or more comma-separated object members starting at `i`, closed by a
/// brace: the key-value pairs in source order and the index just past the
/// brace.
pub open spec fn parse_members(
    s: Seq<char>,
    i: int,
    fuel: nat,
) -> Option<(Seq<(Seq<char>, JsonView)>, int)>
    decreases fuel,
{
    if fuel == 0 {
        None
    } else {
        let j = skip_ws(s, i);
        if !(0 <= j < s.len() && s[j] == '"') {
            None
        } else {
            match parse_string(s, j + 1, (fuel - 1) as nat) {
                Some((key, k)) => {
                    let m = skip_ws(s, k);
                    if !(0 <= m < s.len() && s[m] == ':') {
                        None
                    } else {
                        match parse_value(s, m + 1, (fuel - 1) as nat) {
                            Some((v, n)) => {
                                let p = skip_ws(s, n);
                                if 0 <= p < s.len() && s[p] == ',' {
                                    match parse_members(s, p + 1, (fuel - 1) as nat) {
                                        Some((rest, q)) => Some((seq![(key, v)] + rest, q)),
                                        None => None,
                                    }
                                } else if 0 <= p < s.len() && s[p] == '}' {
                                    Some((seq![(key, v)], p + 1))
                                } else {
                                    None
                                }
                            },
                            None => None,
                        }
                    }
                },
                None => None,
            }
        }
    }
}

/// The fuel that suffices for any text of length `n`: each unit of fuel
/// spent by the parser accompanies at least one of two characters consumed.
pub open spec fn fuel_for(n: int) -> nat {
    (3 * n + 8) as nat
}

/// The JSON document a text holds: one value, surrounded only by
/// whitespace. Texts longer than [`MAX_TEXT_LEN`] hold none.
pub open spec fn json_of_text(s: Seq<char>) -> Option<JsonView> {
    if s.len() > MAX_TEXT_LEN {
        None
    } else {
        match parse_value(s, 0, fuel_for(s.len() as int)) {
            Some((v, j)) => if skip_ws(s, j) == s.len() {
                Some(v)
            } else {
                None
            },
            None => None,
        }
    }
}

fn is_ws_x(c: char) -> (r: bool)
    ensures
        r == is_ws(c),
{
    c == ' ' || c == '\t' || c == '\n' || c == '\r'
}

fn is_digit_x(c: char) -> (r: bool)
    ensures
        r == is_digit(c),
{
    '0' <= c && c <= '9'
}

fn is_hex_digit_x(c: char) -> (r: bool)
    ensures
        r == is_hex_digit(c),
{
    is_digit_x(c) || ('a' <= c && c <= 'f') || ('A' <= c && c <= 'F')
}

pub(crate) fn skip_ws_x(s: &Vec<char>, i: usize) -> (r: usize)
    requires
        i <= s@.len(),
    ensures
        r == skip_ws(s@, i as int),
        i <= r <= s@.len(),
{
    let mut j = i;
    while j < s.len() && is_ws_x(s[j])
        invariant
            i <= j <= s@.len(),
            skip_ws(s@, i as int) == skip_ws(s@, j as int),
        decreases s@.len() - j,
    {
        j += 1;
    }
    j
}

fn skip_digits_x(s: &Vec<char>, i: usize) -> (r: usize)
    requires
        i <= s@.len(),
    ensures
        r == skip_digits(s@, i as int),
        i <= r <= s@.len(),
{
    let mut j = i;
    while j < s.len() && is_digit_x(s[j])
        invariant
            i <= j <= s@.len(),
            skip_digits(s@, i as int) == skip_digits(s@, j as int),
        decreases s@.len() - j,
    {
        j += 1;
    }
    j
}

fn hex_val_x(c: char) -> (r: u32)
    requires
        is_hex_digit(c),
    ensures
        r as int == hex_val(c),
{
    if '0' <= c && c <= '9' {
        c as u32 - '0' as u32
    } else if 'a' <= c && c <= 'f' {
        c as u32 - 'a' as u32 + 10
    } else {
        c as u32 - 'A' as u32 + 10
    }
}

fn hex4_x(s: &Vec<char>, i: usize) -> (r: Option<u32>)
    requires
        s@.len() <= MAX_TEXT_LEN,
        i <= s@.len(),
    ensures
        match r {
            Some(v) => hex4(s@, i as int) == Some(v as int) && i + 4 <= s@.len() && v <= 0xffff,
            None => hex4(s@, i as int) is None,
        },
{
    if i + 4 <= s.len() && is_hex_digit_x(s[i]) && is_hex_digit_x(s[i + 1]) && is_hex_digit_x(
        s[i + 2],
    ) && is_hex_digit_x(s[i + 3]) {
        Some(
            0x1000 * hex_val_x(s[i]) + 0x100 * hex_val_x(s[i + 1]) + 0x10 * hex_val_x(s[i + 2])
                + hex_val_x(s[i + 3]),
        )
    } else {
        None
    }
}

fn is_scalar_x(v: u32) -> (r: bool)
    ensures
        r == is_scalar(v as int),
{
    v <= 0x10ffff && !(0xd800 <= v && v <= 0xdfff)
}

/// Relies on `char::from_u32`: for every Unicode scalar value it returns
/// the character with that value.
#[verifier::external_body]
fn char_from_scalar(v: u32) -> (c: char)
    requires
        is_scalar(v as int),
    ensures
        c == (v as char),
{
    char::from_u32(v).unwrap()
}

fn unescape_x(s: &Vec<char>, i: usize) -> (r: Option<(char, usize)>)
    requires
        s@.len() <= MAX_TEXT_LEN,
        i <= s@.len(),
    ensures
        match r {
            Some((c, j)) => unescape(s@, i as int) == Some((c, j as int)) && i < j <= s@.len(),
            None => unescape(s@, i as int) is None,
        },
{
    if i >= s.len() {
        return None;
    }
    let c = s[i];
    if c == '"' {
        Some(('"', i + 1))
    } else if c == '\\' {
        Some(('\\', i + 1))
    } else if c == '/' {
        Some(('/', i + 1))
    } else if c == 'b' {
        Some(('\u{8}', i + 1))
    } else if c == 'f' {
        Some(('\u{c}', i + 1))
    } else if c == 'n' {
        Some(('\n', i + 1))
    } else if c == 'r' {
        Some(('\r', i + 1))
    } else if c == 't' {
        Some(('\t', i + 1))
    } else if c == 'u' {
        match hex4_x(s, i + 1) {
            Some(hi) => {
                if is_scalar_x(hi) {
                    Some((char_from_scalar(hi), i + 5))
                } else if 0xd800 <= hi && hi <= 0xdbff && i + 7 <= s.len() && s[i + 5] == '\\'
                    && s[i + 6] == 'u' {
                    match hex4_x(s, i + 7) {
                        Some(lo) => {
                            if 0xdc00 <= lo && lo <= 0xdfff {
                                let scalar = 0x10000 + (hi - 0xd800) * 0x400 + (lo - 0xdc00);
                                Some((char_from_scalar(scalar), i + 11))
                            } else {
                                None
                            }
                        },
                        None => None,
                    }
                } else {
                    None
                }
            },
            None => None,
        }
    } else {
        None
    }
}

fn parse_string_x(s: &Vec<char>, i: usize, fuel: usize) -> (r: Option<(Vec<char>, usize)>)
    requires
        s@.len() <= MAX_TEXT_LEN,
        i <= s@.len(),
    ensures
        match r {
            Some((content, j)) => parse_string(s@, i as int, fuel as nat) == Some(
                (content@, j as int),
            ) && j <= s@.len(),
            None => parse_string(s@, i as int, fuel as nat) is None,
        },
    decreases fuel,
{
    if fuel == 0 || i >= s.len() {
        return None;
    }
    let c = s[i];
    if c == '"' {
        let content: Vec<char> = Vec::new();
        proof {
            assert(content@ =~= Seq::<char>::empty());
        }
        Some((content, i + 1))
    } else if c == '\\' {
        match unescape_x(s, i + 1) {
            Some((e, j)) => match parse_string_x(s, j, fuel - 1) {
                Some((rest, k)) => {
                    let mut content = rest;
                    content.insert(0, e);
                    proof {
                        assert(content@ =~= seq![e] + content@.subrange(1, content@.len() as int));
                    }
                    Some((content, k))
                },
                None => None,
            },
            None => None,
        }
    } else if c as u32 >= 0x20 {
        match parse_string_x(s, i + 1, fuel - 1) {
            Some((rest, k)) => {
                let mut content = rest;
                content.insert(0, c);
                proof {
                    assert(content@ =~= seq![c] + content@.subrange(1, content@.len() as int));
                }
                Some((content, k))
            },
            None => None,
        }
    } else {
        None
    }
}

fn parse_number_x(s: &Vec<char>, i: usize) -> (r: Option<(String, usize)>)
    requires
        s@.len() <= MAX_TEXT_LEN,
        i <= s@.len(),
    ensures
        match r {
            Some((raw, j)) => parse_number(s@, i as int) == Some((raw@, j as int)) && i <= j
                <= s@.len(),
            None => parse_number(s@, i as int) is None,
        },
{
    let j = if i < s.len() && s[i] == '-' {
        i + 1
    } else {
        i
    };
    if !(j < s.len() && is_digit_x(s[j])) {
        return None;
    }
    let k = if s[j] == '0' {
        j + 1
    } else {
        skip_digits_x(s, j)
    };
    let f = if k < s.len() && s[k] == '.' && k + 1 < s.len() && is_digit_x(s[k + 1]) {
        skip_digits_x(s, k + 1)
    } else {
        k
    };
    let e = if f < s.len() && (s[f] == 'e' || s[f] == 'E') {
        let g = if f + 1 < s.len() && (s[f + 1] == '+' || s[f + 1] == '-') {
            f + 2
        } else {
            f + 1
        };
        if g < s.len() && is_digit_x(s[g]) {
            skip_digits_x(s, g)
        } else {
            f
        }
    } else {
        f
    };
    if e == f && f < s.len() && (s[f] == 'e' || s[f] == 'E') {
        None
    } else {
        Some((crate::text::string_of_range(s, i, e), e))
    }
}

/// Prepending an element commutes with taking views of a list.
proof fn lemma_view_list_insert_front(v: Json, rest: Seq<Json>)
    ensures
        Json::view_list(rest.insert(0, v)) =~= seq![v@] + Json::view_list(rest),
{
    Json::lemma_view_list(rest.insert(0, v));
    Json::lemma_view_list(rest);
    assert forall|i: int| 0 <= i < rest.len() + 1 implies #[trigger] Json::view_list(
        rest.insert(0, v),
    )[i] == (seq![v@] + Json::view_list(rest))[i] by {
        if i == 0 {
            assert(rest.insert(0, v)[0] == v);
        } else {
            assert(rest.insert(0, v)[i] == rest[i - 1]);
        }
    }
}

/// Prepending a member commutes with taking views of a member list.
proof fn lemma_view_members_insert_front(key: String, v: Json, rest: Seq<(String, Json)>)
    ensures
        Json::view_members(rest.insert(0, (key, v))) =~= seq![(key@, v@)] + Json::view_members(
            rest,
        ),
{
    Json::lemma_view_members(rest.insert(0, (key, v)));
    Json::lemma_view_members(rest);
    assert forall|i: int| 0 <= i < rest.len() + 1 implies #[trigger] Json::view_members(
        rest.insert(0, (key, v)),
    )[i] == (seq![(key@, v@)] + Json::view_members(rest))[i] by {
        if i == 0 {
            assert(rest.insert(0, (key, v))[0] == (key, v));
        } else {
            assert(rest.insert(0, (key, v))[i] == rest[i - 1]);
        }
    }
}

pub(crate) fn parse_value_x(s: &Vec<char>, i: usize, fuel: usize) -> (r: Option<(Json, usize)>)
    requires
        s@.len() <= MAX_TEXT_LEN,
        i <= s@.len(),
    ensures
        match r {
            Some((v, j)) => parse_value(s@, i as int, fuel as nat) == Some((v@, j as int)) && j
                <= s@.len(),
            None => parse_value(s@, i as int, fuel as nat) is None,
        },
    decreases fuel,
{
    if fuel == 0 {
        return None;
    }
    let j = skip_ws_x(s, i);
    if j >= s.len() {
        return None;
    }
    let c = s[j];
    if c == '"' {
        match parse_string_x(s, j + 1, fuel - 1) {
            Some((content, k)) => Some((Json::Str(crate::text::string_from_chars(&content)), k)),
            None => None,
        }
    } else if c == '[' {
        parse_array_x(s, j + 1, fuel - 1)
    } else if c == '{' {
        parse_object_x(s, j + 1, fuel - 1)
    } else if c == 't' {
        if j + 4 <= s.len() && s[j + 1] == 'r' && s[j + 2] == 'u' && s[j + 3] == 'e' {
            Some((Json::Bool(true), j + 4))
        } else {
            None
        }
    } else if c == 'f' {
        if j + 5 <= s.len() && s[j + 1] == 'a' && s[j + 2] == 'l' && s[j + 3] == 's' && s[j + 4]
            == 'e' {
            Some((Json::Bool(false), j + 5))
        } else {
            None
        }
    } else if c == 'n' {
        if j + 4 <= s.len() && s[j + 1] == 'u' && s[j + 2] == 'l' && s[j + 3] == 'l' {
            Some((Json::Null, j + 4))
        } else {
            None
        }
    } else if c == '-' || is_digit_x(c) {
        match parse_number_x(s, j) {
            Some((raw, k)) => Some((Json::Num(raw), k)),
            None => None,
        }
    } else {
        None
    }
}

fn parse_array_x(s: &Vec<char>, i: usize, fuel: usize) -> (r: Option<(Json, usize)>)
    requires
        s@.len() <= MAX_TEXT_LEN,
        i <= s@.len(),
    ensures
        match r {
            Some((v, j)) => parse_array(s@, i as int, fuel as nat) == Some((v@, j as int)) && j
                <= s@.len(),
            None => parse_array(s@, i as int, fuel as nat) is None,
        },
    decreases fuel,
{
    if fuel == 0 {
        return None;
    }
    let j = skip_ws_x(s, i);
    if j < s.len() && s[j] == ']' {
        let items: Vec<Json> = Vec::new();
        proof {
            Json::lemma_view_list(items@);
            assert(Json::view_list(items@) =~= Seq::<JsonView>::empty());
        }
        Some((Json::Arr(items), j + 1))
    } else {
        match parse_items_x(s, i, fuel - 1) {
            Some((items, k)) => Some((Json::Arr(items), k)),
            None => None,
        }
    }
}

fn parse_items_x(s: &Vec<char>, i: usize, fuel: usize) -> (r: Option<(Vec<Json>, usize)>)
    requires
        s@.len() <= MAX_TEXT_LEN,
        i <= s@.len(),
    ensures
        match r {
            Some((items, j)) => parse_items(s@, i as int, fuel as nat) == Some(
                (Json::view_list(items@), j as int),
            ) && j <= s@.len(),
            None => parse_items(s@, i as int, fuel as nat) is None,
        },
    decreases fuel,
{
    if fuel == 0 {
        return None;
    }
    match parse_value_x(s, i, fuel - 1) {
        Some((v, j)) => {
            let k = skip_ws_x(s, j);
            if k < s.len() && s[k] == ',' {
                match parse_items_x(s, k + 1, fuel - 1) {
                    Some((rest, m)) => {
                        let ghost rest_view = rest@;
                        let mut items = rest;
                        items.insert(0, v);
                        proof {
                            lemma_view_list_insert_front(v, rest_view);
                            assert(Json::view_list(items@) =~= seq![v@] + Json::view_list(
                                rest_view,
                            ));
                        }
                        Some((items, m))
                    },
                    None => None,
                }
            } else if k < s.len() && s[k] == ']' {
                let mut items: Vec<Json> = Vec::new();
                items.push(v);
                proof {
                    Json::lemma_view_list(items@);
                    assert(Json::view_list(items@) =~= seq![v@]);
                }
                Some((items, k + 1))
            } else {
                None
            }
        },
        None => None,
    }
}

fn parse_object_x(s: &Vec<char>, i: usize, fuel: usize) -> (r: Option<(Json, usize)>)
    requires
        s@.len() <= MAX_TEXT_LEN,
        i <= s@.len(),
    ensures
        match r {
            Some((v, j)) => parse_object(s@, i as int, fuel as nat) == Some((v@, j as int)) && j
                <= s@.len(),
            None => parse_object(s@, i as int, fuel as nat) is None,
        },
    decreases fuel,
{
    if fuel == 0 {
        return None;
    }
    let j = skip_ws_x(s, i);
    if j < s.len() && s[j] == '}' {
        let members: Vec<(String, Json)> = Vec::new();
        proof {
            Json::lemma_view_members(members@);
            assert(Json::view_members(members@) =~= Seq::<(Seq<char>, JsonView)>::empty());
        }
        Some((Json::Obj(members), j + 1))
    } else {
        match parse_members_x(s, i, fuel - 1) {
            Some((members, k)) => Some((Json::Obj(members), k)),
            None => None,
        }
    }
}

fn parse_members_x(s: &Vec<char>, i: usize, fuel: usize) -> (r: Option<
    (Vec<(String, Json)>, usize),
>)
    requires
        s@.len() <= MAX_TEXT_LEN,
        i <= s@.len(),
    ensures
        match r {
            Some((members, j)) => parse_members(s@, i as int, fuel as nat) == Some(
                (Json::view_members(members@), j as int),
            ) && j <= s@.len(),
            None => parse_members(s@, i as int, fuel as nat) is None,
        },
    decreases fuel,
{
    if fuel == 0 {
        return None;
    }
    let j = skip_ws_x(s, i);
    if !(j < s.len() && s[j] == '"') {
        return None;
    }
    match parse_string_x(s, j + 1, fuel - 1) {
        Some((key_chars, k)) => {
            let key = crate::text::string_from_chars(&key_chars);
            let m = skip_ws_x(s, k);
            if !(m < s.len() && s[m] == ':') {
                return None;
            }
            match parse_value_x(s, m + 1, fuel - 1) {
                Some((v, n)) => {
                    let p = skip_ws_x(s, n);
                    if p < s.len() && s[p] == ',' {
                        match parse_members_x(s, p + 1, fuel - 1) {
                            Some((rest, q)) => {
                                let ghost rest_view = rest@;
                                let ghost key_view = key@;
                                let ghost v_view = v@;
                                let mut members = rest;
                                members.insert(0, (key, v));
                                proof {
                                    lemma_view_members_insert_front(
                                        members@[0].0,
                                        members@[0].1,
                                        rest_view,
                                    );
                                    assert(members@[0].0@ == key_view);
                                    assert(members@[0].1@ == v_view);
                                    assert(Json::view_members(members@) =~= seq![
                                        (key_view, v_view),
                                    ] + Json::view_members(rest_view));
                                }
                                Some((members, q))
                            },
                            None => None,
                        }
                    } else if p < s.len() && s[p] == '}' {
                        let ghost key_view = key@;
                        let ghost v_view = v@;
                        let mut members: Vec<(String, Json)> = Vec::new();
                        members.push((key, v));
                        proof {
                            Json::lemma_view_members(members@);
                            assert(Json::view_members(members@) =~= seq![(key_view, v_view)]);
                        }
                        Some((members, p + 1))
                    } else {
                        None
                    }
                },
                None => None,
            }
        },
        None => None,
    }
}

/// The JSON escaping of one character inside a string literal: quotes and
/// backslashes are escaped, control characters are written as `\u00XX` (or
/// the common short forms), and everything else stands as itself.
pub open spec fn json_escape_char(c: char) -> Seq<char> {
    if c == '"' {
        seq!['\\', '"']
    } else if c == '\\' {
        seq!['\\', '\\']
    } else if c == '\n' {
        seq!['\\', 'n']
    } else if c == '\r' {
        seq!['\\', 'r']
    } else if c == '\t' {
        seq!['\\', 't']
    } else if (c as u32) < 0x20 {
        seq!['\\', 'u', '0', '0', hex_upper_char((c as u32) / 16), hex_upper_char((c as u32) % 16)]
    } else {
        seq![c]
    }
}

/// The upper-case hexadecimal digit of a value below sixteen.
pub open spec fn hex_upper_char(d: u32) -> char {
    if d < 10 {
        ((d + '0' as u32) as u8) as char
    } else {
        ((d - 10 + 'A' as u32) as u8) as char
    }
}

/// The JSON escaping of a whole string.
pub open spec fn json_escape(s: Seq<char>) -> Seq<char>
    decreases s.len(),
{
    if s.len() == 0 {
        Seq::empty()
    } else {
        json_escape(s.drop_last()) + json_escape_char(s.last())
    }
}

/// Escape a string for a JSON string literal, exactly as [`json_escape`]
/// describes.
pub fn json_escape_chars(s: &str) -> (r: Vec<char>)
    ensures
        r@ == json_escape(s@),
{
    let sv = crate::text::chars_vec(s);
    let mut out: Vec<char> = Vec::new();
    let mut i: usize = 0;
    while i < sv.len()
        invariant
            sv@ == s@,
            0 <= i <= sv@.len(),
            out@ == json_escape(s@.take(i as int)),
        decreases sv@.len() - i,
    {
        let c = sv[i];
        if c == '"' {
            out.push('\\');
            out.push('"');
        } else if c == '\\' {
            out.push('\\');
            out.push('\\');
        } else if c == '\n' {
            out.push('\\');
            out.push('n');
        } else if c == '\r' {
            out.push('\\');
            out.push('r');
        } else if c == '\t' {
            out.push('\\');
            out.push('t');
        } else if (c as u32) < 0x20 {
            out.push('\\');
            out.push('u');
            out.push('0');
            out.push('0');
            let hi = (c as u32) / 16;
            let lo = (c as u32) % 16;
            let hi_c = if hi < 10 {
                ((hi + '0' as u32) as u8) as char
            } else {
                ((hi - 10 + 'A' as u32) as u8) as char
            };
            let lo_c = if lo < 10 {
                ((lo + '0' as u32) as u8) as char
            } else {
                ((lo - 10 + 'A' as u32) as u8) as char
            };
            out.push(hi_c);
            out.push(lo_c);
        } else {
            out.push(c);
        }
        proof {
            assert(s@.take(i + 1).drop_last() =~= s@.take(i as int));
            assert(s@.take(i + 1).last() == s@[i as int]);
            assert(out@ =~= json_escape(s@.take(i as int)) + json_escape_char(s@[i as int]));
        }
        i += 1;
    }
    proof {
        assert(s@.take(s@.len() as int) =~= s@);
    }
    out
}

/// Parse a text into the JSON document it holds, exactly as
/// [`json_of_text`] describes.
pub fn parse_json_text(s: &str) -> (r: Option<Json>)
    ensures
        match r {
            Some(j) => json_of_text(s@) == Some(j@),
            None => json_of_text(s@) is None,
        },
{
    let cs = crate::text::chars_vec(s);
    if cs.len() > MAX_TEXT_LEN {
        return None;
    }
    let fuel: usize = 3 * cs.len() + 8;
    match parse_value_x(&cs, 0, fuel) {
        Some((v, j)) => {
            let k = skip_ws_x(&cs, j);
            if k == cs.len() {
                Some(v)
            } else {
                None
            }
        },
        None => None,
    }
}

} // verus!
