//! JSON documents as a tree of plain values, with the lookups that never fail:
//! what is absent reads as `Null`. Parsing and string quoting are done by the
//! `json` crate.

use vstd::prelude::*;
use vstd::std_specs::iter::IteratorSpec;
use crate::text::same_text;

verus! {

/// A JSON value. A number is held by its parts: it stands for `mantissa`
/// times ten to the power of `exponent`, negated unless `positive`.
#[derive(Debug, PartialEq, Eq)]
pub enum Json {
    Null,
    Boolean(bool),
    Number { positive: bool, mantissa: u64, exponent: i16 },
    Text(String),
    Array(Vec<Json>),
    Object(Vec<(String, Json)>),
}

/// The value of the first field called `key`, `Null` where there is none.
pub open spec fn first_named(fields: Seq<(String, Json)>, key: Seq<char>) -> Json
    decreases fields.len(),
{
    if fields.len() == 0 {
        Json::Null
    } else if fields[0].0@ == key {
        fields[0].1
    } else {
        first_named(fields.drop_first(), key)
    }
}

/// What an optional reference stands for: the value, or `Null`.
pub open spec fn or_null(v: Option<&Json>) -> Json {
    match v {
        Some(j) => *j,
        None => Json::Null,
    }
}

impl Json {
    /// The member `key` of an object; `Null` for a missing member and for any
    /// value that is no object.
    pub open spec fn member(self, key: Seq<char>) -> Json {
        match self {
            Json::Object(fields) => first_named(fields@, key),
            _ => Json::Null,
        }
    }

    /// The item at `i` of an array; `Null` past its end and for any value that
    /// is no array.
    pub open spec fn item(self, i: int) -> Json {
        match self {
            Json::Array(items) => if 0 <= i < items@.len() {
                items@[i]
            } else {
                Json::Null
            },
            _ => Json::Null,
        }
    }

    /// The number of items of an array or of members of an object, zero for
    /// everything else.
    pub open spec fn size(self) -> nat {
        match self {
            Json::Array(items) => items@.len(),
            Json::Object(fields) => fields@.len(),
            _ => 0,
        }
    }

    /// The characters of a string value.
    pub open spec fn text(self) -> Option<Seq<char>> {
        match self {
            Json::Text(s) => Some(s@),
            _ => None,
        }
    }

    /// A number read as `u64`: its mantissa, where it is positive and has no
    /// exponent. Every other number, and every other value, has no such
    /// reading.
    pub open spec fn unsigned(self) -> Option<u64> {
        match self {
            Json::Number { positive, mantissa, exponent } => if positive && exponent == 0 {
                Some(mantissa)
            } else {
                None
            },
            _ => None,
        }
    }

    /// A number read as `i64`: its value, where it has no exponent and the
    /// value lies in `i64`. Every other number, and every other value, has
    /// no such reading.
    pub open spec fn signed(self) -> Option<i64> {
        match self {
            Json::Number { positive, mantissa, exponent } => if exponent != 0 {
                None
            } else if positive {
                if mantissa <= i64::MAX {
                    Some(mantissa as i64)
                } else {
                    None
                }
            } else if mantissa <= 0x8000_0000_0000_0000 {
                Some((-(mantissa as int)) as i64)
            } else {
                None
            },
            _ => None,
        }
    }

    /// Looks up the member `key`.
    pub fn get<'a>(&'a self, key: &str) -> (r: Option<&'a Json>)
        ensures
            or_null(r) == self.member(key@),
    {
        match self {
            Json::Object(fields) => {
                let mut i: usize = 0;
                proof {
                    assert(fields@.skip(0) =~= fields@);
                }
                while i < fields.len()
                    invariant
                        i <= fields@.len(),
                        self.member(key@) == first_named(fields@, key@),
                        first_named(fields@, key@) == first_named(fields@.skip(i as int), key@),
                    decreases fields@.len() - i,
                {
                    proof {
                        assert(fields@.skip(i as int).drop_first() =~= fields@.skip(i as int + 1));
                        assert(fields@.skip(i as int)[0] == fields@[i as int]);
                    }
                    if same_text(fields[i].0.as_str(), key) {
                        return Some(&fields[i].1);
                    }
                    i += 1;
                }
                None
            },
            _ => None,
        }
    }

    /// The item at `i`.
    pub fn at<'a>(&'a self, i: usize) -> (r: Option<&'a Json>)
        ensures
            or_null(r) == self.item(i as int),
    {
        match self {
            Json::Array(items) => if i < items.len() {
                Some(&items[i])
            } else {
                None
            },
            _ => None,
        }
    }

    /// The number of items or members.
    pub fn len(&self) -> (n: usize)
        ensures
            n == self.size(),
    {
        match self {
            Json::Array(items) => items.len(),
            Json::Object(fields) => fields.len(),
            _ => 0,
        }
    }
}

/// Looks up the member `key` of a value that may itself be absent.
pub fn dig<'a>(from: Option<&'a Json>, key: &str) -> (r: Option<&'a Json>)
    ensures
        or_null(r) == or_null(from).member(key@),
{
    match from {
        Some(v) => v.get(key),
        None => None,
    }
}

/// The string that a value holds, if it is one.
pub fn text_of<'a>(v: Option<&'a Json>) -> (r: Option<&'a String>)
    ensures
        r.is_some() == or_null(v).text().is_some(),
        r matches Some(s) ==> or_null(v).text() == Some(s@),
{
    match v {
        Some(Json::Text(s)) => Some(s),
        _ => None,
    }
}

/// The `u64` that a value holds, if it is one.
pub fn unsigned_of(v: Option<&Json>) -> (r: Option<u64>)
    ensures
        r == or_null(v).unsigned(),
{
    match v {
        Some(Json::Number { positive, mantissa, exponent }) => if *positive && *exponent == 0 {
            Some(*mantissa)
        } else {
            None
        },
        _ => None,
    }
}

/// The `i64` that a value holds, if it is one.
pub fn signed_of(v: Option<&Json>) -> (r: Option<i64>)
    ensures
        r == or_null(v).signed(),
{
    match v {
        Some(Json::Number { positive, mantissa, exponent }) => if *exponent != 0 {
            None
        } else if *positive {
            if *mantissa <= 0x7fff_ffff_ffff_ffff {
                Some(*mantissa as i64)
            } else {
                None
            }
        } else if *mantissa < 0x8000_0000_0000_0000 {
            Some(-(*mantissa as i64))
        } else if *mantissa == 0x8000_0000_0000_0000 {
            Some(i64::MIN)
        } else {
            None
        },
        _ => None,
    }
}

/// The longest fraction that the parser is given, in digits.
pub const FRACTION_LIMIT: u32 = 32_767;

/// What the guard of the parser remembers while it walks over a text.
#[derive(Debug, Clone, Copy, PartialEq, Eq)]
pub struct Watch {
    /// Inside a string literal.
    pub in_string: bool,
    /// Inside a string literal, just after a backslash.
    pub escaped: bool,
    /// Outside string literals, with nothing but digits since the last point.
    pub counting: bool,
    /// How many digits have come since that point.
    pub run: u32,
    /// No point outside string literals has been followed by more digits
    /// than the limit so far.
    pub ok: bool,
}

impl Watch {
    /// The guard before the first character.
    pub open spec fn start() -> Watch {
        Watch { in_string: false, escaped: false, counting: false, run: 0, ok: true }
    }

    /// The guard after one more character. A quote opens a string literal
    /// and the next quote that no backslash stands before closes it; outside
    /// of string literals a point starts a count, every digit right after it
    /// adds to the count, and anything else ends it. Once the count has
    /// passed the limit, nothing changes any more.
    pub open spec fn after(self, c: char) -> Watch {
        if !self.ok {
            self
        } else if self.in_string {
            if self.escaped {
                Watch { in_string: true, escaped: false, counting: false, run: 0, ok: true }
            } else if c == '\\' {
                Watch { in_string: true, escaped: true, counting: false, run: 0, ok: true }
            } else if c == '"' {
                Watch { in_string: false, escaped: false, counting: false, run: 0, ok: true }
            } else {
                Watch { in_string: true, escaped: false, counting: false, run: 0, ok: true }
            }
        } else if c == '"' {
            Watch { in_string: true, escaped: false, counting: false, run: 0, ok: true }
        } else if c == '.' {
            Watch { in_string: false, escaped: false, counting: true, run: 0, ok: true }
        } else if self.counting && '0' <= c <= '9' {
            if self.run < FRACTION_LIMIT {
                Watch {
                    in_string: false,
                    escaped: false,
                    counting: true,
                    run: (self.run + 1) as u32,
                    ok: true,
                }
            } else {
                Watch { in_string: false, escaped: false, counting: true, run: self.run, ok: false }
            }
        } else {
            Watch { in_string: false, escaped: false, counting: false, run: 0, ok: true }
        }
    }

    /// Moves the guard over one character.
    pub fn step(self, c: char) -> (r: Watch)
        ensures
            r == self.after(c),
    {
        if !self.ok {
            self
        } else if self.in_string {
            if self.escaped {
                Watch { in_string: true, escaped: false, counting: false, run: 0, ok: true }
            } else if c == '\\' {
                Watch { in_string: true, escaped: true, counting: false, run: 0, ok: true }
            } else if c == '"' {
                Watch { in_string: false, escaped: false, counting: false, run: 0, ok: true }
            } else {
                Watch { in_string: true, escaped: false, counting: false, run: 0, ok: true }
            }
        } else if c == '"' {
            Watch { in_string: true, escaped: false, counting: false, run: 0, ok: true }
        } else if c == '.' {
            Watch { in_string: false, escaped: false, counting: true, run: 0, ok: true }
        } else if self.counting && '0' <= c && c <= '9' {
            if self.run < FRACTION_LIMIT {
                Watch {
                    in_string: false,
                    escaped: false,
                    counting: true,
                    run: self.run + 1,
                    ok: true,
                }
            } else {
                Watch { in_string: false, escaped: false, counting: true, run: self.run, ok: false }
            }
        } else {
            Watch { in_string: false, escaped: false, counting: false, run: 0, ok: true }
        }
    }
}

/// The guard after a whole text.
pub open spec fn watched(text: Seq<char>) -> Watch
    decreases text.len(),
{
    if text.len() == 0 {
        Watch::start()
    } else {
        watched(text.drop_last()).after(text.last())
    }
}

/// Whether a text can be handed to the parser: outside of its string
/// literals no point is followed by more than 32767 digits. The parser counts
/// the digits of a fraction in sixteen bits and does not survive a longer
/// one; runs of digits elsewhere do it no harm.
pub open spec fn parser_takes(text: Seq<char>) -> bool {
    watched(text).ok
}

/// Tests whether a text can be handed to the parser.
pub fn fits_parser(text: &str) -> (r: bool)
    ensures
        r == parser_takes(text@),
{
    broadcast use vstd::string::group_string_axioms;

    let mut chars = text.chars();
    let ghost mut seen: int = 0;
    let mut watch = Watch { in_string: false, escaped: false, counting: false, run: 0, ok: true };
    proof {
        assert(text@.skip(0) =~= text@);
        assert(text@.take(0) =~= Seq::<char>::empty());
    }
    loop
        invariant
            chars.obeys_prophetic_iter_laws(),
            chars.decrease() is Some,
            0 <= seen <= text@.len(),
            chars.remaining() == text@.skip(seen),
            watch == watched(text@.take(seen)),
        decreases chars.decrease()->0,
    {
        match chars.next() {
            Some(c) => {
                proof {
                    assert(text@.skip(seen)[0] == text@[seen]);
                    assert(text@.skip(seen).drop_first() =~= text@.skip(seen + 1));
                    assert(text@.take(seen + 1).drop_last() =~= text@.take(seen));
                    assert(text@.take(seen + 1).last() == c);
                    seen = seen + 1;
                }
                watch = watch.step(c);
            },
            None => {
                proof {
                    assert(text@.take(seen) =~= text@);
                }
                return watch.ok;
            },
        }
    }
}

/// A hexadecimal digit, in lower case.
pub open spec fn hex_digit(d: int) -> char {
    if d < 10 {
        crate::text::digit(d)
    } else if d == 10 {
        'a'
    } else if d == 11 {
        'b'
    } else if d == 12 {
        'c'
    } else if d == 13 {
        'd'
    } else if d == 14 {
        'e'
    } else {
        'f'
    }
}

/// How a character stands inside a JSON string literal: quote and backslash
/// get a backslash in front, the control characters below the space become
/// their short escape or `\u00` and two hexadecimal digits, and every other
/// character stands for itself.
pub open spec fn escaped(c: char) -> Seq<char> {
    if c == '"' {
        seq!['\\', '"']
    } else if c == '\\' {
        seq!['\\', '\\']
    } else if c == '\u{8}' {
        seq!['\\', 'b']
    } else if c == '\t' {
        seq!['\\', 't']
    } else if c == '\n' {
        seq!['\\', 'n']
    } else if c == '\u{c}' {
        seq!['\\', 'f']
    } else if c == '\r' {
        seq!['\\', 'r']
    } else if (c as u32) < 0x20 {
        seq!['\\', 'u', '0', '0', hex_digit((c as u32) as int / 16), hex_digit((c as u32) as int % 16)]
    } else {
        seq![c]
    }
}

/// The characters of a text, each as it stands inside a JSON string literal.
pub open spec fn escaped_text(text: Seq<char>) -> Seq<char>
    decreases text.len(),
{
    if text.len() == 0 {
        Seq::empty()
    } else {
        escaped_text(text.drop_last()) + escaped(text.last())
    }
}

/// The JSON string literal of a text: its escaped characters between quotes.
pub open spec fn quoted(text: Seq<char>) -> Seq<char> {
    seq!['"'] + escaped_text(text) + seq!['"']
}

#[verifier::external_type_specification]
#[verifier::external_body]
pub struct ExJsonValue(json::JsonValue);

/// What `json::parse` makes of a text, as a tree of this crate: `None` where
/// the text is no JSON document.
pub uninterp spec fn parsed_document(text: Seq<char>) -> Option<Json>;

/// Copies a `json::JsonValue` into a tree of this crate, variant by variant.
/// Both string variants become `Text`; a number hands over the three parts
/// that `Number::as_parts` returns; the members of an object keep the order
/// in which `Object::iter` hands them out. Nothing is claimed of the result
/// here.
#[verifier::external_body]
fn lift(value: &json::JsonValue) -> Json {
    match value {
        json::JsonValue::Null => Json::Null,
        json::JsonValue::Boolean(b) => Json::Boolean(*b),
        json::JsonValue::Number(n) => Json::Number { positive: n.as_parts().0, mantissa: n.as_parts().1, exponent: n.as_parts().2 },
        json::JsonValue::Short(s) => Json::Text(s.as_str().to_string()),
        json::JsonValue::String(s) => Json::Text(s.clone()),
        json::JsonValue::Array(items) => Json::Array(items.iter().map(lift).collect()),
        json::JsonValue::Object(o) => Json::Object(o.iter().map(|(k, v)| (k.to_string(), lift(v))).collect()),
    }
}

/// `json::parse`, its result copied into a tree of this crate. The parser is
/// a function of the text alone, so the result has a name; an error of the
/// parser becomes `None`. Texts with a fraction of more than 32767 digits
/// are left out: on a fraction that long the parser's count of digits
/// overflows.
#[verifier::external_body]
pub(crate) fn parse_document(text: &str) -> (r: Option<Json>)
    requires
        parser_takes(text@),
    ensures
        r == parsed_document(text@),
{
    json::parse(text).ok().map(|value| lift(&value))
}

/// `json::stringify` on a string: the JSON literal of `text`, which is the
/// text between quotes with the escapes of the generator's table.
#[verifier::external_body]
pub(crate) fn quote(text: &str) -> (r: String)
    ensures
        r@ == quoted(text@),
{
    json::stringify(text)
}

/// Parses a text into a tree: `None` for a text that cannot be handed to the
/// parser and for one that is no JSON document.
pub fn parse(text: &str) -> (r: Option<Json>)
    ensures
        r == document_of(text@),
{
    if fits_parser(text) {
        parse_document(text)
    } else {
        None
    }
}

/// The tree of a text: what the parser makes of it, where it can be handed
/// to the parser.
pub open spec fn document_of(text: Seq<char>) -> Option<Json> {
    if parser_takes(text) {
        parsed_document(text)
    } else {
        None
    }
}

} // verus!
