//! The JSON tree that wire frames are read into and built from, with the
//! text conversions done by `serde_json`.
use vstd::prelude::*;

verus! {

/// A JSON value. Numbers read from text keep the decimal text they were
/// written with; numbers built here are unsigned integers.
#[derive(Debug)]
pub enum Json {
    Null,
    Bool(bool),
    Num(String),
    UInt(u64),
    Str(String),
    Array(Vec<Json>),
    Object(Vec<(String, Json)>),
}

#[verifier::external_type_specification]
#[verifier::external_body]
pub struct ExValue(serde_json::Value);

/// The tree `serde_json` reads from `text`, if the text is JSON.
pub uninterp spec fn json_parse(text: Seq<char>) -> Option<Json>;

/// The text `serde_json` writes for `value`.
pub uninterp spec fn json_text(value: Json) -> Seq<char>;

/// Relies on the variants of `serde_json::Value`: each becomes the variant
/// of the same name here, a number as the text serde_json writes for it,
/// arrays and objects element by element.
#[verifier::external_body]
fn json_from_value(v: serde_json::Value) -> Json {
    match v {
        serde_json::Value::Null => Json::Null,
        serde_json::Value::Bool(b) => Json::Bool(b),
        serde_json::Value::Number(n) => Json::Num(n.to_string()),
        serde_json::Value::String(s) => Json::Str(s),
        serde_json::Value::Array(a) => Json::Array(a.into_iter().map(json_from_value).collect()),
        serde_json::Value::Object(o) => Json::Object(
            o.into_iter().map(|(k, x)| (k, json_from_value(x))).collect(),
        ),
    }
}

/// Relies on the variants of `serde_json::Value`: each variant here
/// becomes the one of the same name there; a number's text is read by
/// `serde_json::Number::from_str`, and text that is no number becomes null.
#[verifier::external_body]
fn json_to_value(j: &Json) -> serde_json::Value {
    match j {
        Json::Null => serde_json::Value::Null,
        Json::Bool(b) => serde_json::Value::Bool(*b),
        Json::Num(t) => t.parse::<serde_json::Number>().map_or(serde_json::Value::Null, serde_json::Value::Number),
        Json::UInt(u) => serde_json::Value::from(*u),
        Json::Str(s) => serde_json::Value::String(s.clone()),
        Json::Array(a) => serde_json::Value::Array(a.iter().map(json_to_value).collect()),
        Json::Object(o) => serde_json::Value::Object(
            o.iter().map(|(k, x)| (k.clone(), json_to_value(x))).collect(),
        ),
    }
}

/// Relies on `serde_json::from_str::<serde_json::Value>`: the tree of the
/// JSON text, or `None` when the text is not JSON. The result depends on
/// the text alone.
#[verifier::external_body]
fn serde_parse(text: &str) -> (r: Option<Json>)
    ensures
        r == json_parse(text@),
{
    serde_json::from_str::<serde_json::Value>(text).ok().map(json_from_value)
}

/// Relies on `serde_json::Value::to_string`: the compact JSON text of the
/// tree.
#[verifier::external_body]
fn serde_encode(value: &Json) -> (r: String)
    ensures
        r@ == json_text(*value),
{
    json_to_value(value).to_string()
}

impl Json {
    /// The tree of a JSON text, or `None` when the text is not JSON.
    pub fn parse(text: &str) -> (r: Option<Json>)
        ensures
            r == json_parse(text@),
    {
        serde_parse(text)
    }

    /// The compact JSON text of this tree.
    pub fn to_text(&self) -> (r: String)
        ensures
            r@ == json_text(*self),
    {
        serde_encode(self)
    }
}

/// Whether two texts are equal.
pub fn same_text(a: &str, b: &str) -> (r: bool)
    ensures
        r == (a@ == b@),
{
    let x = a.to_owned();
    let y = b.to_owned();
    x == y
}

/// The value stored under `key` among `entries`: the first entry with that
/// key.
pub open spec fn entry_of(entries: Seq<(String, Json)>, key: Seq<char>) -> Option<Json>
    decreases entries.len(),
{
    if entries.len() == 0 {
        None
    } else if entries[0].0@ == key {
        Some(entries[0].1)
    } else {
        entry_of(entries.drop_first(), key)
    }
}

/// Whether the bytes are a non-empty run of ASCII decimal digits.
pub open spec fn is_decimal(s: Seq<u8>) -> bool {
    s.len() > 0 && forall|i: int| 0 <= i < s.len() ==> 48 <= #[trigger] s[i] && s[i] <= 57
}

/// The value of a run of ASCII decimal digits.
pub open spec fn decimal_value(s: Seq<u8>) -> nat
    decreases s.len(),
{
    if s.len() == 0 {
        0
    } else {
        decimal_value(s.drop_last()) * 10 + (s.last() - 48) as nat
    }
}

/// The UTF-8 bytes of a text.
pub open spec fn utf8(s: Seq<char>) -> Seq<u8> {
    vstd::utf8::encode_utf8(s)
}

impl Json {
    /// The value under `key`, if this is an object that has one.
    pub open spec fn field(self, key: Seq<char>) -> Option<Json> {
        match self {
            Json::Object(entries) => entry_of(entries@, key),
            _ => None,
        }
    }

    /// The characters of a string value.
    pub open spec fn text(self) -> Option<Seq<char>> {
        match self {
            Json::Str(s) => Some(s@),
            _ => None,
        }
    }

    /// The characters of the string under `key`.
    pub open spec fn str_at(self, key: Seq<char>) -> Option<Seq<char>> {
        match self.field(key) {
            Some(v) => v.text(),
            None => None,
        }
    }

    /// The value of an unsigned integer.
    pub open spec fn unsigned(self) -> Option<nat> {
        match self {
            Json::UInt(u) => Some(u as nat),
            Json::Num(t) => if is_decimal(utf8(t@)) {
                Some(decimal_value(utf8(t@)))
            } else {
                None
            },
            _ => None,
        }
    }

    /// The value under `key`, if this is an object that has one.
    pub fn get(&self, key: &str) -> (r: Option<&Json>)
        ensures
            match r {
                Some(v) => self.field(key@) == Some(*v),
                None => self.field(key@) is None,
            },
    {
        match self {
            Json::Object(entries) => {
                let k = key.to_owned();
                let mut i: usize = 0;
                assert(entries@.subrange(0, entries@.len() as int) =~= entries@);
                assert(self.field(key@) == entry_of(entries@, key@));
                while i < entries.len()
                    invariant
                        i <= entries@.len(),
                        k@ == key@,
                        self.field(key@) == entry_of(entries@.subrange(i as int, entries@.len() as int), key@),
                    decreases entries@.len() - i,
                {
                    let ghost rest = entries@.subrange(i as int, entries@.len() as int);
                    assert(rest[0] == entries@[i as int]);
                    if entries[i].0 == k {
                        assert(rest[0].0@ == key@);
                        assert(entry_of(rest, key@) == Some(rest[0].1));
                        return Some(&entries[i].1);
                    }
                    assert(rest.drop_first() =~= entries@.subrange(i + 1, entries@.len() as int));
                    i += 1;
                }
                None
            },
            _ => None,
        }
    }

    /// The string, if this is a string value.
    pub fn as_str(&self) -> (r: Option<&String>)
        ensures
            match r {
                Some(s) => self.text() == Some(s@),
                None => self.text() is None,
            },
    {
        match self {
            Json::Str(s) => Some(s),
            _ => None,
        }
    }

    /// The elements, if this is an array.
    pub fn as_array(&self) -> (r: Option<&Vec<Json>>)
        ensures
            match r {
                Some(a) => *self == Json::Array(*a),
                None => !(*self is Array),
            },
    {
        match self {
            Json::Array(a) => Some(a),
            _ => None,
        }
    }

    /// A copy of the string under `key`.
    pub fn str_field(&self, key: &str) -> (r: Option<String>)
        ensures
            match r {
                Some(s) => self.str_at(key@) == Some(s@),
                None => self.str_at(key@) is None,
            },
    {
        match self.get(key) {
            Some(v) => match v.as_str() {
                Some(s) => Some(s.clone()),
                None => None,
            },
            None => None,
        }
    }

    /// The value of an unsigned integer that fits in 64 bits.
    pub fn as_u64(&self) -> (r: Option<u64>)
        ensures
            match r {
                Some(u) => self.unsigned() == Some(u as nat),
                None => self.unsigned() is None || self.unsigned()->0 > u64::MAX,
            },
    {
        match self {
            Json::UInt(u) => Some(*u),
            Json::Num(t) => decimal_u64(t),
            _ => None,
        }
    }
}

/// Looking a key up in entries with one more entry at the end.
proof fn lemma_entry_of_push(p: Seq<(String, Json)>, e: (String, Json), key: Seq<char>)
    ensures
        entry_of(p.push(e), key) == (if entry_of(p, key) is Some {
            entry_of(p, key)
        } else if e.0@ == key {
            Some(e.1)
        } else {
            None
        }),
    decreases p.len(),
{
    assert(p.push(e)[0] == if p.len() > 0 { p[0] } else { e });
    if p.len() > 0 {
        assert(p.push(e).drop_first() =~= p.drop_first().push(e));
        lemma_entry_of_push(p.drop_first(), e, key);
    } else {
        assert(p.push(e).drop_first() =~= Seq::<(String, Json)>::empty());
        assert(entry_of(Seq::<(String, Json)>::empty(), key) is None);
    }
}

impl Json {
    /// The value under `key`, taken out of this object.
    pub fn take(self, key: &str) -> (r: Option<Json>)
        ensures
            r == self.field(key@),
    {
        match self {
            Json::Object(entries) => {
                let k = key.to_owned();
                let ghost all = entries@;
                let mut rest = entries;
                let mut found: Option<Json> = None;
                while rest.len() > 0
                    invariant
                        k@ == key@,
                        entry_of(all, key@) == (if entry_of(rest@, key@) is Some {
                            entry_of(rest@, key@)
                        } else {
                            found
                        }),
                    decreases rest@.len(),
                {
                    let ghost before = rest@;
                    let last = rest.pop();
                    match last {
                        Some(e) => {
                            proof {
                                assert(before =~= rest@.push(e));
                                lemma_entry_of_push(rest@, e, key@);
                            }
                            if e.0 == k {
                                found = Some(e.1);
                            }
                        },
                        None => {},
                    }
                }
                found
            },
            _ => None,
        }
    }

    /// The values under two different keys, taken out of this object.
    pub fn take2(self, k1: &str, k2: &str) -> (r: (Option<Json>, Option<Json>))
        requires
            k1@ != k2@,
        ensures
            r.0 == self.field(k1@),
            r.1 == self.field(k2@),
    {
        match self {
            Json::Object(entries) => {
                let key1 = k1.to_owned();
                let key2 = k2.to_owned();
                let ghost all = entries@;
                let mut rest = entries;
                let mut f1: Option<Json> = None;
                let mut f2: Option<Json> = None;
                while rest.len() > 0
                    invariant
                        key1@ == k1@,
                        key2@ == k2@,
                        k1@ != k2@,
                        entry_of(all, k1@) == (if entry_of(rest@, k1@) is Some { entry_of(rest@, k1@) } else { f1 }),
                        entry_of(all, k2@) == (if entry_of(rest@, k2@) is Some { entry_of(rest@, k2@) } else { f2 }),
                    decreases rest@.len(),
                {
                    let ghost before = rest@;
                    let last = rest.pop();
                    match last {
                        Some(e) => {
                            proof {
                                assert(before =~= rest@.push(e));
                                lemma_entry_of_push(rest@, e, k1@);
                                lemma_entry_of_push(rest@, e, k2@);
                            }
                            let (name, value) = e;
                            if name == key1 {
                                f1 = Some(value);
                            } else if name == key2 {
                                f2 = Some(value);
                            }
                        },
                        None => {},
                    }
                }
                (f1, f2)
            },
            _ => (None, None),
        }
    }
}

proof fn lemma_decimal_prefix(s: Seq<u8>, i: int)
    requires
        0 <= i < s.len(),
    ensures
        s.subrange(0, i + 1).drop_last() =~= s.subrange(0, i),
        s.subrange(0, i + 1).last() == s[i],
{
}

proof fn lemma_decimal_monotone(s: Seq<u8>, i: int)
    requires
        0 <= i <= s.len(),
        is_decimal(s),
    ensures
        decimal_value(s.subrange(0, i)) <= decimal_value(s),
    decreases s.len() - i,
{
    if i < s.len() {
        lemma_decimal_monotone(s, i + 1);
        lemma_decimal_prefix(s, i);
        assert(decimal_value(s.subrange(0, i + 1)) == decimal_value(s.subrange(0, i)) * 10
            + (s[i] - 48) as nat);
    } else {
        assert(s.subrange(0, i) =~= s);
    }
}

/// The value of a decimal text that fits in 64 bits.
fn decimal_u64(t: &String) -> (r: Option<u64>)
    ensures
        r matches Some(u) ==> is_decimal(utf8(t@)) && decimal_value(utf8(t@)) == u as nat,
        r is None ==> !is_decimal(utf8(t@)) || decimal_value(utf8(t@)) > u64::MAX,
{
    let bytes = t.as_str().as_bytes();
    let ghost d = utf8(t@);
    assert(bytes@ == d);
    if bytes.len() == 0 {
        return None;
    }
    let mut value: u64 = 0;
    let mut i: usize = 0;
    while i < bytes.len()
        invariant
            i <= bytes@.len(),
            bytes@ == d,
            d == utf8(t@),
            d.len() > 0,
            forall|k: int| 0 <= k < i ==> 48 <= #[trigger] d[k] && d[k] <= 57,
            value as nat == decimal_value(d.subrange(0, i as int)),
        decreases bytes@.len() - i,
    {
        let b = bytes[i];
        assert(d[i as int] == b);
        if b < 48 || b > 57 {
            assert(!is_decimal(d));
            return None;
        }
        proof {
            lemma_decimal_prefix(d, i as int);
        }
        assert(decimal_value(d.subrange(0, i + 1)) == decimal_value(d.subrange(0, i as int)) * 10
            + (b - 48) as nat);
        let digit = (b - 48) as u64;
        if value > (u64::MAX - digit) / 10 {
            proof {
                if is_decimal(d) {
                    lemma_decimal_monotone(d, i + 1);
                    assert(decimal_value(d) > u64::MAX);
                }
            }
            return None;
        }
        value = value * 10 + digit;
        i += 1;
    }
    assert(d.subrange(0, i as int) =~= d);
    Some(value)
}

} // verus!
