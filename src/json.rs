//! A plain JSON tree, and the lookups that decoding needs.
use vstd::prelude::*;
use vstd::string::*;

verus! {

#[verifier::external_type_specification]
#[verifier::external_body]
pub struct ExJsonValue(serde_json::Value);

/// A parsed JSON document. Numbers keep the text that serde_json prints for
/// them; object members keep their keys, each key at most once.
#[derive(Debug)]
pub enum Json {
    Null,
    Bool(bool),
    Number(String),
    Str(String),
    Array(Vec<Json>),
    Object(Vec<(String, Json)>),
}

/// The document that serde_json reads from a text, or `None` where the text
/// is not valid JSON.
pub uninterp spec fn json_of_text(s: Seq<char>) -> Option<Json>;

/// Relies on `serde_json::from_str::<serde_json::Value>`: what it reads from a
/// text, or that it refuses it, depends on the text alone. Each number is kept
/// as the text that `serde_json::Number`'s `Display` writes.
#[verifier::external_body]
pub fn parse_json(s: &str) -> (r: Option<Json>)
    ensures
        r == json_of_text(s@),
{
    serde_json::from_str::<serde_json::Value>(s).ok().map(json_from_value)
}

/// Moves a `serde_json::Value` into a [`Json`], variant for variant, with
/// `serde_json::Number`'s `Display` for numbers. It is called only from the
/// body of [`parse_json`], whose contract covers it.
#[verifier::external_body]
fn json_from_value(v: serde_json::Value) -> Json {
    match v {
        serde_json::Value::Null => Json::Null,
        serde_json::Value::Bool(b) => Json::Bool(b),
        serde_json::Value::Number(n) => Json::Number(n.to_string()),
        serde_json::Value::String(s) => Json::Str(s),
        serde_json::Value::Array(a) => Json::Array(a.into_iter().map(json_from_value).collect()),
        serde_json::Value::Object(o) => Json::Object(o.into_iter().map(|(k, v)| (k, json_from_value(v))).collect()),
    }
}

/// The value of the first member named `key`.
pub open spec fn member(fields: Seq<(String, Json)>, key: Seq<char>) -> Option<Json>
    decreases fields.len(),
{
    if fields.len() == 0 {
        None
    } else if fields[0].0@ == key {
        Some(fields[0].1)
    } else {
        member(fields.drop_first(), key)
    }
}

/// The member `key` of an object; `None` where `j` is no object or lacks it.
pub open spec fn field(j: Json, key: Seq<char>) -> Option<Json> {
    match j {
        Json::Object(fs) => member(fs@, key),
        _ => None,
    }
}

/// Whether two texts hold the same characters.
pub fn text_eq(a: &str, b: &str) -> (r: bool)
    ensures
        r == (a@ == b@),
{
    let n = a.unicode_len();
    if n != b.unicode_len() {
        return false;
    }
    let mut i: usize = 0;
    while i < n
        invariant
            n == a@.len(),
            n == b@.len(),
            i <= n,
            forall|k: int| 0 <= k < i ==> a@[k] == b@[k],
        decreases n - i,
    {
        if a.get_char(i) != b.get_char(i) {
            return false;
        }
        i = i + 1;
    }
    assert(a@ =~= b@);
    true
}

/// Looks up the member `key` of an object.
pub fn get_field<'a>(j: &'a Json, key: &str) -> (r: Option<&'a Json>)
    ensures
        match r {
            Some(v) => field(*j, key@) == Some(*v),
            None => field(*j, key@) is None,
        },
{
    match j {
        Json::Object(fs) => {
            let mut i: usize = 0;
            assert(fs@.skip(0) =~= fs@);
            while i < fs.len()
                invariant
                    i <= fs@.len(),
                    field(*j, key@) == member(fs@, key@),
                    member(fs@, key@) == member(fs@.skip(i as int), key@),
                decreases fs@.len() - i,
            {
                assert(fs@.skip(i as int).drop_first() =~= fs@.skip(i + 1));
                if text_eq(fs[i].0.as_str(), key) {
                    assert(fs@.skip(i as int)[0] == fs@[i as int]);
                    return Some(&fs[i].1);
                }
                i = i + 1;
            }
            None
        },
        _ => None,
    }
}

/// The integer that a run of decimal digits denotes.
pub open spec fn digits_value(s: Seq<char>) -> nat
    decreases s.len(),
{
    if s.len() == 0 {
        0
    } else {
        digits_value(s.drop_last()) * 10 + (s.last() as u32 - '0' as u32) as nat
    }
}

pub open spec fn is_digit(c: char) -> bool {
    '0' <= c && c <= '9'
}

/// The unsigned integer that a number's text denotes, where it is one that
/// is at most `max`: one or more decimal digits, no sign, point or exponent.
pub open spec fn unsigned_of(s: Seq<char>, max: nat) -> Option<nat> {
    if s.len() > 0 && (forall|i: int| 0 <= i < s.len() ==> is_digit(#[trigger] s[i]))
        && digits_value(s) <= max {
        Some(digits_value(s))
    } else {
        None
    }
}

proof fn lemma_digits_value_grows(s: Seq<char>, k: int)
    requires
        0 <= k <= s.len(),
    ensures
        digits_value(s.take(k)) <= digits_value(s),
    decreases s.len() - k,
{
    if k < s.len() {
        lemma_digits_value_grows(s, k + 1);
        assert(s.take(k + 1).drop_last() =~= s.take(k));
    } else {
        assert(s.take(k) =~= s);
    }
}

/// Reads an unsigned integer from the text of a number.
pub fn parse_unsigned(t: &str, max: u64) -> (r: Option<u64>)
    ensures
        r == (match unsigned_of(t@, max as nat) {
            Some(n) => Some(n as u64),
            None => None,
        }),
{
    let n = t.unicode_len();
    if n == 0 {
        return None;
    }
    let mut acc: u64 = 0;
    let mut i: usize = 0;
    while i < n
        invariant
            n == t@.len(),
            i <= n,
            acc as nat == digits_value(t@.take(i as int)),
            acc <= max,
            forall|k: int| 0 <= k < i ==> is_digit(#[trigger] t@[k]),
        decreases n - i,
    {
        let c = t.get_char(i);
        assert(t@.take(i + 1).drop_last() =~= t@.take(i as int));
        if c < '0' || c > '9' {
            return None;
        }
        let d: u64 = (c as u32 - '0' as u32) as u64;
        if d > max || acc > (max - d) / 10 {
            proof {
                lemma_digits_value_grows(t@, i + 1);
                assert(acc * 10 + d > max) by (nonlinear_arith)
                    requires
                        d > max || acc > (max - d) / 10,
                ;
            }
            return None;
        }
        acc = acc * 10 + d;
        i = i + 1;
    }
    assert(t@.take(n as int) =~= t@);
    Some(acc)
}

/// The characters of an optional text.
pub open spec fn text_view(o: Option<String>) -> Option<Seq<char>> {
    match o {
        Some(s) => Some(s@),
        None => None,
    }
}

/// The characters of each text of a list.
pub open spec fn texts_view(v: Seq<String>) -> Seq<Seq<char>> {
    v.map_values(|s: String| s@)
}

/// A required text member.
pub open spec fn str_field(j: Json, key: Seq<char>) -> Option<Seq<char>> {
    match field(j, key) {
        Some(Json::Str(s)) => Some(s@),
        _ => None,
    }
}

/// An optional text member: absent or `null` reads as `Some(None)`, another
/// kind of value as `None`.
pub open spec fn opt_str_field(j: Json, key: Seq<char>) -> Option<Option<Seq<char>>> {
    match field(j, key) {
        None => Some(None),
        Some(Json::Null) => Some(None),
        Some(Json::Str(s)) => Some(Some(s@)),
        _ => None,
    }
}

/// A required unsigned integer member of at most `max`.
pub open spec fn uint_field(j: Json, key: Seq<char>, max: nat) -> Option<nat> {
    match field(j, key) {
        Some(Json::Number(t)) => unsigned_of(t@, max),
        _ => None,
    }
}

/// An optional unsigned integer member of at most `max`.
pub open spec fn opt_uint_field(j: Json, key: Seq<char>, max: nat) -> Option<Option<nat>> {
    match field(j, key) {
        None => Some(None),
        Some(Json::Null) => Some(None),
        Some(Json::Number(t)) => match unsigned_of(t@, max) {
            Some(n) => Some(Some(n)),
            None => None,
        },
        _ => None,
    }
}

/// The text of a required number member, whatever number it is.
pub open spec fn number_field(j: Json, key: Seq<char>) -> Option<Seq<char>> {
    match field(j, key) {
        Some(Json::Number(t)) => Some(t@),
        _ => None,
    }
}

/// A required member that is an array of texts.
pub open spec fn str_list_field(j: Json, key: Seq<char>) -> Option<Seq<Seq<char>>> {
    match field(j, key) {
        Some(Json::Array(a)) => if forall|i: int| 0 <= i < a@.len() ==> #[trigger] a@[i] is Str {
            Some(Seq::new(a@.len(), |i: int| a@[i]->Str_0@))
        } else {
            None
        },
        _ => None,
    }
}

/// Reads a required text member.
pub fn read_str(j: &Json, key: &str) -> (r: Option<String>)
    ensures
        text_view(r) == str_field(*j, key@),
{
    match get_field(j, key) {
        Some(Json::Str(s)) => Some(s.clone()),
        _ => None,
    }
}

/// Reads an optional text member.
pub fn read_opt_str(j: &Json, key: &str) -> (r: Option<Option<String>>)
    ensures
        match r {
            Some(o) => opt_str_field(*j, key@) == Some(text_view(o)),
            None => opt_str_field(*j, key@) is None,
        },
{
    match get_field(j, key) {
        None => Some(None),
        Some(Json::Null) => Some(None),
        Some(Json::Str(s)) => Some(Some(s.clone())),
        _ => None,
    }
}

/// Reads a required unsigned integer member of at most `max`.
pub fn read_uint(j: &Json, key: &str, max: u64) -> (r: Option<u64>)
    ensures
        r == (match uint_field(*j, key@, max as nat) {
            Some(n) => Some(n as u64),
            None => None,
        }),
{
    match get_field(j, key) {
        Some(Json::Number(t)) => parse_unsigned(t.as_str(), max),
        _ => None,
    }
}

/// Reads an optional unsigned integer member of at most `max`.
pub fn read_opt_uint(j: &Json, key: &str, max: u64) -> (r: Option<Option<u64>>)
    ensures
        r == (match opt_uint_field(*j, key@, max as nat) {
            Some(Some(n)) => Some(Some(n as u64)),
            Some(None) => Some(None),
            None => None,
        }),
{
    match get_field(j, key) {
        None => Some(None),
        Some(Json::Null) => Some(None),
        Some(Json::Number(t)) => match parse_unsigned(t.as_str(), max) {
            Some(n) => Some(Some(n)),
            None => None,
        },
        _ => None,
    }
}

/// Reads the text of a required number member.
pub fn read_number_text(j: &Json, key: &str) -> (r: Option<String>)
    ensures
        text_view(r) == number_field(*j, key@),
{
    match get_field(j, key) {
        Some(Json::Number(t)) => Some(t.clone()),
        _ => None,
    }
}

/// Reads a required member that is an array of texts.
pub fn read_str_list(j: &Json, key: &str) -> (r: Option<Vec<String>>)
    ensures
        match r {
            Some(v) => str_list_field(*j, key@) == Some(texts_view(v@)),
            None => str_list_field(*j, key@) is None,
        },
{
    match get_field(j, key) {
        Some(Json::Array(a)) => {
            let mut out: Vec<String> = Vec::new();
            let mut i: usize = 0;
            while i < a.len()
                invariant
                    i <= a@.len(),
                    field(*j, key@) == Some(Json::Array(*a)),
                    out@.len() == i,
                    forall|k: int| 0 <= k < i ==> #[trigger] a@[k] is Str && out@[k]@ == a@[k]->Str_0@,
                decreases a@.len() - i,
            {
                match &a[i] {
                    Json::Str(s) => out.push(s.clone()),
                    _ => return None,
                }
                i = i + 1;
            }
            assert(texts_view(out@) =~= Seq::new(a@.len(), |i: int| a@[i]->Str_0@));
            Some(out)
        },
        _ => None,
    }
}

} // verus!
