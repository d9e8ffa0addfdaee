//! A loosely-typed document tree, as handed over by a JSON reader, and
//! field lookup on its objects.
use vstd::prelude::*;

verus! {

/// A number as the reader saw it: its decimal text, and its value where it
/// is an integer that fits in 64 signed bits.
#[derive(Debug)]
pub struct JsonNumber {
    pub text: String,
    pub int: Option<i64>,
}

/// One value of a metadata document. Object members keep the reader's order.
#[derive(Debug)]
pub enum JsonValue {
    Null,
    Bool(bool),
    Number(JsonNumber),
    Str(String),
    Array(Vec<JsonValue>),
    Object(Vec<(String, JsonValue)>),
}

/// The value of the first member named `key`.
pub open spec fn lookup(fields: Seq<(String, JsonValue)>, key: Seq<char>) -> Option<JsonValue>
    decreases fields.len(),
{
    if fields.len() == 0 {
        None
    } else if fields[0].0@ == key {
        Some(fields[0].1)
    } else {
        lookup(fields.drop_first(), key)
    }
}

/// The text of member `key`, where it is a string.
pub open spec fn spec_str(fields: Seq<(String, JsonValue)>, key: Seq<char>) -> Option<Seq<char>> {
    match lookup(fields, key) {
        Some(JsonValue::Str(s)) => Some(s@),
        _ => None,
    }
}

/// Member `key`, where it is a boolean.
pub open spec fn spec_bool(fields: Seq<(String, JsonValue)>, key: Seq<char>) -> Option<bool> {
    match lookup(fields, key) {
        Some(JsonValue::Bool(b)) => Some(b),
        _ => None,
    }
}

/// Member `key`, where it is an integer within `lo..=hi` (and within 64 bits).
pub open spec fn spec_int(fields: Seq<(String, JsonValue)>, key: Seq<char>, lo: int, hi: int) -> Option<int> {
    match lookup(fields, key) {
        Some(JsonValue::Number(n)) => match n.int {
            Some(i) => if lo <= i <= hi {
                Some(i as int)
            } else {
                None
            },
            None => None,
        },
        _ => None,
    }
}

/// The decimal text of member `key`, where it is a number.
pub open spec fn spec_number_text(fields: Seq<(String, JsonValue)>, key: Seq<char>) -> Option<Seq<char>> {
    match lookup(fields, key) {
        Some(JsonValue::Number(n)) => Some(n.text@),
        _ => None,
    }
}

pub open spec fn is_str(v: JsonValue) -> bool {
    v is Str
}

pub open spec fn str_view(v: JsonValue) -> Seq<char> {
    match v {
        JsonValue::Str(s) => s@,
        _ => Seq::empty(),
    }
}

/// The texts of member `key`, where it is an array of strings only.
pub open spec fn spec_str_list(fields: Seq<(String, JsonValue)>, key: Seq<char>) -> Option<Seq<Seq<char>>> {
    match lookup(fields, key) {
        Some(JsonValue::Array(items)) => if forall|i: int| 0 <= i < items@.len() ==> is_str(#[trigger] items@[i]) {
            Some(items@.map_values(|v: JsonValue| str_view(v)))
        } else {
            None
        },
        _ => None,
    }
}

pub open spec fn opt_view(o: Option<String>) -> Option<Seq<char>> {
    match o {
        Some(s) => Some(s@),
        None => None,
    }
}

/// The first member named `key`.
pub fn get_field<'a>(fields: &'a Vec<(String, JsonValue)>, key: &str) -> (r: Option<&'a JsonValue>)
    ensures
        match r {
            Some(v) => lookup(fields@, key@) == Some(*v),
            None => lookup(fields@, key@) is None,
        },
{
    let k = String::from_str(key);
    let mut i: usize = 0;
    assert(fields@.subrange(0, fields@.len() as int) =~= fields@);
    while i < fields.len()
        invariant
            i <= fields@.len(),
            k@ == key@,
            lookup(fields@, key@) == lookup(fields@.subrange(i as int, fields@.len() as int), key@),
        decreases fields.len() - i,
    {
        let ghost rest = fields@.subrange(i as int, fields@.len() as int);
        assert(rest.drop_first() =~= fields@.subrange(i + 1, fields@.len() as int));
        if fields[i].0 == k {
            return Some(&fields[i].1);
        }
        i = i + 1;
    }
    None
}

/// Member `key` as text, where it is a string.
pub fn str_field(fields: &Vec<(String, JsonValue)>, key: &str) -> (r: Option<String>)
    ensures
        opt_view(r) == spec_str(fields@, key@),
{
    match get_field(fields, key) {
        Some(JsonValue::Str(s)) => Some(s.clone()),
        _ => None,
    }
}

/// Member `key`, where it is a boolean.
pub fn bool_field(fields: &Vec<(String, JsonValue)>, key: &str) -> (r: Option<bool>)
    ensures
        r == spec_bool(fields@, key@),
{
    match get_field(fields, key) {
        Some(JsonValue::Bool(b)) => Some(*b),
        _ => None,
    }
}

/// Member `key`, where it is an integer within `lo..=hi`.
pub fn int_field(fields: &Vec<(String, JsonValue)>, key: &str, lo: i64, hi: i64) -> (r: Option<i64>)
    ensures
        match r {
            Some(i) => spec_int(fields@, key@, lo as int, hi as int) == Some(i as int),
            None => spec_int(fields@, key@, lo as int, hi as int) is None,
        },
{
    match get_field(fields, key) {
        Some(JsonValue::Number(n)) => match n.int {
            Some(i) => if lo <= i && i <= hi {
                Some(i)
            } else {
                None
            },
            None => None,
        },
        _ => None,
    }
}

/// The decimal text of member `key`, where it is a number.
pub fn number_text_field(fields: &Vec<(String, JsonValue)>, key: &str) -> (r: Option<String>)
    ensures
        opt_view(r) == spec_number_text(fields@, key@),
{
    match get_field(fields, key) {
        Some(JsonValue::Number(n)) => Some(n.text.clone()),
        _ => None,
    }
}

/// The texts of an array, where every item is a string.
pub fn string_items(items: &Vec<JsonValue>) -> (r: Option<Vec<String>>)
    ensures
        match r {
            Some(v) => (forall|i: int| 0 <= i < items@.len() ==> is_str(#[trigger] items@[i]))
                && v@.map_values(|s: String| s@) == items@.map_values(|x: JsonValue| str_view(x)),
            None => exists|i: int| 0 <= i < items@.len() && !is_str(#[trigger] items@[i]),
        },
{
    let mut out: Vec<String> = Vec::new();
    let mut i: usize = 0;
    while i < items.len()
        invariant
            i <= items@.len(),
            out@.len() == i,
            forall|j: int| 0 <= j < i ==> is_str(#[trigger] items@[j]),
            forall|j: int| 0 <= j < i ==> (#[trigger] out@[j])@ == str_view(items@[j]),
        decreases items.len() - i,
    {
        match &items[i] {
            JsonValue::Str(s) => {
                out.push(s.clone());
            },
            _ => {
                assert(!is_str(items@[i as int]));
                return None;
            },
        }
        i = i + 1;
    }
    assert(out@.map_values(|s: String| s@) =~= items@.map_values(|x: JsonValue| str_view(x)));
    Some(out)
}

} // verus!
