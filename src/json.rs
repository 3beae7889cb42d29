//! A plain value tree for the structured text that the extraction tools print,
//! with field lookups whose results are stated over the tree.
use crate::number::{whole_of, whole_of_text};
use vstd::prelude::*;

verus! {

/// A number as the tools print it.
#[derive(Debug, Clone, PartialEq, Eq)]
pub struct JsonNumber {
    /// The value when it is a non-negative integer that fits in `u64`.
    pub unsigned: Option<u64>,
    /// The number written in decimal, as in `61.9`, `-3` or `1e21`.
    pub text: String,
}

/// A parsed JSON value. Object entries keep the keys unique.
#[derive(Debug)]
pub enum Json {
    Null,
    Bool(bool),
    Number(JsonNumber),
    Str(String),
    Array(Vec<Json>),
    Object(Vec<(String, Json)>),
}

/// What the JSON text `text`, in UTF-8, denotes: `None` when it is not valid JSON.
pub uninterp spec fn parsed_json(text: Seq<u8>) -> Option<Json>;

/// The value stored under `key` in `entries`: the first entry whose key is `key`.
pub open spec fn lookup(entries: Seq<(String, Json)>, key: Seq<char>) -> Option<Json>
    decreases entries.len(),
{
    if entries.len() == 0 {
        None
    } else {
        let earlier = lookup(entries.drop_last(), key);
        if earlier is Some {
            earlier
        } else if entries.last().0@ == key {
            Some(entries.last().1)
        } else {
            None
        }
    }
}

/// `a` when it holds a value, else `b`.
pub open spec fn or_else<T>(a: Option<T>, b: Option<T>) -> Option<T> {
    if a is Some {
        a
    } else {
        b
    }
}

/// The view of an optional string.
pub open spec fn opt_view(s: Option<String>) -> Option<Seq<char>> {
    match s {
        Some(t) => Some(t@),
        None => None,
    }
}

/// The views of a sequence of strings.
pub open spec fn strings_view(v: Seq<String>) -> Seq<Seq<char>> {
    v.map_values(|s: String| s@)
}

impl Json {
    /// The member `key` of an object; `None` for a missing key or a value that is no object.
    pub open spec fn member(self, key: Seq<char>) -> Option<Json> {
        match self {
            Json::Object(entries) => lookup(entries@, key),
            _ => None,
        }
    }

    /// The text of the member `key`, when that member is a string.
    pub open spec fn str_member(self, key: Seq<char>) -> Option<Seq<char>> {
        match self.member(key) {
            Some(Json::Str(s)) => Some(s@),
            _ => None,
        }
    }

    /// The member `key` as an unsigned integer, when it is one.
    pub open spec fn u64_member(self, key: Seq<char>) -> Option<u64> {
        match self.member(key) {
            Some(Json::Number(n)) => n.unsigned,
            _ => None,
        }
    }

    /// The member `key` truncated to whole units, when it is a number.
    pub open spec fn whole_member(self, key: Seq<char>) -> Option<u64> {
        match self.member(key) {
            Some(Json::Number(n)) => whole_of_text(n.text@),
            _ => None,
        }
    }

    /// Looks up the member `key` of an object.
    pub fn get(&self, key: &str) -> (r: Option<&Json>)
        ensures
            match r {
                Some(v) => self.member(key@) == Some(*v),
                None => self.member(key@) is None,
            },
    {
        match self {
            Json::Object(entries) => {
                let wanted = key.to_owned();
                let mut i: usize = 0;
                while i < entries.len()
                    invariant
                        0 <= i <= entries@.len(),
                        wanted@ == key@,
                        self.member(key@) == lookup(entries@, key@),
                        lookup(entries@.subrange(0, i as int), key@) is None,
                    decreases entries@.len() - i,
                {
                    assert(entries@.subrange(0, i as int + 1).drop_last() =~= entries@.subrange(
                        0,
                        i as int,
                    ));
                    assert(entries@.subrange(0, i as int + 1).last() == entries@[i as int]);
                    if entries[i].0 == wanted {
                        assert(lookup(entries@.subrange(0, i as int + 1), key@) == Some(
                            entries@[i as int].1,
                        ));
                        proof {
                            lemma_lookup_extend(entries@, key@, i as int + 1);
                        }
                        return Some(&entries[i].1);
                    }
                    i += 1;
                }
                assert(entries@.subrange(0, i as int) =~= entries@);
                None
            },
            _ => None,
        }
    }

    /// The text of the member `key`, when it is a string.
    pub fn get_str(&self, key: &str) -> (r: Option<String>)
        ensures
            opt_view(r) == self.str_member(key@),
    {
        match self.get(key) {
            Some(Json::Str(s)) => Some(s.clone()),
            _ => None,
        }
    }

    /// The member `key` as an unsigned integer, when it is one.
    pub fn get_u64(&self, key: &str) -> (r: Option<u64>)
        ensures
            r == self.u64_member(key@),
    {
        match self.get(key) {
            Some(Json::Number(n)) => n.unsigned,
            _ => None,
        }
    }

    /// The member `key` truncated to whole units, when it is a number.
    pub fn get_whole(&self, key: &str) -> (r: Option<u64>)
        ensures
            r == self.whole_member(key@),
    {
        match self.get(key) {
            Some(Json::Number(n)) => whole_of(n.text.as_str()),
            _ => None,
        }
    }
}

/// A first match in a prefix of the entries stays the first match in the whole.
proof fn lemma_lookup_extend(entries: Seq<(String, Json)>, key: Seq<char>, n: int)
    requires
        0 <= n <= entries.len(),
        lookup(entries.subrange(0, n), key) is Some,
    ensures
        lookup(entries, key) == lookup(entries.subrange(0, n), key),
    decreases entries.len() - n,
{
    if n < entries.len() {
        assert(entries.subrange(0, n + 1).drop_last() =~= entries.subrange(0, n));
        lemma_lookup_extend(entries, key, n + 1);
    } else {
        assert(entries.subrange(0, n) =~= entries);
    }
}

/// Relies on serde_json::from_slice: parses UTF-8 JSON text into a value tree, or
/// fails on text that is not JSON; the result depends on the bytes alone.
#[verifier::external_body]
pub(crate) fn parse_json(text: &[u8]) -> (r: Option<Json>)
    ensures
        r == parsed_json(text@),
{
    serde_json::from_slice::<serde_json::Value>(text).ok().map(json_from_value)
}

/// serde_json's value tree, carried through unread.
#[verifier::external_type_specification]
#[verifier::external_body]
pub struct ExJsonValue(serde_json::Value);

/// Moves a serde_json value into the library's tree, variant for variant.
/// Relies on serde_json's `Number::as_u64` (the value of a non-negative integer
/// that fits in `u64`, else `None`) and on `Number`'s `Display` (its decimal text).
#[verifier::external_body]
fn json_from_value(v: serde_json::Value) -> Json {
    match v {
        serde_json::Value::Null => Json::Null,
        serde_json::Value::Bool(b) => Json::Bool(b),
        serde_json::Value::Number(n) => Json::Number(
            JsonNumber { unsigned: n.as_u64(), text: n.to_string() },
        ),
        serde_json::Value::String(s) => Json::Str(s),
        serde_json::Value::Array(a) => Json::Array(a.into_iter().map(json_from_value).collect()),
        serde_json::Value::Object(o) => Json::Object(
            o.into_iter().map(|(k, x)| (k, json_from_value(x))).collect(),
        ),
    }
}

} // verus!
