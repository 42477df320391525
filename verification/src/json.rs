//! The library's view of a JSON document.
//!
//! The syntax layer (an outside JSON crate, behind the trusted items in
//! `codec`) turns raw text into this tree and back; everything the protocol
//! then does with a document — looking fields up, checking shapes, building
//! outbound payloads — is verified code over this type.

use vstd::prelude::*;

use crate::error::Error;

verus! {

/// One JSON node.
///
/// Numbers are split by what the protocol can read: every numeric field the
/// wire format defines is an unsigned 64-bit integer, so a number that fits
/// in `u64` keeps its value and any other number (negative or fractional)
/// is kept only as the marker `OtherNumber`, which every typed read
/// rejects, exactly as a direct read of such a field would fail.
#[derive(Debug, PartialEq, Eq)]
pub enum JsonValue {
    /// The JSON literal `null`.
    Null,
    /// A JSON boolean.
    Bool(bool),
    /// A JSON number that is an unsigned 64-bit integer.
    UInt(u64),
    /// Any other JSON number.
    OtherNumber,
    /// A JSON string.
    Text(String),
    /// A JSON array.
    Array(Vec<JsonValue>),
    /// A JSON object, as its fields in document order. A document produced
    /// by the syntax layer holds each key once.
    Object(Vec<(String, JsonValue)>),
}

/// The first field of `fields` whose key reads `key`, if any.
pub open spec fn seq_get(fields: Seq<(String, JsonValue)>, key: Seq<char>) -> Option<JsonValue>
    decreases fields.len(),
{
    if fields.len() <= 0 {
        None
    } else if fields[0].0@ == key {
        Some(fields[0].1)
    } else {
        seq_get(fields.drop_first(), key)
    }
}

/// The field `key` of `v`: `None` when `v` is not an object or has no such
/// field.
pub open spec fn spec_get(v: JsonValue, key: Seq<char>) -> Option<JsonValue> {
    match v {
        JsonValue::Object(fields) => seq_get(fields@, key),
        _ => None,
    }
}

/// Whether `f` is an acceptable optional string field: absent, `null`, or
/// a string.
pub open spec fn opt_text_ok(f: Option<JsonValue>) -> bool {
    match f {
        None => true,
        Some(JsonValue::Null) => true,
        Some(JsonValue::Text(_)) => true,
        _ => false,
    }
}

/// The value of an optional string field; `None` unless a string is there.
pub open spec fn opt_text_val(f: Option<JsonValue>) -> Option<String> {
    match f {
        Some(JsonValue::Text(s)) => Some(s),
        _ => None,
    }
}

/// Whether `f` is an acceptable optional boolean field.
pub open spec fn opt_bool_ok(f: Option<JsonValue>) -> bool {
    match f {
        None => true,
        Some(JsonValue::Null) => true,
        Some(JsonValue::Bool(_)) => true,
        _ => false,
    }
}

/// The value of an optional boolean field.
pub open spec fn opt_bool_val(f: Option<JsonValue>) -> Option<bool> {
    match f {
        Some(JsonValue::Bool(b)) => Some(b),
        _ => None,
    }
}

/// Whether `f` is an acceptable optional unsigned-integer field.
pub open spec fn opt_u64_ok(f: Option<JsonValue>) -> bool {
    match f {
        None => true,
        Some(JsonValue::Null) => true,
        Some(JsonValue::UInt(_)) => true,
        _ => false,
    }
}

/// The value of an optional unsigned-integer field.
pub open spec fn opt_u64_val(f: Option<JsonValue>) -> Option<u64> {
    match f {
        Some(JsonValue::UInt(n)) => Some(n),
        _ => None,
    }
}

/// Whether two string slices read the same characters.
pub fn str_eq(a: &str, b: &str) -> (r: bool)
    ensures
        r == (a@ == b@),
{
    let alen = a.unicode_len();
    let blen = b.unicode_len();
    if alen != blen {
        return false;
    }
    let mut i: usize = 0;
    while i < alen
        invariant
            alen == a@.len(),
            alen == b@.len(),
            0 <= i <= alen,
            forall|k: int| 0 <= k < i ==> a@[k] == b@[k],
        decreases alen - i,
    {
        if a.get_char(i) != b.get_char(i) {
            return false;
        }
        i += 1;
    }
    proof {
        assert(a@ =~= b@);
    }
    true
}

/// What appending a field does to every lookup: a key already present keeps
/// its value, the appended key becomes visible, and any other key still
/// finds nothing.
pub proof fn lemma_seq_get_push(fields: Seq<(String, JsonValue)>, p: (String, JsonValue), key: Seq<char>)
    ensures
        seq_get(fields.push(p), key) == (if seq_get(fields, key) is Some {
            seq_get(fields, key)
        } else if p.0@ == key {
            Some(p.1)
        } else {
            None::<JsonValue>
        }),
    decreases fields.len(),
{
    let s = fields.push(p);
    if fields.len() == 0 {
        assert(s.len() == 1);
        assert(s[0] == p);
        assert(seq_get(fields, key) is None);
        if p.0@ == key {
            assert(seq_get(s, key) == Some(p.1));
        } else {
            assert(s.drop_first() =~= Seq::<(String, JsonValue)>::empty());
            assert(seq_get(s.drop_first(), key) is None);
            assert(seq_get(s, key) is None);
        }
    } else {
        assert(s[0] == fields[0]);
        if fields[0].0@ == key {
            assert(seq_get(s, key) == Some(s[0].1));
            assert(seq_get(fields, key) == Some(fields[0].1));
        } else {
            assert(s.drop_first() =~= fields.drop_first().push(p));
            lemma_seq_get_push(fields.drop_first(), p, key);
            assert(seq_get(s, key) == seq_get(s.drop_first(), key));
            assert(seq_get(fields, key) == seq_get(fields.drop_first(), key));
        }
    }
}

/// Appends the field `key: val` to an object under construction.
pub fn push_field(fields: &mut Vec<(String, JsonValue)>, key: &str, val: JsonValue)
    ensures
        final(fields)@.len() == old(fields)@.len() + 1,
        forall|k: Seq<char>|
            #![auto]
            seq_get(final(fields)@, k) == (if seq_get(old(fields)@, k) is Some {
                seq_get(old(fields)@, k)
            } else if k == key@ {
                Some(val)
            } else {
                None::<JsonValue>
            }),
{
    let s = String::from_str(key);
    let ghost old_seq = fields@;
    let ghost pair = (s, val);
    fields.push((s, val));
    proof {
        assert(fields@ == old_seq.push(pair));
        assert forall|k: Seq<char>|
            #![auto]
            seq_get(fields@, k) == (if seq_get(old_seq, k) is Some {
                seq_get(old_seq, k)
            } else if k == key@ {
                Some(val)
            } else {
                None::<JsonValue>
            }) by {
            lemma_seq_get_push(old_seq, pair, k);
        };
    }
}

/// How much of `fields` a scan that found no match in the first `i` fields
/// still has to look at.
proof fn lemma_seq_get_scan(fields: Seq<(String, JsonValue)>, key: Seq<char>, i: int)
    requires
        0 <= i <= fields.len(),
        forall|k: int| 0 <= k < i ==> fields[k].0@ != key,
    ensures
        seq_get(fields, key) == seq_get(fields.subrange(i, fields.len() as int), key),
    decreases i,
{
    if i > 0 {
        lemma_seq_get_scan(fields, key, i - 1);
        let tail = fields.subrange(i - 1, fields.len() as int);
        assert(tail[0] == fields[i - 1]);
        assert(tail.drop_first() =~= fields.subrange(i, fields.len() as int));
    } else {
        assert(fields.subrange(0, fields.len() as int) =~= fields);
    }
}

impl JsonValue {
    /// The field `key` of this object, if this is an object that has it.
    pub fn get<'a>(&'a self, key: &str) -> (r: Option<&'a JsonValue>)
        ensures
            match r {
                Some(x) => spec_get(*self, key@) == Some(*x),
                None => spec_get(*self, key@) is None,
            },
    {
        match self {
            JsonValue::Object(fields) => {
                let n = fields.len();
                let mut i: usize = 0;
                while i < n
                    invariant
                        n == fields@.len(),
                        0 <= i <= n,
                        spec_get(*self, key@) == seq_get(fields@, key@),
                        forall|k: int| 0 <= k < i ==> fields@[k].0@ != key@,
                    decreases n - i,
                {
                    if str_eq(fields[i].0.as_str(), key) {
                        proof {
                            lemma_seq_get_scan(fields@, key@, i as int);
                            let tail = fields@.subrange(i as int, n as int);
                            assert(tail[0] == fields@[i as int]);
                            assert(fields@[i as int].0@ == key@);
                            assert(seq_get(tail, key@) == Some(tail[0].1));
                        }
                        return Some(&fields[i].1);
                    }
                    i += 1;
                }
                proof {
                    lemma_seq_get_scan(fields@, key@, n as int);
                }
                None
            },
            _ => None,
        }
    }

    /// A required string field: its text, or a decode failure when it is
    /// absent or not a string.
    pub fn field_text(&self, key: &str) -> (r: Result<String, Error>)
        ensures
            match r {
                Ok(s) => spec_get(*self, key@) == Some(JsonValue::Text(s)),
                Err(e) => e == Error::Decode && !(spec_get(*self, key@) matches Some(
                    JsonValue::Text(_),
                )),
            },
    {
        match self.get(key) {
            Some(v) => match v {
                JsonValue::Text(s) => Ok(s.clone()),
                _ => Err(Error::Decode),
            },
            None => Err(Error::Decode),
        }
    }

    /// A required boolean field.
    pub fn field_bool(&self, key: &str) -> (r: Result<bool, Error>)
        ensures
            match r {
                Ok(b) => spec_get(*self, key@) == Some(JsonValue::Bool(b)),
                Err(e) => e == Error::Decode && !(spec_get(*self, key@) matches Some(
                    JsonValue::Bool(_),
                )),
            },
    {
        match self.get(key) {
            Some(v) => match v {
                JsonValue::Bool(b) => Ok(*b),
                _ => Err(Error::Decode),
            },
            None => Err(Error::Decode),
        }
    }

    /// A required unsigned-integer field.
    pub fn field_u64(&self, key: &str) -> (r: Result<u64, Error>)
        ensures
            match r {
                Ok(n) => spec_get(*self, key@) == Some(JsonValue::UInt(n)),
                Err(e) => e == Error::Decode && !(spec_get(*self, key@) matches Some(
                    JsonValue::UInt(_),
                )),
            },
    {
        match self.get(key) {
            Some(v) => match v {
                JsonValue::UInt(n) => Ok(*n),
                _ => Err(Error::Decode),
            },
            None => Err(Error::Decode),
        }
    }

    /// An optional string field: absent and `null` read as `None`; any
    /// value of another shape is a decode failure.
    pub fn field_text_opt(&self, key: &str) -> (r: Result<Option<String>, Error>)
        ensures
            match r {
                Ok(v) => opt_text_ok(spec_get(*self, key@)) && v == opt_text_val(
                    spec_get(*self, key@),
                ),
                Err(e) => e == Error::Decode && !opt_text_ok(spec_get(*self, key@)),
            },
    {
        match self.get(key) {
            None => Ok(None),
            Some(v) => match v {
                JsonValue::Null => Ok(None),
                JsonValue::Text(s) => Ok(Some(s.clone())),
                _ => Err(Error::Decode),
            },
        }
    }

    /// An optional boolean field.
    pub fn field_bool_opt(&self, key: &str) -> (r: Result<Option<bool>, Error>)
        ensures
            match r {
                Ok(v) => opt_bool_ok(spec_get(*self, key@)) && v == opt_bool_val(
                    spec_get(*self, key@),
                ),
                Err(e) => e == Error::Decode && !opt_bool_ok(spec_get(*self, key@)),
            },
    {
        match self.get(key) {
            None => Ok(None),
            Some(v) => match v {
                JsonValue::Null => Ok(None),
                JsonValue::Bool(b) => Ok(Some(*b)),
                _ => Err(Error::Decode),
            },
        }
    }

    /// An optional unsigned-integer field.
    pub fn field_u64_opt(&self, key: &str) -> (r: Result<Option<u64>, Error>)
        ensures
            match r {
                Ok(v) => opt_u64_ok(spec_get(*self, key@)) && v == opt_u64_val(
                    spec_get(*self, key@),
                ),
                Err(e) => e == Error::Decode && !opt_u64_ok(spec_get(*self, key@)),
            },
    {
        match self.get(key) {
            None => Ok(None),
            Some(v) => match v {
                JsonValue::Null => Ok(None),
                JsonValue::UInt(n) => Ok(Some(*n)),
                _ => Err(Error::Decode),
            },
        }
    }

    /// A lenient unsigned-integer read: the value when the field is there
    /// and is an unsigned integer, and `None` otherwise, never a failure.
    pub fn field_u64_lenient(&self, key: &str) -> (r: Option<u64>)
        ensures
            r == opt_u64_val(spec_get(*self, key@)),
    {
        match self.get(key) {
            Some(v) => match v {
                JsonValue::UInt(n) => Some(*n),
                _ => None,
            },
            None => None,
        }
    }

    /// A lenient string read: the text when the field is there and is a
    /// string, and `None` otherwise, never a failure.
    pub fn field_text_lenient(&self, key: &str) -> (r: Option<String>)
        ensures
            r == opt_text_val(spec_get(*self, key@)),
    {
        match self.get(key) {
            Some(v) => match v {
                JsonValue::Text(s) => Some(s.clone()),
                _ => None,
            },
            None => None,
        }
    }
}

} // verus!
