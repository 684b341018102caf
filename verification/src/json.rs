//! A structured-payload model.
//!
//! External feeds deliver arbitrary structured data (objects, arrays,
//! numbers, strings). The pipeline's rules only ever read top-level fields
//! and variant shapes, so the payload is modelled as a plain recursive
//! datatype. Integer-valued numbers are carried as machine integers and
//! all other numbers as their decimal token text: the pipeline never does
//! numeric evaluation on the latter, it only tests their presence and
//! hands them through.

use vstd::prelude::*;
use vstd::string::StrSliceExecFns;

verus! {

/// A structured payload value. A number is either `Int`, an integer that
/// fits a machine word, or `Num`, any other number carried as its decimal
/// token text as it appeared in the feed.
#[derive(Debug)]
pub enum JsonValue {
    Null,
    Bool(bool),
    Int(i64),
    Num(String),
    Str(String),
    Arr(Vec<JsonValue>),
    Obj(Vec<(String, JsonValue)>),
}

/// First field whose name equals `key`, searching left to right.
pub open spec fn spec_lookup(fields: Seq<(String, JsonValue)>, key: Seq<char>) -> Option<
    JsonValue,
>
    decreases fields.len(),
{
    if fields.len() <= 0 {
        None
    } else if fields[0].0@ == key {
        Some(fields[0].1)
    } else {
        spec_lookup(fields.skip(1), key)
    }
}

/// Character-by-character string equality, so that contracts can speak of
/// string views without relying on derived comparisons.
pub fn str_eq(a: &str, b: &str) -> (r: bool)
    ensures
        r == (a@ == b@),
{
    let n = a.unicode_len();
    if n != b.unicode_len() {
        return false;
    }
    for i in 0..n
        invariant
            n == a@.len(),
            n == b@.len(),
            forall|j: int| 0 <= j < i ==> a@[j] == b@[j],
    {
        if a.get_char(i) != b.get_char(i) {
            return false;
        }
    }
    proof {
        assert(a@ =~= b@);
    }
    true
}

impl JsonValue {
    /// The value of the named top-level field, if this is an object with
    /// such a field.
    pub open spec fn spec_get(&self, key: Seq<char>) -> Option<JsonValue> {
        match self {
            JsonValue::Obj(fields) => spec_lookup(fields@, key),
            _ => None,
        }
    }

    pub open spec fn spec_is_object(&self) -> bool {
        self is Obj
    }

    pub open spec fn spec_is_array(&self) -> bool {
        self is Arr
    }

    pub open spec fn spec_is_number(&self) -> bool {
        self is Int || self is Num
    }

    pub open spec fn spec_is_string(&self) -> bool {
        self is Str
    }

    /// The value of the named top-level field, if this is an object that
    /// has one.
    #[verifier::loop_isolation(false)]
    pub fn get<'a>(&'a self, key: &str) -> (r: Option<&'a JsonValue>)
        ensures
            match r {
                Some(v) => self.spec_get(key@) == Some(*v),
                None => self.spec_get(key@) is None,
            },
    {
        match self {
            JsonValue::Obj(fields) => {
                let n = fields.len();
                proof {
                    assert(fields@.skip(0) =~= fields@);
                }
                for i in 0..n
                    invariant
                        spec_lookup(fields@.skip(i as int), key@) == spec_lookup(fields@, key@),
                {
                    let pair = &fields[i];
                    proof {
                        assert(fields@.skip(i as int)[0] == fields@[i as int]);
                    }
                    if str_eq(pair.0.as_str(), key) {
                        return Some(&pair.1);
                    }
                    proof {
                        assert(fields@.skip(i as int).skip(1) =~= fields@.skip(i as int + 1));
                    }
                }
                proof {
                    assert(fields@.skip(n as int).len() == 0);
                }
                None
            },
            _ => None,
        }
    }

    pub fn is_object(&self) -> (r: bool)
        ensures
            r == self.spec_is_object(),
    {
        matches!(self, JsonValue::Obj(_))
    }

    pub fn is_array(&self) -> (r: bool)
        ensures
            r == self.spec_is_array(),
    {
        matches!(self, JsonValue::Arr(_))
    }

    pub fn is_number(&self) -> (r: bool)
        ensures
            r == self.spec_is_number(),
    {
        matches!(self, JsonValue::Int(_) | JsonValue::Num(_))
    }

    pub fn is_string(&self) -> (r: bool)
        ensures
            r == self.spec_is_string(),
    {
        matches!(self, JsonValue::Str(_))
    }
}

} // verus!
