//! The dynamically typed values that the editor returns from an evaluation,
//! with the few projections that the rest of the library reads.
use vstd::prelude::*;

verus! {

/// A value returned by a remote evaluation, holding what this library reads.
///
/// Integers cover the whole MessagePack range, from `-(2^63)` up to
/// `2^64 - 1`. `Other` stands for every value that this library never reads
/// into: a float, binary data, an extension value, or a string that is not
/// valid UTF-8.
pub enum DynValue {
    Nil,
    Boolean(bool),
    Integer(i128),
    String(String),
    Array(Vec<DynValue>),
    Dict(Vec<(DynValue, DynValue)>),
    Other,
}

/// The text of a value, where it is a string.
pub open spec fn str_of(v: DynValue) -> Option<Seq<char>> {
    match v {
        DynValue::String(s) => Some(s@),
        _ => None,
    }
}

/// The value as an `i64`, where it is an integer that fits.
pub open spec fn i64_of(v: DynValue) -> Option<i64> {
    match v {
        DynValue::Integer(n) => if i64::MIN <= n <= i64::MAX {
            Some(n as i64)
        } else {
            None
        },
        _ => None,
    }
}

/// Whether every key of a map's entries is a string.
pub open spec fn keys_are_strings(entries: Seq<(DynValue, DynValue)>) -> bool {
    forall|i: int| 0 <= i < entries.len() ==> (#[trigger] str_of(entries[i].0)).is_some()
}

/// The value stored under the string key `key`: where several entries carry
/// that key, the last one counts.
pub open spec fn lookup(entries: Seq<(DynValue, DynValue)>, key: Seq<char>) -> Option<DynValue>
    decreases entries.len(),
{
    if entries.len() == 0 {
        None
    } else if str_of(entries.last().0) == Some(key) {
        Some(entries.last().1)
    } else {
        lookup(entries.drop_last(), key)
    }
}

impl DynValue {
    /// The text of a string value.
    pub fn as_str(&self) -> (r: Option<&String>)
        ensures
            match r {
                Some(s) => str_of(*self) == Some(s@),
                None => str_of(*self).is_none(),
            },
    {
        match self {
            DynValue::String(s) => Some(s),
            _ => None,
        }
    }

    /// An integer value that fits in an `i64`.
    pub fn as_i64(&self) -> (r: Option<i64>)
        ensures
            r == i64_of(*self),
    {
        match self {
            DynValue::Integer(n) => {
                if i64::MIN as i128 <= *n && *n <= i64::MAX as i128 {
                    Some(*n as i64)
                } else {
                    None
                }
            },
            _ => None,
        }
    }

    /// The items of an array value.
    pub fn as_array(&self) -> (r: Option<&Vec<DynValue>>)
        ensures
            match *self {
                DynValue::Array(items) => r == Some(&items),
                _ => r.is_none(),
            },
    {
        match self {
            DynValue::Array(items) => Some(items),
            _ => None,
        }
    }

    /// The entries of a map value, in the order the editor sent them.
    pub fn as_map(&self) -> (r: Option<&Vec<(DynValue, DynValue)>>)
        ensures
            match *self {
                DynValue::Dict(entries) => r == Some(&entries),
                _ => r.is_none(),
            },
    {
        match self {
            DynValue::Dict(entries) => Some(entries),
            _ => None,
        }
    }
}

/// Tells whether every key of `entries` is a string.
pub fn all_keys_strings(entries: &Vec<(DynValue, DynValue)>) -> (r: bool)
    ensures
        r == keys_are_strings(entries@),
{
    let mut i: usize = 0;
    while i < entries.len()
        invariant
            i <= entries@.len(),
            forall|j: int| 0 <= j < i ==> (#[trigger] str_of(entries@[j].0)).is_some(),
        decreases entries@.len() - i,
    {
        if entries[i].0.as_str().is_none() {
            return false;
        }
        i = i + 1;
    }
    true
}

/// The value stored under `key` in `entries`; the last entry with that key
/// wins.
pub fn find<'a>(entries: &'a Vec<(DynValue, DynValue)>, key: &String) -> (r: Option<&'a DynValue>)
    ensures
        match r {
            Some(v) => lookup(entries@, key@) == Some(*v),
            None => lookup(entries@, key@).is_none(),
        },
{
    let mut i: usize = entries.len();
    assert(entries@.subrange(0, i as int) =~= entries@);
    while i > 0
        invariant
            i <= entries@.len(),
            lookup(entries@, key@) == lookup(entries@.subrange(0, i as int), key@),
        decreases i,
    {
        let k = i - 1;
        proof {
            let s = entries@.subrange(0, i as int);
            assert(s.drop_last() =~= entries@.subrange(0, k as int));
            assert(s.last() == entries@[k as int]);
        }
        match entries[k].0.as_str() {
            Some(s) => {
                if s.eq(key) {
                    return Some(&entries[k].1);
                }
            },
            None => {},
        }
        i = k;
    }
    None
}

} // verus!
