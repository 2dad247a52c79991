//! A small generic key/value data model for RPC requests and responses.
//!
//! Requests and responses travel as nested mappings of scalar values. The
//! mapping is kept as an association list in insertion order; every insertion
//! requires a fresh key, so a key occurs at most once and `lookup` is the
//! mapping it denotes.

use vstd::prelude::*;

verus! {

/// One generic RPC value: a scalar or a nested mapping.
#[derive(Debug)]
pub enum RpcValue {
    Null,
    Int(i64),
    UInt(u64),
    Str(String),
    Mapping(RpcMap),
}

/// A mapping from string keys to [`RpcValue`]s, in insertion order.
#[derive(Debug)]
pub struct RpcMap {
    pub entries: Vec<(String, RpcValue)>,
}

/// The value bound to `key` by the first matching entry, if any.
pub open spec fn lookup(entries: Seq<(String, RpcValue)>, key: Seq<char>) -> Option<RpcValue>
    decreases entries.len(),
{
    if entries.len() == 0 {
        None
    } else if entries[0].0@ == key {
        Some(entries[0].1)
    } else {
        lookup(entries.drop_first(), key)
    }
}

/// A key bound by no entry has no lookup result.
pub proof fn lemma_lookup_none(entries: Seq<(String, RpcValue)>, key: Seq<char>)
    requires
        forall|j: int| 0 <= j < entries.len() ==> #[trigger] entries[j].0@ != key,
    ensures
        lookup(entries, key) is None,
    decreases entries.len(),
{
    if entries.len() > 0 {
        lemma_lookup_none(entries.drop_first(), key);
    }
}

/// The first entry whose key matches decides the lookup result.
pub proof fn lemma_lookup_at(entries: Seq<(String, RpcValue)>, key: Seq<char>, i: int)
    requires
        0 <= i < entries.len(),
        entries[i].0@ == key,
        forall|j: int| 0 <= j < i ==> #[trigger] entries[j].0@ != key,
    ensures
        lookup(entries, key) == Some(entries[i].1),
    decreases i,
{
    if i > 0 {
        lemma_lookup_at(entries.drop_first(), key, i - 1);
    }
}

impl RpcValue {
    /// The string content of a value: the characters of a `Str`, and empty
    /// for every other variant.
    pub open spec fn str_view(self) -> Seq<char> {
        match self {
            RpcValue::Str(s) => s@,
            _ => Seq::empty(),
        }
    }

    /// The value read as a signed 32-bit integer: an `Int` or `UInt` in
    /// range is itself, anything else reads as zero.
    pub open spec fn i32_view(self) -> i32 {
        match self {
            RpcValue::Int(i) => if i32::MIN <= i <= i32::MAX {
                i as i32
            } else {
                0i32
            },
            RpcValue::UInt(u) => if u <= i32::MAX {
                u as i32
            } else {
                0i32
            },
            _ => 0i32,
        }
    }

    /// The string content of the value, empty for non-string variants.
    pub fn as_str(&self) -> (r: &str)
        ensures
            r@ == self.str_view(),
    {
        match self {
            RpcValue::Str(s) => s.as_str(),
            _ => {
                let empty = "";
                proof {
                    reveal_strlit("");
                    assert(empty@ =~= Seq::<char>::empty());
                }
                empty
            },
        }
    }

    /// The value read as a signed 32-bit integer.
    pub fn as_i32(&self) -> (r: i32)
        ensures
            r == self.i32_view(),
    {
        match self {
            RpcValue::Int(i) => {
                let i = *i;
                if i32::MIN as i64 <= i && i <= i32::MAX as i64 {
                    i as i32
                } else {
                    0
                }
            },
            RpcValue::UInt(u) => {
                let u = *u;
                if u <= i32::MAX as u64 {
                    u as i32
                } else {
                    0
                }
            },
            _ => 0,
        }
    }
}

impl RpcMap {
    /// An empty mapping.
    pub fn new() -> (r: RpcMap)
        ensures
            r.entries@ =~= Seq::<(String, RpcValue)>::empty(),
    {
        RpcMap { entries: Vec::new() }
    }

    pub fn len(&self) -> (r: usize)
        ensures
            r == self.entries@.len(),
    {
        self.entries.len()
    }

    pub fn is_empty(&self) -> (r: bool)
        ensures
            r == (self.entries@.len() == 0),
    {
        self.entries.is_empty()
    }

    /// Whether some entry binds `key`.
    pub fn contains_key(&self, key: &str) -> (r: bool)
        ensures
            r == (lookup(self.entries@, key@) is Some),
    {
        let key_owned = key.to_owned();
        let n = self.entries.len();
        let mut i: usize = 0;
        while i < n
            invariant
                key_owned@ == key@,
                0 <= i <= n,
                n == self.entries@.len(),
                forall|j: int| 0 <= j < i ==> #[trigger] self.entries@[j].0@ != key@,
            decreases n - i,
        {
            if self.entries[i].0 == key_owned {
                proof {
                    lemma_lookup_at(self.entries@, key@, i as int);
                }
                return true;
            }
            i = i + 1;
        }
        proof {
            lemma_lookup_none(self.entries@, key@);
        }
        false
    }

    /// Bind `key` to `value`. The key must be fresh, so the mapping stays
    /// one entry per key.
    pub fn insert(&mut self, key: &str, value: RpcValue)
        requires
            forall|j: int|
                0 <= j < old(self).entries@.len() ==> #[trigger] old(self).entries@[j].0@ != key@,
        ensures
            final(self).entries@.len() == old(self).entries@.len() + 1,
            final(self).entries@ == old(self).entries@.push(final(self).entries@.last()),
            final(self).entries@.last().0@ == key@,
            final(self).entries@.last().1 == value,
    {
        self.entries.push((key.to_owned(), value));
    }

    /// The value bound to `key`, if any.
    pub fn get(&self, key: &str) -> (r: Option<&RpcValue>)
        ensures
            match r {
                Some(v) => lookup(self.entries@, key@) == Some(*v),
                None => lookup(self.entries@, key@) is None,
            },
    {
        let key_owned = key.to_owned();
        let n = self.entries.len();
        let mut i: usize = 0;
        while i < n
            invariant
                key_owned@ == key@,
                0 <= i <= n,
                n == self.entries@.len(),
                forall|j: int| 0 <= j < i ==> #[trigger] self.entries@[j].0@ != key@,
            decreases n - i,
        {
            if self.entries[i].0 == key_owned {
                proof {
                    lemma_lookup_at(self.entries@, key@, i as int);
                }
                return Some(&self.entries[i].1);
            }
            i = i + 1;
        }
        proof {
            lemma_lookup_none(self.entries@, key@);
        }
        None
    }
}

} // verus!
