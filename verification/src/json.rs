//! A JSON document model holding what the settings logic reads.
//!
//! Numbers keep the three forms of a parsed JSON number (a non-negative
//! integer, a negative integer, or a finite binary64 fraction). Arrays and
//! objects nested inside a value are never read by the settings logic except
//! for one shape: an object whose only entry has the value `null`, which names
//! an enum variant. That shape is kept; nothing else of a nested value is.
use crate::binary64::{scaled_integer, value_scale, Binary64};
use crate::text::{copy_str, str_eq};
use vstd::arithmetic::power2::*;
use vstd::prelude::*;

verus! {

broadcast use vstd::string::group_string_axioms;

/// A parsed JSON number.
#[derive(Clone, Copy, Debug, PartialEq, Eq, Structural)]
pub enum JsonNumber {
    /// A non-negative integer.
    Unsigned(u64),
    /// A negative integer.
    Negative(i64),
    /// A number with a fraction or exponent.
    Float(Binary64),
}

impl JsonNumber {
    /// The number multiplied by 2^1074 (see `binary64::scaled_value`).
    pub open spec fn spec_scaled(self) -> int {
        match self {
            JsonNumber::Unsigned(u) => scaled_integer(u as int),
            JsonNumber::Negative(i) => scaled_integer(i as int),
            JsonNumber::Float(f) => f.spec_scaled(),
        }
    }

    pub open spec fn spec_finite(self) -> bool {
        match self {
            JsonNumber::Float(f) => f.spec_finite(),
            _ => true,
        }
    }

    /// A finite number of magnitude below 2^53.
    pub open spec fn spec_moderate(self) -> bool {
        &&& self.spec_finite()
        &&& -(pow2(53) as int) * value_scale() < self.spec_scaled()
        &&& self.spec_scaled() < pow2(53) as int * value_scale()
    }

    /// `serde_json::Number::as_u64`.
    pub open spec fn spec_as_u64(self) -> Option<u64> {
        match self {
            JsonNumber::Unsigned(u) => Some(u),
            _ => None,
        }
    }

    /// `serde_json::Number::as_i64`.
    pub open spec fn spec_as_i64(self) -> Option<i64> {
        match self {
            JsonNumber::Unsigned(u) => if u <= i64::MAX {
                Some(u as i64)
            } else {
                None
            },
            JsonNumber::Negative(i) => Some(i),
            JsonNumber::Float(_) => None,
        }
    }

    /// The number, read as a binary64 value, is finite and lies in `[lo, hi]`.
    pub open spec fn spec_in_range(self, lo: Binary64, hi: Binary64) -> bool {
        &&& self.spec_finite()
        &&& lo.spec_scaled() <= self.spec_scaled()
        &&& self.spec_scaled() <= hi.spec_scaled()
    }

    pub fn as_u64(&self) -> (result: Option<u64>)
        ensures
            result == self.spec_as_u64(),
    {
        match self {
            JsonNumber::Unsigned(u) => Some(*u),
            _ => None,
        }
    }

    pub fn as_i64(&self) -> (result: Option<i64>)
        ensures
            result == self.spec_as_i64(),
    {
        match self {
            JsonNumber::Unsigned(u) => if *u <= 0x7fff_ffff_ffff_ffff {
                Some(*u as i64)
            } else {
                None
            },
            JsonNumber::Negative(i) => Some(*i),
            JsonNumber::Float(_) => None,
        }
    }

    /// Whether the number is finite and lies in `[lo, hi]`; both bounds are
    /// finite with magnitude below 2^53.
    pub fn in_range(&self, lo: Binary64, hi: Binary64) -> (result: bool)
        requires
            lo.spec_moderate(),
            hi.spec_moderate(),
        ensures
            result == self.spec_in_range(lo, hi),
    {
        proof {
            lemma2_to64_rest();
            lemma_pow2_pos(1074);
        }
        match self {
            JsonNumber::Unsigned(u) => {
                if *u >= 0x0020_0000_0000_0000 {
                    proof {
                        vstd::arithmetic::mul::lemma_mul_inequality(
                            pow2(53) as int,
                            *u as int,
                            value_scale(),
                        );
                    }
                    false
                } else {
                    Binary64::from_integer(false, *u).in_range(lo, hi)
                }
            },
            JsonNumber::Negative(i) => {
                if *i <= -0x0020_0000_0000_0000 {
                    proof {
                        vstd::arithmetic::mul::lemma_mul_inequality(
                            *i as int,
                            -(pow2(53) as int),
                            value_scale(),
                        );
                        vstd::arithmetic::mul::lemma_mul_unary_negation(
                            pow2(53) as int,
                            value_scale(),
                        );
                    }
                    false
                } else if *i >= 0x0020_0000_0000_0000 {
                    proof {
                        vstd::arithmetic::mul::lemma_mul_inequality(
                            pow2(53) as int,
                            *i as int,
                            value_scale(),
                        );
                    }
                    false
                } else if *i >= 0 {
                    Binary64::from_integer(false, *i as u64).in_range(lo, hi)
                } else {
                    let magnitude: u64 = (0 - *i) as u64;
                    Binary64::from_integer(true, magnitude).in_range(lo, hi)
                }
            },
            JsonNumber::Float(f) => f.in_range(lo, hi),
        }
    }
}

/// The value of a JSON document in specifications.
pub enum JsonData {
    Null,
    Bool(bool),
    Number(JsonNumber),
    Text(Seq<char>),
    Array,
    /// An object; holds the key of its only entry when it has exactly one
    /// entry and that entry is `null`.
    Object(Option<Seq<char>>),
}

/// A JSON value.
#[derive(Clone, Debug, PartialEq)]
pub enum JsonValue {
    Null,
    Bool(bool),
    Number(JsonNumber),
    Text(String),
    Array,
    /// An object; holds the key of its only entry when it has exactly one
    /// entry and that entry is `null`.
    Object(Option<String>),
}

impl View for JsonValue {
    type V = JsonData;

    open spec fn view(&self) -> JsonData {
        match self {
            JsonValue::Null => JsonData::Null,
            JsonValue::Bool(b) => JsonData::Bool(*b),
            JsonValue::Number(n) => JsonData::Number(*n),
            JsonValue::Text(s) => JsonData::Text(s@),
            JsonValue::Array => JsonData::Array,
            JsonValue::Object(k) => JsonData::Object(
                match k {
                    Some(k) => Some(k@),
                    None => None,
                },
            ),
        }
    }
}

impl JsonValue {
    /// A copy with the same view.
    pub fn duplicate(&self) -> (copy: JsonValue)
        ensures
            copy@ == self@,
    {
        match self {
            JsonValue::Null => JsonValue::Null,
            JsonValue::Bool(b) => JsonValue::Bool(*b),
            JsonValue::Number(n) => JsonValue::Number(*n),
            JsonValue::Text(s) => JsonValue::Text(copy_str(s.as_str())),
            JsonValue::Array => JsonValue::Array,
            JsonValue::Object(k) => JsonValue::Object(
                match k {
                    Some(k) => Some(copy_str(k.as_str())),
                    None => None,
                },
            ),
        }
    }

    /// A text value holding `s`.
    pub fn text(s: &str) -> (value: JsonValue)
        ensures
            value@ == JsonData::Text(s@),
    {
        JsonValue::Text(copy_str(s))
    }
}

/// The entries of an object in specifications.
pub type Entries = Seq<(Seq<char>, JsonData)>;

/// The value of the first entry named `key`.
pub open spec fn lookup(entries: Entries, key: Seq<char>) -> Option<JsonData>
    decreases entries.len(),
{
    if entries.len() == 0 {
        None
    } else if entries[0].0 == key {
        Some(entries[0].1)
    } else {
        lookup(entries.drop_first(), key)
    }
}

pub open spec fn has_key(entries: Entries, key: Seq<char>) -> bool {
    lookup(entries, key) is Some
}

/// No two entries share a key.
pub open spec fn distinct_keys(entries: Entries) -> bool {
    forall|i: int, j: int|
        0 <= i < entries.len() && 0 <= j < entries.len() && i != j ==> entries[i].0 != entries[j].0
}

/// `entries` with the value of `key` replaced, or with a new last entry.
pub open spec fn set_entry(entries: Entries, key: Seq<char>, value: JsonData) -> Entries
    decreases entries.len(),
{
    if entries.len() == 0 {
        seq![(key, value)]
    } else if entries[0].0 == key {
        entries.update(0, (key, value))
    } else {
        seq![entries[0]] + set_entry(entries.drop_first(), key, value)
    }
}

/// `entries` without the first entry named `key`.
pub open spec fn remove_entry(entries: Entries, key: Seq<char>) -> Entries
    decreases entries.len(),
{
    if entries.len() == 0 {
        entries
    } else if entries[0].0 == key {
        entries.drop_first()
    } else {
        seq![entries[0]] + remove_entry(entries.drop_first(), key)
    }
}

pub proof fn lemma_lookup_at(entries: Entries, key: Seq<char>, i: int)
    requires
        0 <= i < entries.len(),
        entries[i].0 == key,
        forall|j: int| 0 <= j < i ==> entries[j].0 != key,
    ensures
        lookup(entries, key) == Some(entries[i].1),
    decreases i,
{
    if i > 0 {
        lemma_lookup_at(entries.drop_first(), key, i - 1);
    }
}

pub proof fn lemma_lookup_absent(entries: Entries, key: Seq<char>)
    requires
        forall|j: int| 0 <= j < entries.len() ==> entries[j].0 != key,
    ensures
        lookup(entries, key) is None,
    decreases entries.len(),
{
    if entries.len() > 0 {
        lemma_lookup_absent(entries.drop_first(), key);
    }
}

/// A key that `lookup` finds is the key of some entry.
pub proof fn lemma_lookup_found(entries: Entries, key: Seq<char>)
    requires
        lookup(entries, key) is Some,
    ensures
        exists|i: int| 0 <= i < entries.len() && entries[i].0 == key && lookup(entries, key) == Some(
            entries[i].1,
        ),
    decreases entries.len(),
{
    if entries[0].0 != key {
        lemma_lookup_found(entries.drop_first(), key);
        let i = choose|i: int|
            0 <= i < entries.drop_first().len() && entries.drop_first()[i].0 == key && lookup(
                entries.drop_first(),
                key,
            ) == Some(entries.drop_first()[i].1);
        assert(entries[i + 1] == entries.drop_first()[i]);
    } else {
        assert(entries[0].0 == key);
    }
}

pub proof fn lemma_set_entry(entries: Entries, key: Seq<char>, value: JsonData)
    requires
        distinct_keys(entries),
    ensures
        distinct_keys(set_entry(entries, key, value)),
        forall|k: Seq<char>|
            #![trigger lookup(set_entry(entries, key, value), k)]
            lookup(set_entry(entries, key, value), k) == if k == key {
                Some(value)
            } else {
                lookup(entries, k)
            },
        has_key(entries, key) ==> set_entry(entries, key, value).len() == entries.len(),
        !has_key(entries, key) ==> set_entry(entries, key, value) == entries.push((key, value)),
        forall|i: int|
            0 <= i < entries.len() ==> #[trigger] set_entry(entries, key, value)[i].0
                == entries[i].0,
    decreases entries.len(),
{
    let r = set_entry(entries, key, value);
    if entries.len() == 0 {
        assert forall|k: Seq<char>| lookup(r, k) == if k == key {
            Some(value)
        } else {
            lookup(entries, k)
        } by {
            assert(r[0] == (key, value));
            assert(r.drop_first().len() == 0);
            assert(lookup(r.drop_first(), k) is None);
            assert(lookup(entries, k) is None);
        }
    } else if entries[0].0 == key {
        assert forall|k: Seq<char>| #[trigger] lookup(r, k) == if k == key {
            Some(value)
        } else {
            lookup(entries, k)
        } by {
            assert(r[0] == (key, value));
            assert(r.drop_first() =~= entries.drop_first());
            if k != key {
                assert(lookup(r, k) == lookup(r.drop_first(), k));
                assert(lookup(entries, k) == lookup(entries.drop_first(), k));
            }
        }
        assert(distinct_keys(r)) by {
            assert forall|i: int, j: int|
                0 <= i < r.len() && 0 <= j < r.len() && i != j implies r[i].0 != r[j].0 by {
                assert(r[i].0 == entries[i].0);
                assert(r[j].0 == entries[j].0);
            }
        }
    } else {
        let t = entries.drop_first();
        assert(distinct_keys(t)) by {
            assert forall|i: int, j: int|
                0 <= i < t.len() && 0 <= j < t.len() && i != j implies t[i].0 != t[j].0 by {
                assert(t[i] == entries[i + 1]);
                assert(t[j] == entries[j + 1]);
            }
        }
        lemma_set_entry(t, key, value);
        let rt = set_entry(t, key, value);
        assert(r.drop_first() =~= rt);
        assert forall|k: Seq<char>| #[trigger] lookup(r, k) == if k == key {
            Some(value)
        } else {
            lookup(entries, k)
        } by {
            assert(r[0] == entries[0]);
            if entries[0].0 != k {
                assert(lookup(r, k) == lookup(rt, k));
                assert(lookup(entries, k) == lookup(t, k));
            }
        }
        assert forall|i: int| 0 <= i < entries.len() implies #[trigger] r[i].0 == entries[i].0 by {
            if i > 0 {
                assert(r[i] == rt[i - 1]);
            }
        }
        if has_key(entries, key) {
            assert(has_key(t, key));
        } else {
            assert(!has_key(t, key));
            assert(r =~= entries.push((key, value)));
        }
        assert(distinct_keys(r)) by {
            assert forall|i: int, j: int|
                0 <= i < r.len() && 0 <= j < r.len() && i != j implies r[i].0 != r[j].0 by {
                if i > 0 && j > 0 {
                    assert(r[i] == rt[i - 1]);
                    assert(r[j] == rt[j - 1]);
                } else if i == 0 {
                    assert(r[j] == rt[j - 1]);
                    if j - 1 < t.len() {
                        assert(rt[j - 1].0 == t[j - 1].0);
                        assert(t[j - 1] == entries[j]);
                    } else {
                        assert(!has_key(t, key));
                        assert(rt[j - 1].0 == key);
                    }
                } else {
                    assert(r[i] == rt[i - 1]);
                    if i - 1 < t.len() {
                        assert(rt[i - 1].0 == t[i - 1].0);
                        assert(t[i - 1] == entries[i]);
                    } else {
                        assert(rt[i - 1].0 == key);
                    }
                }
            }
        }
    }
}

pub proof fn lemma_remove_entry(entries: Entries, key: Seq<char>)
    requires
        distinct_keys(entries),
    ensures
        distinct_keys(remove_entry(entries, key)),
        forall|k: Seq<char>|
            #![trigger lookup(remove_entry(entries, key), k)]
            lookup(remove_entry(entries, key), k) == if k == key {
                None
            } else {
                lookup(entries, k)
            },
        forall|i: int|
            0 <= i < remove_entry(entries, key).len() ==> exists|j: int|
                0 <= j < entries.len() && #[trigger] remove_entry(entries, key)[i].0
                    == entries[j].0,
    decreases entries.len(),
{
    let r = remove_entry(entries, key);
    if entries.len() == 0 {
    } else {
        let t = entries.drop_first();
        assert(distinct_keys(t)) by {
            assert forall|i: int, j: int|
                0 <= i < t.len() && 0 <= j < t.len() && i != j implies t[i].0 != t[j].0 by {
                assert(t[i] == entries[i + 1]);
                assert(t[j] == entries[j + 1]);
            }
        }
        if entries[0].0 == key {
            assert forall|j: int| 0 <= j < t.len() implies t[j].0 != key by {
                assert(t[j] == entries[j + 1]);
            }
            lemma_lookup_absent(t, key);
            assert forall|i: int| 0 <= i < r.len() implies exists|j: int|
                0 <= j < entries.len() && #[trigger] r[i].0 == entries[j].0 by {
                assert(r[i] == entries[i + 1]);
            }
        } else {
            lemma_remove_entry(t, key);
            let rt = remove_entry(t, key);
            assert(r.drop_first() =~= rt);
            assert forall|k: Seq<char>| #[trigger] lookup(r, k) == if k == key {
                None
            } else {
                lookup(entries, k)
            } by {
                assert(r[0] == entries[0]);
                if entries[0].0 != k {
                    assert(lookup(r, k) == lookup(rt, k));
                    assert(lookup(entries, k) == lookup(t, k));
                }
            }
            assert forall|i: int| 0 <= i < r.len() implies exists|j: int|
                0 <= j < entries.len() && #[trigger] r[i].0 == entries[j].0 by {
                if i > 0 {
                    assert(r[i] == rt[i - 1]);
                    let j = choose|j: int| 0 <= j < t.len() && rt[i - 1].0 == t[j].0;
                    assert(t[j] == entries[j + 1]);
                } else {
                    assert(r[0] == entries[0]);
                }
            }
            assert(distinct_keys(r)) by {
                assert forall|i: int, j: int|
                    0 <= i < r.len() && 0 <= j < r.len() && i != j implies r[i].0 != r[j].0 by {
                    if i > 0 && j > 0 {
                        assert(r[i] == rt[i - 1]);
                        assert(r[j] == rt[j - 1]);
                    } else if i == 0 {
                        assert(r[j] == rt[j - 1]);
                        let m = choose|m: int| 0 <= m < t.len() && rt[j - 1].0 == t[m].0;
                        assert(t[m] == entries[m + 1]);
                    } else {
                        assert(r[i] == rt[i - 1]);
                        let m = choose|m: int| 0 <= m < t.len() && rt[i - 1].0 == t[m].0;
                        assert(t[m] == entries[m + 1]);
                    }
                }
            }
        }
    }
}

/// A JSON object: entries in order, with distinct keys.
#[derive(Debug, PartialEq)]
pub struct JsonObject {
    entries: Vec<(String, JsonValue)>,
}

impl View for JsonObject {
    type V = Entries;

    closed spec fn view(&self) -> Entries {
        self.entries@.map_values(|e: (String, JsonValue)| (e.0@, e.1@))
    }
}

impl JsonObject {
    /// No two entries of an object share a key.
    #[verifier::type_invariant]
    pub open spec fn keys_are_distinct(&self) -> bool {
        distinct_keys(self@)
    }

    pub fn new() -> (object: JsonObject)
        ensures
            object@ == Seq::<(Seq<char>, JsonData)>::empty(),
    {
        let entries: Vec<(String, JsonValue)> = Vec::new();
        proof {
            assert(entries@.map_values(|e: (String, JsonValue)| (e.0@, e.1@)) =~= Seq::<
                (Seq<char>, JsonData),
            >::empty());
        }
        JsonObject { entries }
    }

    pub fn len(&self) -> (n: usize)
        ensures
            n == self@.len(),
    {
        self.entries.len()
    }

    /// The key and value of entry `i`.
    pub fn entry(&self, i: usize) -> (entry: (&String, &JsonValue))
        requires
            i < self@.len(),
        ensures
            entry.0@ == self@[i as int].0,
            entry.1@ == self@[i as int].1,
    {
        (&self.entries[i].0, &self.entries[i].1)
    }

    /// The position of the entry named `key`.
    fn position(&self, key: &str) -> (position: Option<usize>)
        ensures
            match position {
                Some(i) => i < self@.len() && self@[i as int].0 == key@ && lookup(self@, key@)
                    == Some(self@[i as int].1) && forall|j: int|
                    0 <= j < i ==> self@[j].0 != key@,
                None => lookup(self@, key@) is None && forall|j: int|
                    0 <= j < self@.len() ==> self@[j].0 != key@,
            },
    {
        let mut i: usize = 0;
        while i < self.entries.len()
            invariant
                i <= self@.len() == self.entries@.len(),
                forall|j: int| 0 <= j < i ==> self@[j].0 != key@,
            decreases self.entries.len() - i,
        {
            if str_eq(self.entries[i].0.as_str(), key) {
                proof {
                    lemma_lookup_at(self@, key@, i as int);
                }
                return Some(i);
            }
            i = i + 1;
        }
        proof {
            lemma_lookup_absent(self@, key@);
        }
        None
    }

    /// The value of the entry named `key`.
    pub fn get(&self, key: &str) -> (value: Option<&JsonValue>)
        ensures
            match value {
                Some(v) => lookup(self@, key@) == Some(v@),
                None => lookup(self@, key@) is None,
            },
    {
        match self.position(key) {
            Some(i) => Some(&self.entries[i].1),
            None => None,
        }
    }

    pub fn contains_key(&self, key: &str) -> (result: bool)
        ensures
            result == has_key(self@, key@),
    {
        self.position(key).is_some()
    }

    /// Sets the value of `key`, keeping the entry's position, or adds the
    /// entry last.
    pub fn insert(&mut self, key: String, value: JsonValue)
        ensures
            final(self)@ == set_entry(old(self)@, key@, value@),
    {
        proof {
            use_type_invariant(&*self);
            lemma_set_entry(self@, key@, value@);
        }
        let position = self.position(key.as_str());
        let ghost before = self@;
        let mut entries: Vec<(String, JsonValue)> = Vec::new();
        std::mem::swap(&mut entries, &mut self.entries);
        assert(entries@.map_values(|e: (String, JsonValue)| (e.0@, e.1@)) == before);
        match position {
            Some(i) => {
                proof {
                    lemma_set_entry_at(before, key@, value@, i as int);
                }
                entries.remove(i);
                entries.insert(i, (key, value));
                proof {
                    assert(entries@.map_values(|e: (String, JsonValue)| (e.0@, e.1@))
                        =~= before.update(i as int, (key@, value@)));
                }
            },
            None => {
                entries.push((key, value));
                proof {
                    assert(entries@.map_values(|e: (String, JsonValue)| (e.0@, e.1@))
                        =~= before.push((key@, value@)));
                }
            },
        }
        self.entries = entries;
    }

    /// Removes the entry named `key`, if any.
    pub fn remove(&mut self, key: &str)
        ensures
            final(self)@ == remove_entry(old(self)@, key@),
    {
        proof {
            use_type_invariant(&*self);
            lemma_remove_entry(self@, key@);
        }
        match self.position(key) {
            Some(i) => {
                let ghost before = self@;
                proof {
                    lemma_remove_entry_at(before, key@, i as int);
                }
                let mut entries: Vec<(String, JsonValue)> = Vec::new();
                std::mem::swap(&mut entries, &mut self.entries);
                assert(entries@.map_values(|e: (String, JsonValue)| (e.0@, e.1@)) == before);
                entries.remove(i);
                proof {
                    assert(entries@.map_values(|e: (String, JsonValue)| (e.0@, e.1@))
                        =~= before.remove(i as int));
                }
                self.entries = entries;
            },
            None => {
                proof {
                    lemma_remove_entry_absent(self@, key@);
                }
            },
        }
    }

    /// A copy with the same entries.
    pub fn duplicate(&self) -> (copy: JsonObject)
        ensures
            copy@ == self@,
    {
        proof {
            use_type_invariant(self);
        }
        let mut entries: Vec<(String, JsonValue)> = Vec::new();
        let mut i: usize = 0;
        while i < self.entries.len()
            invariant
                i <= self.entries@.len(),
                entries@.len() == i,
                forall|j: int|
                    0 <= j < i ==> (#[trigger] entries@[j]).0@ == self.entries@[j].0@
                        && entries@[j].1@ == self.entries@[j].1@,
            decreases self.entries.len() - i,
        {
            let key = copy_str(self.entries[i].0.as_str());
            let value = self.entries[i].1.duplicate();
            entries.push((key, value));
            i = i + 1;
        }
        proof {
            assert(entries@.map_values(|e: (String, JsonValue)| (e.0@, e.1@)) =~= self@);
        }
        JsonObject { entries }
    }
}

proof fn lemma_set_entry_at(entries: Entries, key: Seq<char>, value: JsonData, i: int)
    requires
        0 <= i < entries.len(),
        entries[i].0 == key,
        forall|j: int| 0 <= j < i ==> entries[j].0 != key,
    ensures
        set_entry(entries, key, value) == entries.update(i, (key, value)),
    decreases i,
{
    if i > 0 {
        lemma_set_entry_at(entries.drop_first(), key, value, i - 1);
        assert(set_entry(entries, key, value) =~= entries.update(i, (key, value)));
    }
}

proof fn lemma_remove_entry_at(entries: Entries, key: Seq<char>, i: int)
    requires
        0 <= i < entries.len(),
        entries[i].0 == key,
        forall|j: int| 0 <= j < i ==> entries[j].0 != key,
    ensures
        remove_entry(entries, key) == entries.remove(i),
    decreases i,
{
    if i > 0 {
        lemma_remove_entry_at(entries.drop_first(), key, i - 1);
        assert(remove_entry(entries, key) =~= entries.remove(i));
    } else {
        assert(entries.drop_first() =~= entries.remove(0));
    }
}

proof fn lemma_remove_entry_absent(entries: Entries, key: Seq<char>)
    requires
        forall|j: int| 0 <= j < entries.len() ==> entries[j].0 != key,
    ensures
        remove_entry(entries, key) == entries,
    decreases entries.len(),
{
    if entries.len() > 0 {
        lemma_remove_entry_absent(entries.drop_first(), key);
        assert(remove_entry(entries, key) =~= entries);
    }
}

/// A JSON value as `serde_json` reads it, with every nested value and the
/// entries of each object in the order `serde_json::Map` walks them.
#[derive(Debug)]
pub enum JsonTree {
    Null,
    Bool(bool),
    Number(JsonNumber),
    Text(String),
    Array(Vec<JsonTree>),
    Object(Vec<(String, JsonTree)>),
}

#[verifier::external_type_specification]
#[verifier::external_body]
pub struct ExSerdeJsonValue(serde_json::Value);

#[verifier::external_type_specification]
#[verifier::external_body]
pub struct ExSerdeJsonNumber(serde_json::Number);

/// What `serde_json::from_str` reads from `text` as a `serde_json::Value`,
/// or `None` where it reports an error.
pub uninterp spec fn parsed_json(text: Seq<char>) -> Option<JsonTree>;

/// Parses `text` with `serde_json::from_str` into a `serde_json::Value` and
/// converts it one for one; the contract names the result and claims
/// nothing more of it.
#[verifier::external_body]
pub(crate) fn parse_json_text(text: &str) -> (tree: Option<JsonTree>)
    ensures
        tree == parsed_json(text@),
{
    match serde_json::from_str::<serde_json::Value>(text) {
        Ok(value) => Some(json_tree(&value)),
        Err(_) => None,
    }
}

/// Converts a `serde_json::Value` one for one, for `parse_json_text`.
#[verifier::external_body]
fn json_tree(value: &serde_json::Value) -> JsonTree {
    match value {
        serde_json::Value::Null => JsonTree::Null,
        serde_json::Value::Bool(b) => JsonTree::Bool(*b),
        serde_json::Value::Number(n) => JsonTree::Number(json_number(n)),
        serde_json::Value::String(text) => JsonTree::Text(text.clone()),
        serde_json::Value::Array(items) => JsonTree::Array(items.iter().map(json_tree).collect()),
        serde_json::Value::Object(map) => JsonTree::Object(
            map.iter().map(|(key, item)| (key.clone(), json_tree(item))).collect(),
        ),
    }
}

/// Converts a `serde_json::Number` by the form it holds: `as_u64` answers
/// for a non-negative integer, `as_i64` for a negative one, and `as_f64`
/// for a finite fraction.
#[verifier::external_body]
fn json_number(n: &serde_json::Number) -> JsonNumber {
    match (n.as_u64(), n.as_i64()) {
        (Some(unsigned), _) => JsonNumber::Unsigned(unsigned),
        (None, Some(negative)) => JsonNumber::Negative(negative),
        (None, None) => JsonNumber::Float(Binary64::from_bits(n.as_f64().unwrap_or_default().to_bits())),
    }
}

/// What the settings logic reads of a value: nested arrays are opaque, and
/// of a nested object only the key of a sole `null` entry is kept.
pub open spec fn tree_data(tree: JsonTree) -> JsonData {
    match tree {
        JsonTree::Null => JsonData::Null,
        JsonTree::Bool(b) => JsonData::Bool(b),
        JsonTree::Number(n) => JsonData::Number(n),
        JsonTree::Text(s) => JsonData::Text(s@),
        JsonTree::Array(_) => JsonData::Array,
        JsonTree::Object(entries) => JsonData::Object(
            if entries@.len() == 1 && entries@[0].1 is Null {
                Some(entries@[0].0@)
            } else {
                None
            },
        ),
    }
}

/// The entries of an object, each value as `tree_data` reads it.
pub open spec fn tree_entries(entries: Seq<(String, JsonTree)>) -> Entries {
    entries.map_values(|e: (String, JsonTree)| (e.0@, tree_data(e.1)))
}

/// The object that inserting `entries` in order into an empty object gives.
pub open spec fn inserted_entries(entries: Entries) -> Entries
    decreases entries.len(),
{
    if entries.len() == 0 {
        Seq::empty()
    } else {
        set_entry(inserted_entries(entries.drop_last()), entries.last().0, entries.last().1)
    }
}

/// The object that a top-level value is read as, or `None` when it is not
/// an object.
pub open spec fn tree_object(tree: JsonTree) -> Option<Entries> {
    match tree {
        JsonTree::Object(entries) => Some(inserted_entries(tree_entries(entries@))),
        _ => None,
    }
}

/// The value that the settings logic reads of `tree`.
pub fn tree_value(tree: &JsonTree) -> (value: JsonValue)
    ensures
        value@ == tree_data(*tree),
{
    match tree {
        JsonTree::Null => JsonValue::Null,
        JsonTree::Bool(b) => JsonValue::Bool(*b),
        JsonTree::Number(n) => JsonValue::Number(*n),
        JsonTree::Text(s) => JsonValue::Text(copy_str(s.as_str())),
        JsonTree::Array(_) => JsonValue::Array,
        JsonTree::Object(entries) => {
            if entries.len() == 1 {
                match &entries[0].1 {
                    JsonTree::Null => JsonValue::Object(Some(copy_str(entries[0].0.as_str()))),
                    _ => JsonValue::Object(None),
                }
            } else {
                JsonValue::Object(None)
            }
        },
    }
}

/// The object that a top-level value is read as, or `None` when it is not
/// an object.
pub fn tree_to_object(tree: &JsonTree) -> (object: Option<JsonObject>)
    ensures
        match object {
            Some(o) => tree_object(*tree) == Some(o@),
            None => tree_object(*tree) is None,
        },
{
    match tree {
        JsonTree::Object(entries) => {
            let ghost all = tree_entries(entries@);
            let mut object = JsonObject::new();
            let mut i: usize = 0;
            while i < entries.len()
                invariant
                    i <= entries@.len(),
                    all == tree_entries(entries@),
                    object@ == inserted_entries(all.subrange(0, i as int)),
                decreases entries.len() - i,
            {
                let key = copy_str(entries[i].0.as_str());
                let value = tree_value(&entries[i].1);
                proof {
                    let next = all.subrange(0, i + 1);
                    assert(next.drop_last() =~= all.subrange(0, i as int));
                    assert(next.last() == all[i as int]);
                }
                object.insert(key, value);
                i = i + 1;
            }
            proof {
                assert(all.subrange(0, entries@.len() as int) =~= all);
            }
            Some(object)
        },
        _ => None,
    }
}

} // verus!
