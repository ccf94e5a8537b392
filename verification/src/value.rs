//! Property values: a tree of null, booleans, numbers, strings, arrays and
//! dictionaries.

use crate::seqs::{lemma_position, lemma_position_is, position};
use crate::text::str_equal;
use vstd::prelude::*;

verus! {

/// A property value.
#[derive(Debug)]
pub enum Value {
    Null,
    Bool(bool),
    Int(i64),
    UInt(u64),
    /// A floating-point number, held as the 64 bits of its binary form.
    Double(u64),
    String(String),
    Array(Vec<Value>),
    Dict(Dict),
}

/// One key of a dictionary with its value.
#[derive(Debug)]
pub struct Entry {
    pub key: String,
    pub value: Value,
}

/// A dictionary: keys with their values, in the order in which the keys were
/// first set. A key is looked up at its first entry.
#[derive(Debug)]
pub struct Dict {
    pub entries: Vec<Entry>,
}

/// The mathematical value of a [`Value`].
pub enum ValueView {
    Null,
    Bool(bool),
    Int(i64),
    UInt(u64),
    Double(u64),
    String(Seq<char>),
    Array(Seq<ValueView>),
    Dict(Seq<(Seq<char>, ValueView)>),
}

/// The mathematical value of a [`Dict`]: its keys and values in order.
pub type DictView = Seq<(Seq<char>, ValueView)>;

/// The mathematical value of a [`Value`].
pub open spec fn value_view(v: Value) -> ValueView
    decreases v,
{
    match v {
        Value::Null => ValueView::Null,
        Value::Bool(b) => ValueView::Bool(b),
        Value::Int(n) => ValueView::Int(n),
        Value::UInt(n) => ValueView::UInt(n),
        Value::Double(bits) => ValueView::Double(bits),
        Value::String(s) => ValueView::String(s@),
        Value::Array(items) => ValueView::Array(
            Seq::new(
                items.len() as nat,
                |i: int|
                    if 0 <= i < items.len() {
                        value_view(items[i])
                    } else {
                        ValueView::Null
                    },
            ),
        ),
        Value::Dict(d) => ValueView::Dict(
            Seq::new(
                d.entries.len() as nat,
                |i: int|
                    if 0 <= i < d.entries.len() {
                        (d.entries[i].key@, value_view(d.entries[i].value))
                    } else {
                        (Seq::empty(), ValueView::Null)
                    },
            ),
        ),
    }
}

impl View for Value {
    type V = ValueView;

    open spec fn view(&self) -> ValueView {
        value_view(*self)
    }
}

impl View for Dict {
    type V = DictView;

    open spec fn view(&self) -> DictView {
        Seq::new(
            self.entries.len() as nat,
            |i: int|
                if 0 <= i < self.entries.len() {
                    (self.entries[i].key@, self.entries[i].value@)
                } else {
                    (Seq::empty(), ValueView::Null)
                },
        )
    }
}

/// The keys of a dictionary, in order.
pub open spec fn dict_keys(d: DictView) -> Seq<Seq<char>> {
    d.map_values(|e: (Seq<char>, ValueView)| e.0)
}

/// The value that a dictionary holds under a key.
pub open spec fn dict_get(d: DictView, key: Seq<char>) -> Option<ValueView> {
    let p = position(dict_keys(d), key);
    if p < d.len() {
        Some(d[p].1)
    } else {
        None
    }
}

/// The dictionary after a key was set: the value replaces the one that the
/// key had, or the key is added at the end.
pub open spec fn dict_set(d: DictView, key: Seq<char>, value: ValueView) -> DictView {
    let p = position(dict_keys(d), key);
    if p < d.len() {
        d.update(p, (key, value))
    } else {
        d.push((key, value))
    }
}

/// The dictionary after a key was removed.
pub open spec fn dict_remove(d: DictView, key: Seq<char>) -> DictView {
    let p = position(dict_keys(d), key);
    if p < d.len() {
        d.remove(p)
    } else {
        d
    }
}

impl Value {
    /// True for the null value.
    pub fn is_null(&self) -> (res: bool)
        ensures
            res == (self@ is Null),
    {
        match self {
            Value::Null => true,
            _ => false,
        }
    }

    /// The boolean that this value holds; `false` where it holds none.
    pub fn as_bool_or_false(&self) -> (res: bool)
        ensures
            res == match self@ {
                ValueView::Bool(b) => b,
                _ => false,
            },
    {
        match self {
            Value::Bool(b) => *b,
            _ => false,
        }
    }

    /// The integer that this value holds; 0 where it holds none.
    pub fn as_i64_or_0(&self) -> (res: i64)
        ensures
            res == match self@ {
                ValueView::Int(n) => n,
                _ => 0,
            },
    {
        match self {
            Value::Int(n) => *n,
            _ => 0,
        }
    }

    /// The bits of the floating-point number that this value holds, if it
    /// holds one.
    pub fn as_double_bits(&self) -> (res: Option<u64>)
        ensures
            res == match self@ {
                ValueView::Double(bits) => Some(bits),
                _ => None,
            },
    {
        match self {
            Value::Double(bits) => Some(*bits),
            _ => None,
        }
    }

    /// The string that this value holds, if it holds one.
    pub fn as_string(&self) -> (res: Option<&str>)
        ensures
            match self@ {
                ValueView::String(s) => res is Some && res->Some_0@ == s,
                _ => res is None,
            },
    {
        match self {
            Value::String(s) => Some(s.as_str()),
            _ => None,
        }
    }

    /// True when the two values are the same tree.
    #[verifier::loop_isolation(false)]
    pub fn equals(&self, other: &Value) -> (res: bool)
        ensures
            res == (self@ == other@),
        decreases self,
    {
        match (self, other) {
            (Value::Null, Value::Null) => true,
            (Value::Bool(a), Value::Bool(b)) => *a == *b,
            (Value::Int(a), Value::Int(b)) => *a == *b,
            (Value::UInt(a), Value::UInt(b)) => *a == *b,
            (Value::Double(a), Value::Double(b)) => *a == *b,
            (Value::String(a), Value::String(b)) => str_equal(a.as_str(), b.as_str()),
            (Value::Array(a), Value::Array(b)) => {
                if a.len() != b.len() {
                    assert(self@->Array_0.len() != other@->Array_0.len());
                    return false;
                }
                let mut i: usize = 0;
                while i < a.len()
                    invariant
                        i <= a.len(),
                        a.len() == b.len(),
                        forall|j: int| 0 <= j < i ==> a[j]@ == b[j]@,
                    decreases a.len() - i,
                {
                    if !a[i].equals(&b[i]) {
                        assert(self@->Array_0[i as int] != other@->Array_0[i as int]);
                        return false;
                    }
                    i += 1;
                }
                assert(self@->Array_0 =~= other@->Array_0);
                true
            },
            (Value::Dict(a), Value::Dict(b)) => {
                if a.entries.len() != b.entries.len() {
                    assert(self@->Dict_0.len() != other@->Dict_0.len());
                    return false;
                }
                let mut i: usize = 0;
                while i < a.entries.len()
                    invariant
                        i <= a.entries.len(),
                        a.entries.len() == b.entries.len(),
                        forall|j: int| 0 <= j < i ==> (#[trigger] a.entries[j]).key@ == b.entries[j].key@,
                        forall|j: int| 0 <= j < i ==> (#[trigger] a.entries[j]).value@ == b.entries[j].value@,
                    decreases a.entries.len() - i,
                {
                    if !str_equal(a.entries[i].key.as_str(), b.entries[i].key.as_str())
                        || !a.entries[i].value.equals(&b.entries[i].value) {
                        assert(self@->Dict_0[i as int] != other@->Dict_0[i as int]);
                        return false;
                    }
                    i += 1;
                }
                assert(self@->Dict_0 =~= other@->Dict_0);
                true
            },
            _ => false,
        }
    }

    /// A copy of this value with everything below it.
    #[verifier::loop_isolation(false)]
    pub fn deep_clone(&self) -> (res: Value)
        ensures
            res@ == self@,
        decreases self,
    {
        match self {
            Value::Null => Value::Null,
            Value::Bool(b) => Value::Bool(*b),
            Value::Int(n) => Value::Int(*n),
            Value::UInt(n) => Value::UInt(*n),
            Value::Double(bits) => Value::Double(*bits),
            Value::String(s) => Value::String(s.clone()),
            Value::Array(items) => {
                let mut copy: Vec<Value> = Vec::new();
                let mut i: usize = 0;
                while i < items.len()
                    invariant
                        i <= items.len(),
                        copy.len() == i,
                        forall|j: int| 0 <= j < i ==> copy[j]@ == items[j]@,
                    decreases items.len() - i,
                {
                    copy.push(items[i].deep_clone());
                    i += 1;
                }
                let res = Value::Array(copy);
                assert(res@->Array_0 =~= self@->Array_0);
                res
            },
            Value::Dict(d) => {
                let mut copy: Vec<Entry> = Vec::new();
                let mut i: usize = 0;
                while i < d.entries.len()
                    invariant
                        i <= d.entries.len(),
                        copy.len() == i,
                        forall|j: int| 0 <= j < i ==> (#[trigger] copy[j]).key@ == d.entries[j].key@,
                        forall|j: int| 0 <= j < i ==> (#[trigger] copy[j]).value@ == d.entries[j].value@,
                    decreases d.entries.len() - i,
                {
                    copy.push(
                        Entry { key: d.entries[i].key.clone(), value: d.entries[i].value.deep_clone() },
                    );
                    i += 1;
                }
                let res = Value::Dict(Dict { entries: copy });
                assert(res@->Dict_0 =~= self@->Dict_0);
                res
            },
        }
    }
}

impl Dict {
    /// A dictionary without keys.
    pub fn new() -> (res: Dict)
        ensures
            res@ == Seq::<(Seq<char>, ValueView)>::empty(),
    {
        let res = Dict { entries: Vec::new() };
        assert(res@ =~= Seq::<(Seq<char>, ValueView)>::empty());
        res
    }

    /// The number of keys.
    pub fn count(&self) -> (res: usize)
        ensures
            res == self@.len(),
    {
        self.entries.len()
    }

    /// True when the dictionary has no key.
    pub fn empty(&self) -> (res: bool)
        ensures
            res == (self@.len() == 0),
    {
        self.entries.len() == 0
    }

    /// The index of the first entry under `key`, or the number of entries.
    fn find(&self, key: &str) -> (res: usize)
        ensures
            res == position(dict_keys(self@), key@),
            res <= self.entries.len(),
    {
        let mut i: usize = 0;
        while i < self.entries.len()
            invariant
                i <= self.entries.len(),
                forall|j: int| 0 <= j < i ==> self.entries[j].key@ != key@,
            decreases self.entries.len() - i,
        {
            if str_equal(self.entries[i].key.as_str(), key) {
                proof {
                    lemma_position_is(dict_keys(self@), key@, i as int);
                }
                return i;
            }
            i += 1;
        }
        proof {
            lemma_position_is(dict_keys(self@), key@, i as int);
        }
        i
    }

    /// True when the dictionary has the key.
    pub fn contains_key(&self, key: &str) -> (res: bool)
        ensures
            res == (dict_get(self@, key@) is Some),
    {
        self.find(key) < self.entries.len()
    }

    /// The value under `key`, if the dictionary has the key.
    pub fn get(&self, key: &str) -> (res: Option<&Value>)
        ensures
            match res {
                Some(v) => dict_get(self@, key@) == Some(v@),
                None => dict_get(self@, key@) is None,
            },
    {
        let i = self.find(key);
        if i < self.entries.len() {
            Some(&self.entries[i].value)
        } else {
            None
        }
    }

    /// Sets the value under `key`. A key that the dictionary has keeps its
    /// place; a new key goes to the end.
    pub fn set(&mut self, key: String, value: Value)
        ensures
            final(self)@ == dict_set(old(self)@, key@, value@),
    {
        let i = self.find(key.as_str());
        let ghost k = key@;
        let ghost v = value@;
        if i < self.entries.len() {
            self.entries[i] = Entry { key, value };
            assert(self@ =~= dict_set(old(self)@, k, v));
        } else {
            self.entries.push(Entry { key, value });
            assert(self@ =~= dict_set(old(self)@, k, v));
        }
    }

    /// Removes `key` with its value. Returns whether the dictionary had it.
    pub fn remove(&mut self, key: &str) -> (res: bool)
        ensures
            final(self)@ == dict_remove(old(self)@, key@),
            res == (dict_get(old(self)@, key@) is Some),
    {
        let i = self.find(key);
        if i < self.entries.len() {
            self.entries.remove(i);
            assert(self@ =~= dict_remove(old(self)@, key@));
            true
        } else {
            false
        }
    }

    /// The keys, in order.
    pub fn keys(&self) -> (res: Vec<String>)
        ensures
            res.len() == self@.len(),
            forall|i: int| 0 <= i < res.len() ==> res[i]@ == self@[i].0,
    {
        let mut out: Vec<String> = Vec::new();
        let mut i: usize = 0;
        while i < self.entries.len()
            invariant
                i <= self.entries.len(),
                out.len() == i,
                forall|j: int| 0 <= j < i ==> out[j]@ == self.entries[j].key@,
            decreases self.entries.len() - i,
        {
            out.push(self.entries[i].key.clone());
            i += 1;
        }
        out
    }

    /// True when the two dictionaries hold the same keys with the same
    /// values in the same order.
    pub fn equals(&self, other: &Dict) -> (res: bool)
        ensures
            res == (self@ == other@),
    {
        if self.entries.len() != other.entries.len() {
            assert(self@.len() != other@.len());
            return false;
        }
        let mut i: usize = 0;
        while i < self.entries.len()
            invariant
                i <= self.entries.len(),
                self.entries.len() == other.entries.len(),
                forall|j: int| 0 <= j < i ==> self@[j] == other@[j],
            decreases self.entries.len() - i,
        {
            if !str_equal(self.entries[i].key.as_str(), other.entries[i].key.as_str())
                || !self.entries[i].value.equals(&other.entries[i].value) {
                assert(self@[i as int] != other@[i as int]);
                return false;
            }
            assert(self@[i as int] == other@[i as int]);
            i += 1;
        }
        assert(self@ =~= other@);
        true
    }

    /// A copy of this dictionary with everything below it.
    pub fn deep_clone(&self) -> (res: Dict)
        ensures
            res@ == self@,
    {
        let mut copy: Vec<Entry> = Vec::new();
        let mut i: usize = 0;
        while i < self.entries.len()
            invariant
                i <= self.entries.len(),
                copy.len() == i,
                forall|j: int| 0 <= j < i ==> (#[trigger] copy[j]).key@ == self.entries[j].key@,
                forall|j: int| 0 <= j < i ==> (#[trigger] copy[j]).value@ == self.entries[j].value@,
            decreases self.entries.len() - i,
        {
            copy.push(
                Entry { key: self.entries[i].key.clone(), value: self.entries[i].value.deep_clone() },
            );
            i += 1;
        }
        let res = Dict { entries: copy };
        assert(res@ =~= self@);
        res
    }
}

/// A key that was set is found with the value that it was set to.
pub proof fn lemma_get_after_set(d: DictView, key: Seq<char>, value: ValueView)
    ensures
        dict_get(dict_set(d, key, value), key) == Some(value),
{
    let keys = dict_keys(d);
    let p = position(keys, key);
    lemma_position(keys, key);
    let after = dict_set(d, key, value);
    assert forall|j: int| 0 <= j < p implies dict_keys(after)[j] != key by {
        assert(dict_keys(after)[j] == keys[j]);
    }
    lemma_position_is(dict_keys(after), key, p);
}

/// Setting one key leaves what is found under every other key.
pub proof fn lemma_get_other_after_set(
    d: DictView,
    key: Seq<char>,
    value: ValueView,
    other: Seq<char>,
)
    requires
        other != key,
    ensures
        dict_get(dict_set(d, key, value), other) == dict_get(d, other),
{
    let keys = dict_keys(d);
    let p = position(keys, key);
    let q = position(keys, other);
    lemma_position(keys, key);
    lemma_position(keys, other);
    let after = dict_set(d, key, value);
    let keys_after = dict_keys(after);
    assert forall|j: int| 0 <= j < q implies keys_after[j] != other by {
        if j < keys.len() {
            if j != p {
                assert(keys_after[j] == keys[j]);
            }
        }
    }
    if q < d.len() {
        assert(keys_after[q] == keys[q]);
        lemma_position_is(keys_after, other, q);
    } else {
        assert(keys_after.len() >= q);
        if p < d.len() {
            lemma_position_is(keys_after, other, q);
        } else {
            assert(keys_after[q] == key);
            lemma_position_is(keys_after, other, q + 1);
        }
    }
}

} // verus!
