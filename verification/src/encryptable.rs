//! Encryptable values: values of a document that the replicator encrypts
//! before it pushes them.

use crate::value::{Dict, DictView, Entry, Value, ValueView};
use vstd::prelude::*;

verus! {

/// A value that is to be encrypted when it is replicated. In a document it
/// stands as a dictionary with the marker `"@type": "encryptable"` and the
/// value under `"value"`.
#[derive(Debug)]
pub struct Encryptable {
    pub value: Value,
}

/// The dictionary that stands for an encryptable value in a document.
pub open spec fn spec_properties(value: ValueView) -> DictView {
    seq![("@type"@, ValueView::String("encryptable"@)), ("value"@, value)]
}

impl Encryptable {
    /// An encryptable null.
    pub fn create_with_null() -> (res: Self)
        ensures
            res.value@ == ValueView::Null,
    {
        Encryptable { value: Value::Null }
    }

    /// An encryptable boolean.
    pub fn create_with_bool(value: bool) -> (res: Self)
        ensures
            res.value@ == ValueView::Bool(value),
    {
        Encryptable { value: Value::Bool(value) }
    }

    /// An encryptable signed integer.
    pub fn create_with_int(value: i64) -> (res: Self)
        ensures
            res.value@ == ValueView::Int(value),
    {
        Encryptable { value: Value::Int(value) }
    }

    /// An encryptable unsigned integer.
    pub fn create_with_uint(value: u64) -> (res: Self)
        ensures
            res.value@ == ValueView::UInt(value),
    {
        Encryptable { value: Value::UInt(value) }
    }

    /// An encryptable floating-point number, given as the 64 bits of its
    /// binary form.
    pub fn create_with_double_bits(bits: u64) -> (res: Self)
        ensures
            res.value@ == ValueView::Double(bits),
    {
        Encryptable { value: Value::Double(bits) }
    }

    /// An encryptable string.
    pub fn create_with_string(value: &str) -> (res: Self)
        ensures
            res.value@ == ValueView::String(value@),
    {
        Encryptable { value: Value::String(value.to_owned()) }
    }

    /// An encryptable value of any kind.
    pub fn create_with_value(value: Value) -> (res: Self)
        ensures
            res.value == value,
    {
        Encryptable { value }
    }

    /// An encryptable array.
    pub fn create_with_array(value: Vec<Value>) -> (res: Self)
        ensures
            res.value == Value::Array(value),
    {
        Encryptable { value: Value::Array(value) }
    }

    /// An encryptable dictionary.
    pub fn create_with_dict(value: Dict) -> (res: Self)
        ensures
            res.value == Value::Dict(value),
    {
        Encryptable { value: Value::Dict(value) }
    }

    /// The value to be encrypted.
    pub fn get_value(&self) -> (res: &Value)
        ensures
            *res == self.value,
    {
        &self.value
    }

    /// The dictionary that stands for this encryptable value in a document.
    pub fn get_properties(&self) -> (res: Dict)
        ensures
            res@ == spec_properties(self.value@),
    {
        let mut entries: Vec<Entry> = Vec::new();
        entries.push(
            Entry { key: "@type".to_owned(), value: Value::String("encryptable".to_owned()) },
        );
        entries.push(Entry { key: "value".to_owned(), value: self.value.deep_clone() });
        let res = Dict { entries };
        assert(res@ =~= spec_properties(self.value@));
        res
    }
}

} // verus!
