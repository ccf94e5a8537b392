//! The tagged encoding of values: each value is written as a tag byte that
//! tells its kind, followed by what the kind needs. Numbers are written as
//! 8 bytes, least significant first; strings as the number of their bytes
//! in UTF-8 and the bytes; arrays and dictionaries as the number of their
//! elements and the elements.

use crate::error::{Error, ErrorCode, FleeceError, Result};
use crate::text::string_from_utf8;
use crate::value::{Dict, Entry, Value, ValueView};
use vstd::bytes::{
    lemma_auto_spec_u64_to_from_le_bytes, spec_u64_from_le_bytes, spec_u64_to_le_bytes,
    u64_from_le_bytes, u64_to_le_bytes,
};
use vstd::prelude::*;
use vstd::utf8::{encode_utf8, encode_utf8_decode_utf8, encode_utf8_valid_utf8};

verus! {

/// The tag of null.
pub const TAG_NULL: u8 = 0;

/// The tag of the boolean false.
pub const TAG_FALSE: u8 = 1;

/// The tag of the boolean true.
pub const TAG_TRUE: u8 = 2;

/// The tag of a signed integer.
pub const TAG_INT: u8 = 3;

/// The tag of a string.
pub const TAG_STRING: u8 = 4;

/// The tag of an array.
pub const TAG_ARRAY: u8 = 5;

/// The tag of a dictionary.
pub const TAG_DICT: u8 = 6;

/// The tag of an unsigned integer.
pub const TAG_UINT: u8 = 7;

/// The tag of a floating-point number.
pub const TAG_DOUBLE: u8 = 8;

/// A count as it is written: 8 bytes, least significant first.
pub open spec fn encode_count(n: nat) -> Seq<u8> {
    spec_u64_to_le_bytes(n as u64)
}

/// A signed integer as the unsigned one that is written for it: the
/// integer moved up by 2 to the power of 63, so that the least becomes 0.
pub open spec fn spec_shifted(n: i64) -> u64 {
    (n + 0x8000_0000_0000_0000) as u64
}

/// A string as it is written: the number of its bytes in UTF-8, and the
/// bytes.
pub open spec fn encode_text(s: Seq<char>) -> Seq<u8> {
    encode_count(encode_utf8(s).len()) + encode_utf8(s)
}

/// True for a value that can be written: no string, array or dictionary
/// in it is longer than a count can say.
pub open spec fn encodable(v: ValueView) -> bool
    decreases v,
{
    match v {
        ValueView::String(s) => encode_utf8(s).len() <= u64::MAX,
        ValueView::Array(items) => items.len() <= u64::MAX && forall|i: int|
            0 <= i < items.len() ==> encodable(#[trigger] items[i]),
        ValueView::Dict(entries) => entries.len() <= u64::MAX && forall|i: int|
            0 <= i < entries.len() ==> encode_utf8((#[trigger] entries[i]).0).len() <= u64::MAX
                && encodable(entries[i].1),
        _ => true,
    }
}

/// The encoding of a value.
pub open spec fn encode(v: ValueView) -> Seq<u8>
    decreases v, 0nat,
{
    match v {
        ValueView::Null => seq![TAG_NULL],
        ValueView::Bool(b) => seq![
            if b {
                TAG_TRUE
            } else {
                TAG_FALSE
            },
        ],
        ValueView::Int(n) => seq![TAG_INT] + spec_u64_to_le_bytes(spec_shifted(n)),
        ValueView::UInt(n) => seq![TAG_UINT] + spec_u64_to_le_bytes(n),
        ValueView::Double(bits) => seq![TAG_DOUBLE] + spec_u64_to_le_bytes(bits),
        ValueView::String(s) => seq![TAG_STRING] + encode_text(s),
        ValueView::Array(items) => seq![TAG_ARRAY] + encode_count(items.len()) + encode_items(
            items,
            items.len(),
        ),
        ValueView::Dict(entries) => seq![TAG_DICT] + encode_count(entries.len()) + encode_entries(
            entries,
            entries.len(),
        ),
    }
}

/// The encodings of the first `n` of `items`, one after the other.
pub open spec fn encode_items(items: Seq<ValueView>, n: nat) -> Seq<u8>
    decreases items, n,
{
    if n == 0 || n > items.len() {
        Seq::empty()
    } else {
        encode_items(items, (n - 1) as nat) + encode(items[n - 1])
    }
}

/// The encodings of the first `n` of `entries`, one after the other: of
/// each its key as a string is written, and its value.
pub open spec fn encode_entries(entries: Seq<(Seq<char>, ValueView)>, n: nat) -> Seq<u8>
    decreases entries, n,
{
    if n == 0 || n > entries.len() {
        Seq::empty()
    } else {
        encode_entries(entries, (n - 1) as nat) + encode_text(entries[n - 1].0) + encode(
            entries[n - 1].1,
        )
    }
}

/// Appends `bytes` to `out`.
pub fn append_bytes(out: &mut Vec<u8>, bytes: &[u8])
    ensures
        final(out)@ == old(out)@ + bytes@,
{
    let mut i: usize = 0;
    while i < bytes.len()
        invariant
            i <= bytes.len(),
            out@ == old(out)@ + bytes@.take(i as int),
        decreases bytes.len() - i,
    {
        out.push(bytes[i]);
        assert(out@ =~= old(out)@ + bytes@.take(i + 1));
        i += 1;
    }
    assert(bytes@.take(i as int) =~= bytes@);
}

/// Appends a count to `out`.
pub fn append_count(out: &mut Vec<u8>, n: usize)
    ensures
        final(out)@ == old(out)@ + encode_count(n as nat),
{
    let bytes = u64_to_le_bytes(n as u64);
    append_bytes(out, bytes.as_slice());
}

/// Appends a string to `out`, as it is written.
pub fn append_text(out: &mut Vec<u8>, s: &str)
    ensures
        final(out)@ == old(out)@ + encode_text(s@),
        encode_utf8(s@).len() <= u64::MAX,
{
    let bytes = s.as_bytes();
    append_count(out, bytes.len());
    append_bytes(out, bytes);
    assert(out@ =~= old(out)@ + encode_text(s@));
}

/// The unsigned integer that is written for a signed one.
pub fn shifted(n: i64) -> (res: u64)
    ensures
        res == spec_shifted(n),
{
    if n >= 0 {
        (n as u64) + 0x8000_0000_0000_0000
    } else {
        (n + i64::MAX + 1) as u64
    }
}

/// The signed integer that an unsigned one was written for.
pub fn unshifted(u: u64) -> (res: i64)
    ensures
        spec_shifted(res) == u,
{
    if u >= 0x8000_0000_0000_0000 {
        (u - 0x8000_0000_0000_0000) as i64
    } else {
        (u as i64) - i64::MAX - 1
    }
}

impl Value {
    /// Appends the encoding of this value to `out`.
    #[verifier::loop_isolation(false)]
    pub fn encode_into(&self, out: &mut Vec<u8>)
        ensures
            final(out)@ == old(out)@ + encode(self@),
            encodable(self@),
        decreases self,
    {
        match self {
            Value::Null => {
                out.push(TAG_NULL);
                assert(out@ =~= old(out)@ + encode(self@));
            },
            Value::Bool(b) => {
                out.push(
                    if *b {
                        TAG_TRUE
                    } else {
                        TAG_FALSE
                    },
                );
                assert(out@ =~= old(out)@ + encode(self@));
            },
            Value::Int(n) => {
                out.push(TAG_INT);
                let bytes = u64_to_le_bytes(shifted(*n));
                append_bytes(out, bytes.as_slice());
                assert(out@ =~= old(out)@ + encode(self@));
            },
            Value::UInt(n) => {
                out.push(TAG_UINT);
                let bytes = u64_to_le_bytes(*n);
                append_bytes(out, bytes.as_slice());
                assert(out@ =~= old(out)@ + encode(self@));
            },
            Value::Double(bits) => {
                out.push(TAG_DOUBLE);
                let bytes = u64_to_le_bytes(*bits);
                append_bytes(out, bytes.as_slice());
                assert(out@ =~= old(out)@ + encode(self@));
            },
            Value::String(s) => {
                out.push(TAG_STRING);
                append_text(out, s.as_str());
                assert(out@ =~= old(out)@ + encode(self@));
            },
            Value::Array(items) => {
                out.push(TAG_ARRAY);
                append_count(out, items.len());
                let ghost views = self@->Array_0;
                let ghost head = out@;
                let mut i: usize = 0;
                while i < items.len()
                    invariant
                        i <= items.len(),
                        views.len() == items.len(),
                        out@ == head + encode_items(views, i as nat),
                        forall|j: int| 0 <= j < i ==> encodable(#[trigger] views[j]),
                    decreases items.len() - i,
                {
                    let ghost before = out@;
                    items[i].encode_into(out);
                    assert(views[i as int] == items[i as int]@);
                    assert(out@ =~= head + encode_items(views, (i + 1) as nat));
                    i += 1;
                }
                assert(out@ =~= old(out)@ + encode(self@));
            },
            Value::Dict(d) => {
                out.push(TAG_DICT);
                append_count(out, d.entries.len());
                let ghost views = self@->Dict_0;
                let ghost head = out@;
                let mut i: usize = 0;
                while i < d.entries.len()
                    invariant
                        i <= d.entries.len(),
                        views.len() == d.entries.len(),
                        out@ == head + encode_entries(views, i as nat),
                        forall|j: int|
                            0 <= j < i ==> encode_utf8((#[trigger] views[j]).0).len() <= u64::MAX
                                && encodable(views[j].1),
                    decreases d.entries.len() - i,
                {
                    assert(views[i as int] == (d.entries[i as int].key@, d.entries[i as int].value@));
                    append_text(out, d.entries[i].key.as_str());
                    d.entries[i].value.encode_into(out);
                    assert(out@ =~= head + encode_entries(views, (i + 1) as nat));
                    i += 1;
                }
                assert(out@ =~= old(out)@ + encode(self@));
            },
        }
    }

    /// The encoding of this value.
    pub fn encode(&self) -> (res: Vec<u8>)
        ensures
            res@ == encode(self@),
            encodable(self@),
    {
        let mut out: Vec<u8> = Vec::new();
        self.encode_into(&mut out);
        assert(out@ =~= encode(self@));
        out
    }
}

impl Dict {
    /// The encoding of this dictionary as a value.
    pub fn encode(&self) -> (res: Vec<u8>)
        ensures
            res@ == encode(ValueView::Dict(self@)),
            encodable(ValueView::Dict(self@)),
    {
        let mut out: Vec<u8> = Vec::new();
        out.push(TAG_DICT);
        append_count(&mut out, self.entries.len());
        let ghost views = self@;
        let ghost head = out@;
        let mut i: usize = 0;
        while i < self.entries.len()
            invariant
                i <= self.entries.len(),
                views == self@,
                views.len() == self.entries.len(),
                out@ == head + encode_entries(views, i as nat),
                forall|j: int|
                    0 <= j < i ==> encode_utf8((#[trigger] views[j]).0).len() <= u64::MAX
                        && encodable(views[j].1),
            decreases self.entries.len() - i,
        {
            assert(views[i as int] == (self.entries[i as int].key@, self.entries[i as int].value@));
            append_text(&mut out, self.entries[i].key.as_str());
            self.entries[i].value.encode_into(&mut out);
            assert(out@ =~= head + encode_entries(views, (i + 1) as nat));
            i += 1;
        }
        assert(out@ =~= encode(ValueView::Dict(self@)));
        out
    }
}

/// A count is written as 8 bytes, and two counts that are written alike
/// are the same.
pub proof fn lemma_count(a: nat, b: nat)
    requires
        a <= u64::MAX,
        b <= u64::MAX,
    ensures
        encode_count(a).len() == 8,
        encode_count(a) == encode_count(b) ==> a == b,
{
    lemma_auto_spec_u64_to_from_le_bytes();
    assert(spec_u64_from_le_bytes(spec_u64_to_le_bytes(a as u64)) == a as u64);
    assert(spec_u64_from_le_bytes(spec_u64_to_le_bytes(b as u64)) == b as u64);
}

/// What the bytes look like that begin with the encoding of a value: the
/// tag of its kind, and behind it what the kind needs.
pub open spec fn begins_with(w: ValueView, rest: Seq<u8>) -> bool {
    &&& rest.len() >= 1
    &&& match w {
        ValueView::Null => rest[0] == TAG_NULL,
        ValueView::Bool(b) => rest[0] == if b {
            TAG_TRUE
        } else {
            TAG_FALSE
        },
        ValueView::Int(n) => rest[0] == TAG_INT && rest.len() >= 9 && rest.subrange(1, 9)
            == spec_u64_to_le_bytes(spec_shifted(n)),
        ValueView::UInt(n) => rest[0] == TAG_UINT && rest.len() >= 9 && rest.subrange(1, 9)
            == spec_u64_to_le_bytes(n),
        ValueView::Double(bits) => rest[0] == TAG_DOUBLE && rest.len() >= 9 && rest.subrange(
            1,
            9,
        ) == spec_u64_to_le_bytes(bits),
        ValueView::String(s) => rest[0] == TAG_STRING && text_begins(s, rest.skip(1)),
        ValueView::Array(items) => rest[0] == TAG_ARRAY && rest.len() >= 9 && rest.subrange(1, 9)
            == encode_count(items.len()) && encode_items(items, items.len()).is_prefix_of(
            rest.skip(9),
        ),
        ValueView::Dict(entries) => rest[0] == TAG_DICT && rest.len() >= 9 && rest.subrange(1, 9)
            == encode_count(entries.len()) && encode_entries(entries, entries.len()).is_prefix_of(
            rest.skip(9),
        ),
    }
}

/// What the bytes look like that begin with a string as it is written.
pub open spec fn text_begins(s: Seq<char>, rest: Seq<u8>) -> bool {
    &&& rest.len() >= 8 + encode_utf8(s).len()
    &&& rest.subrange(0, 8) == encode_count(encode_utf8(s).len())
    &&& rest.subrange(8, 8 + encode_utf8(s).len() as int) == encode_utf8(s)
}

/// Bytes that begin with a string as it is written look like it.
pub proof fn lemma_text_begins(s: Seq<char>, rest: Seq<u8>)
    requires
        encode_utf8(s).len() <= u64::MAX,
    ensures
        encode_text(s).len() == 8 + encode_utf8(s).len(),
        encode_text(s).is_prefix_of(rest) <==> text_begins(s, rest),
{
    lemma_count(encode_utf8(s).len(), 0);
    let e = encode_text(s);
    let n = encode_utf8(s).len() as int;
    if e.is_prefix_of(rest) {
        assert(rest.subrange(0, 8) =~= e.subrange(0, 8));
        assert(e.subrange(0, 8) =~= encode_count(n as nat));
        assert(rest.subrange(8, 8 + n) =~= e.subrange(8, 8 + n));
        assert(e.subrange(8, 8 + n) =~= encode_utf8(s));
    }
    if text_begins(s, rest) {
        assert(rest.subrange(0, e.len() as int) =~= rest.subrange(0, 8) + rest.subrange(
            8,
            8 + n,
        ));
    }
}

/// Bytes that begin with the encoding of a value look like it, and the
/// encoding has at least one byte.
pub proof fn lemma_begins_with(w: ValueView, rest: Seq<u8>)
    requires
        encodable(w),
    ensures
        encode(w).len() >= 1,
        encode(w).is_prefix_of(rest) <==> begins_with(w, rest),
{
    let e = encode(w);
    lemma_auto_spec_u64_to_from_le_bytes();
    match w {
        ValueView::Null => {
            if e.is_prefix_of(rest) {
                assert(rest[0] == rest.subrange(0, 1)[0]);
            }
            if begins_with(w, rest) {
                assert(rest.subrange(0, 1) =~= e);
            }
        },
        ValueView::Bool(b) => {
            if e.is_prefix_of(rest) {
                assert(rest[0] == rest.subrange(0, 1)[0]);
            }
            if begins_with(w, rest) {
                assert(rest.subrange(0, 1) =~= e);
            }
        },
        ValueView::Int(n) => {
            if e.is_prefix_of(rest) {
                assert(rest[0] == rest.subrange(0, 9)[0]);
                assert(rest.subrange(1, 9) =~= e.subrange(1, 9));
                assert(e.subrange(1, 9) =~= spec_u64_to_le_bytes(spec_shifted(n)));
            }
            if begins_with(w, rest) {
                assert(rest.subrange(0, 9) =~= seq![rest[0]] + rest.subrange(1, 9));
            }
        },
        ValueView::UInt(n) => {
            if e.is_prefix_of(rest) {
                assert(rest[0] == rest.subrange(0, 9)[0]);
                assert(rest.subrange(1, 9) =~= e.subrange(1, 9));
                assert(e.subrange(1, 9) =~= spec_u64_to_le_bytes(n));
            }
            if begins_with(w, rest) {
                assert(rest.subrange(0, 9) =~= seq![rest[0]] + rest.subrange(1, 9));
            }
        },
        ValueView::Double(bits) => {
            if e.is_prefix_of(rest) {
                assert(rest[0] == rest.subrange(0, 9)[0]);
                assert(rest.subrange(1, 9) =~= e.subrange(1, 9));
                assert(e.subrange(1, 9) =~= spec_u64_to_le_bytes(bits));
            }
            if begins_with(w, rest) {
                assert(rest.subrange(0, 9) =~= seq![rest[0]] + rest.subrange(1, 9));
            }
        },
        ValueView::String(s) => {
            lemma_text_begins(s, rest.skip(1));
            let t = encode_text(s);
            if e.is_prefix_of(rest) {
                assert(rest[0] == rest.subrange(0, e.len() as int)[0]);
                assert(rest.skip(1).subrange(0, t.len() as int) =~= e.subrange(1, e.len() as int));
                assert(e.subrange(1, e.len() as int) =~= t);
            }
            if begins_with(w, rest) {
                assert(rest.subrange(0, e.len() as int) =~= seq![rest[0]] + rest.skip(
                    1,
                ).subrange(0, t.len() as int));
            }
        },
        ValueView::Array(items) => {
            let body = encode_items(items, items.len());
            lemma_count(items.len(), 0);
            if e.is_prefix_of(rest) {
                assert(rest[0] == rest.subrange(0, e.len() as int)[0]);
                assert(rest.subrange(1, 9) =~= e.subrange(1, 9));
                assert(e.subrange(1, 9) =~= encode_count(items.len()));
                assert(rest.skip(9).subrange(0, body.len() as int) =~= e.subrange(
                    9,
                    e.len() as int,
                ));
                assert(e.subrange(9, e.len() as int) =~= body);
            }
            if begins_with(w, rest) {
                assert(rest.subrange(0, e.len() as int) =~= seq![rest[0]] + rest.subrange(1, 9)
                    + rest.skip(9).subrange(0, body.len() as int));
            }
        },
        ValueView::Dict(entries) => {
            let body = encode_entries(entries, entries.len());
            lemma_count(entries.len(), 0);
            if e.is_prefix_of(rest) {
                assert(rest[0] == rest.subrange(0, e.len() as int)[0]);
                assert(rest.subrange(1, 9) =~= e.subrange(1, 9));
                assert(e.subrange(1, 9) =~= encode_count(entries.len()));
                assert(rest.skip(9).subrange(0, body.len() as int) =~= e.subrange(
                    9,
                    e.len() as int,
                ));
                assert(e.subrange(9, e.len() as int) =~= body);
            }
            if begins_with(w, rest) {
                assert(rest.subrange(0, e.len() as int) =~= seq![rest[0]] + rest.subrange(1, 9)
                    + rest.skip(9).subrange(0, body.len() as int));
            }
        },
    }
}

/// Two strings that are written at the beginning of the same bytes are
/// the same string.
pub proof fn lemma_text_unique(s: Seq<char>, t: Seq<char>, rest: Seq<u8>)
    requires
        encode_utf8(s).len() <= u64::MAX,
        encode_utf8(t).len() <= u64::MAX,
        text_begins(s, rest),
        text_begins(t, rest),
    ensures
        s == t,
{
    lemma_count(encode_utf8(s).len(), encode_utf8(t).len());
    encode_utf8_decode_utf8(s);
    encode_utf8_decode_utf8(t);
}

/// The encodings of the first items of a list begin the encodings of more
/// of them, and behind them stands the encoding of the next.
pub proof fn lemma_items_step(items: Seq<ValueView>, k: nat, n: nat, rest: Seq<u8>)
    requires
        k < n <= items.len(),
        encode_items(items, n).is_prefix_of(rest),
    ensures
        encode_items(items, k).is_prefix_of(rest),
        encode_items(items, k + 1).is_prefix_of(rest),
        encode(items[k as int]).is_prefix_of(rest.skip(encode_items(items, k).len() as int)),
    decreases n - k,
{
    let whole = encode_items(items, n);
    if k + 1 < n {
        lemma_items_step(items, k + 1, n, rest);
    }
    let next = encode_items(items, k + 1);
    let here = encode_items(items, k);
    let item = encode(items[k as int]);
    assert(next == here + item);
    assert(next.is_prefix_of(rest));
    assert(rest.subrange(0, here.len() as int) =~= next.subrange(0, here.len() as int));
    assert(next.subrange(0, here.len() as int) =~= here);
    assert(rest.skip(here.len() as int).subrange(0, item.len() as int) =~= next.subrange(
        here.len() as int,
        next.len() as int,
    ));
    assert(next.subrange(here.len() as int, next.len() as int) =~= item);
}

/// The same for the entries of a dictionary: behind the first entries
/// stand the key of the next, as a string is written, and its value.
pub proof fn lemma_entries_step(
    entries: Seq<(Seq<char>, ValueView)>,
    k: nat,
    n: nat,
    rest: Seq<u8>,
)
    requires
        k < n <= entries.len(),
        encode_entries(entries, n).is_prefix_of(rest),
        encode_utf8(entries[k as int].0).len() <= u64::MAX,
    ensures
        encode_entries(entries, k).is_prefix_of(rest),
        encode_entries(entries, k + 1).is_prefix_of(rest),
        encode_text(entries[k as int].0).is_prefix_of(
            rest.skip(encode_entries(entries, k).len() as int),
        ),
        encode(entries[k as int].1).is_prefix_of(
            rest.skip(
                (encode_entries(entries, k).len() + encode_text(entries[k as int].0).len()) as int,
            ),
        ),
    decreases n - k,
{
    if k + 1 < n {
        lemma_entries_step_prefix(entries, k + 1, n, rest);
    }
    let next = encode_entries(entries, k + 1);
    let here = encode_entries(entries, k);
    let key = encode_text(entries[k as int].0);
    let item = encode(entries[k as int].1);
    assert(next == here + key + item);
    assert(next.is_prefix_of(rest));
    assert(rest.subrange(0, here.len() as int) =~= next.subrange(0, here.len() as int));
    assert(next.subrange(0, here.len() as int) =~= here);
    let mid = (here.len() + key.len()) as int;
    assert(rest.skip(here.len() as int).subrange(0, key.len() as int) =~= next.subrange(
        here.len() as int,
        mid,
    ));
    assert(next.subrange(here.len() as int, mid) =~= key);
    assert(rest.skip(mid).subrange(0, item.len() as int) =~= next.subrange(
        mid,
        next.len() as int,
    ));
    assert(next.subrange(mid, next.len() as int) =~= item);
}

/// The encodings of the first entries of a dictionary begin the encodings
/// of more of them.
pub proof fn lemma_entries_step_prefix(
    entries: Seq<(Seq<char>, ValueView)>,
    k: nat,
    n: nat,
    rest: Seq<u8>,
)
    requires
        k <= n <= entries.len(),
        encode_entries(entries, n).is_prefix_of(rest),
    ensures
        encode_entries(entries, k).is_prefix_of(rest),
    decreases n - k,
{
    if k < n {
        lemma_entries_step_prefix(entries, k + 1, n, rest);
        let next = encode_entries(entries, k + 1);
        let here = encode_entries(entries, k);
        assert(next == here + encode_text(entries[k as int].0) + encode(entries[k as int].1));
        assert(rest.subrange(0, here.len() as int) =~= next.subrange(0, here.len() as int));
        assert(next.subrange(0, here.len() as int) =~= here);
    }
}

/// Two values whose encodings stand at the beginning of the same bytes
/// are the same value: no encoding begins another, and no two values are
/// encoded alike.
pub proof fn lemma_unique(a: ValueView, b: ValueView, rest: Seq<u8>)
    requires
        encodable(a),
        encodable(b),
        encode(a).is_prefix_of(rest),
        encode(b).is_prefix_of(rest),
    ensures
        a == b,
    decreases a, 0nat,
{
    lemma_begins_with(a, rest);
    lemma_begins_with(b, rest);
    lemma_auto_spec_u64_to_from_le_bytes();
    match a {
        ValueView::Null => {},
        ValueView::Bool(_) => {},
        ValueView::Int(n) => {
            let m = b->Int_0;
            assert(spec_u64_from_le_bytes(spec_u64_to_le_bytes(spec_shifted(n))) == spec_shifted(
                n,
            ));
            assert(spec_u64_from_le_bytes(spec_u64_to_le_bytes(spec_shifted(m))) == spec_shifted(
                m,
            ));
        },
        ValueView::UInt(n) => {
            let m = b->UInt_0;
            assert(spec_u64_from_le_bytes(spec_u64_to_le_bytes(n)) == n);
            assert(spec_u64_from_le_bytes(spec_u64_to_le_bytes(m)) == m);
        },
        ValueView::Double(n) => {
            let m = b->Double_0;
            assert(spec_u64_from_le_bytes(spec_u64_to_le_bytes(n)) == n);
            assert(spec_u64_from_le_bytes(spec_u64_to_le_bytes(m)) == m);
        },
        ValueView::String(s) => {
            lemma_text_unique(s, b->String_0, rest.skip(1));
        },
        ValueView::Array(xs) => {
            let ys = b->Array_0;
            lemma_count(xs.len(), ys.len());
            lemma_items_unique(xs, xs.len(), ys, ys.len(), xs.len(), rest.skip(9));
            assert(xs =~= ys);
        },
        ValueView::Dict(xs) => {
            let ys = b->Dict_0;
            lemma_count(xs.len(), ys.len());
            lemma_entries_unique(xs, xs.len(), ys, ys.len(), xs.len(), rest.skip(9));
            assert(xs =~= ys);
        },
    }
}

/// Two lists of values whose encodings stand at the beginning of the same
/// bytes agree in as many items as both have.
pub proof fn lemma_items_unique(
    xs: Seq<ValueView>,
    n: nat,
    ys: Seq<ValueView>,
    m: nat,
    k: nat,
    rest: Seq<u8>,
)
    requires
        k <= n <= xs.len(),
        k <= m <= ys.len(),
        forall|i: int| 0 <= i < xs.len() ==> encodable(#[trigger] xs[i]),
        forall|i: int| 0 <= i < ys.len() ==> encodable(#[trigger] ys[i]),
        encode_items(xs, n).is_prefix_of(rest),
        encode_items(ys, m).is_prefix_of(rest),
    ensures
        forall|i: int| 0 <= i < k ==> xs[i] == ys[i],
        encode_items(xs, k) == encode_items(ys, k),
    decreases xs, k,
{
    if k > 0 {
        let j = (k - 1) as nat;
        lemma_items_unique(xs, n, ys, m, j, rest);
        lemma_items_step(xs, j, n, rest);
        lemma_items_step(ys, j, m, rest);
        lemma_unique(xs[j as int], ys[j as int], rest.skip(encode_items(xs, j).len() as int));
    }
}

/// Two lists of entries whose encodings stand at the beginning of the
/// same bytes agree in as many entries as both have.
pub proof fn lemma_entries_unique(
    xs: Seq<(Seq<char>, ValueView)>,
    n: nat,
    ys: Seq<(Seq<char>, ValueView)>,
    m: nat,
    k: nat,
    rest: Seq<u8>,
)
    requires
        k <= n <= xs.len(),
        k <= m <= ys.len(),
        forall|i: int|
            0 <= i < xs.len() ==> encode_utf8((#[trigger] xs[i]).0).len() <= u64::MAX && encodable(
                xs[i].1,
            ),
        forall|i: int|
            0 <= i < ys.len() ==> encode_utf8((#[trigger] ys[i]).0).len() <= u64::MAX && encodable(
                ys[i].1,
            ),
        encode_entries(xs, n).is_prefix_of(rest),
        encode_entries(ys, m).is_prefix_of(rest),
    ensures
        forall|i: int| 0 <= i < k ==> xs[i] == ys[i],
        encode_entries(xs, k) == encode_entries(ys, k),
    decreases xs, k,
{
    if k > 0 {
        let j = (k - 1) as nat;
        lemma_entries_unique(xs, n, ys, m, j, rest);
        lemma_entries_step(xs, j, n, rest);
        lemma_entries_step(ys, j, m, rest);
        let at = encode_entries(xs, j).len() as int;
        lemma_text_begins(xs[j as int].0, rest.skip(at));
        lemma_text_begins(ys[j as int].0, rest.skip(at));
        lemma_text_unique(xs[j as int].0, ys[j as int].0, rest.skip(at));
        lemma_unique(
            xs[j as int].1,
            ys[j as int].1,
            rest.skip(at + encode_text(xs[j as int].0).len() as int),
        );
    }
}

/// What a decoding of `bytes` gives: the value that the bytes are the
/// encoding of, or an error where they are the encoding of none.
pub open spec fn decodes_to(bytes: Seq<u8>, res: core::result::Result<ValueView, Error>) -> bool {
    match res {
        Ok(v) => encodable(v) && encode(v) == bytes,
        Err(e) => e == malformed() && forall|w: ValueView|
            encodable(w) ==> #[trigger] encode(w) != bytes,
    }
}

/// The error for bytes that are the encoding of no value.
pub open spec fn malformed() -> Error {
    Error { code: ErrorCode::Fleece(FleeceError::InvalidData), internal_info: None }
}

/// For all values `p` that can be written: decoding the encoding of `p`
/// gives `p`.
pub proof fn lemma_round_trip(p: ValueView, res: core::result::Result<ValueView, Error>)
    requires
        encodable(p),
        decodes_to(encode(p), res),
    ensures
        res == Ok::<ValueView, Error>(p),
{
    match res {
        Ok(v) => {
            assert(encode(v).is_prefix_of(encode(p))) by {
                assert(encode(p).subrange(0, encode(p).len() as int) =~= encode(p));
            }
            lemma_unique(v, p, encode(p));
        },
        Err(_) => {
            assert(encode(p) != encode(p));
        },
    }
}

/// The encodings of `n` values have at least `n` bytes.
pub proof fn lemma_items_len(items: Seq<ValueView>, n: nat)
    requires
        n <= items.len(),
        forall|i: int| 0 <= i < items.len() ==> encodable(#[trigger] items[i]),
    ensures
        encode_items(items, n).len() >= n,
    decreases n,
{
    if n > 0 {
        lemma_items_len(items, (n - 1) as nat);
        lemma_begins_with(items[n - 1], Seq::empty());
    }
}

/// The encodings of `n` entries have at least `n` bytes.
pub proof fn lemma_entries_len(entries: Seq<(Seq<char>, ValueView)>, n: nat)
    requires
        n <= entries.len(),
        forall|i: int| 0 <= i < entries.len() ==> encodable((#[trigger] entries[i]).1),
    ensures
        encode_entries(entries, n).len() >= n,
    decreases n,
{
    if n > 0 {
        lemma_entries_len(entries, (n - 1) as nat);
        lemma_begins_with(entries[n - 1].1, Seq::empty());
    }
}

/// Reads a count at `pos`, if 8 bytes are left there.
pub fn read_count(bytes: &[u8], pos: usize) -> (res: Option<u64>)
    requires
        pos <= bytes.len(),
    ensures
        match res {
            Some(n) => pos + 8 <= bytes.len() && bytes@.subrange(pos as int, pos + 8)
                == encode_count(n as nat),
            None => bytes.len() - pos < 8,
        },
{
    if bytes.len() - pos < 8 {
        return None;
    }
    let part = vstd::slice::slice_subrange(bytes, pos, pos + 8);
    let n = u64_from_le_bytes(part);
    proof {
        lemma_auto_spec_u64_to_from_le_bytes();
        assert(spec_u64_to_le_bytes(spec_u64_from_le_bytes(part@)) == part@);
    }
    Some(n)
}

/// Reads a string as it is written at `pos`: the string, and the
/// position behind it.
pub fn read_text(bytes: &[u8], pos: usize) -> (res: Option<(String, usize)>)
    requires
        pos <= bytes.len(),
    ensures
        match res {
            Some((s, end)) => end == pos + 8 + encode_utf8(s@).len() && end <= bytes.len()
                && encode_utf8(s@).len() <= u64::MAX && bytes@.subrange(pos as int, end as int)
                == encode_text(s@),
            None => forall|s: Seq<char>|
                encode_utf8(s).len() <= u64::MAX ==> !#[trigger] text_begins(
                    s,
                    bytes@.skip(pos as int),
                ),
        },
{
    let ghost rest = bytes@.skip(pos as int);
    let n = match read_count(bytes, pos) {
        Some(n) => n,
        None => {
            return None;
        },
    };
    assert(rest.subrange(0, 8) =~= bytes@.subrange(pos as int, pos + 8));
    let left = bytes.len() - pos - 8;
    if n > left as u64 {
        proof {
            assert forall|s: Seq<char>| encode_utf8(s).len() <= u64::MAX implies !#[trigger] text_begins(
                s,
                rest,
            ) by {
                if text_begins(s, rest) {
                    lemma_count(encode_utf8(s).len(), n as nat);
                }
            }
        }
        return None;
    }
    let size = n as usize;
    let start = pos + 8;
    let mut raw: Vec<u8> = Vec::new();
    let mut i: usize = 0;
    while i < size
        invariant
            i <= size,
            start + size <= bytes.len(),
            raw@ == bytes@.subrange(start as int, start + i),
        decreases size - i,
    {
        raw.push(bytes[start + i]);
        assert(raw@ =~= bytes@.subrange(start as int, start + i + 1));
        i += 1;
    }
    let ghost body = raw@;
    assert(rest.subrange(8, 8 + size) =~= body);
    match string_from_utf8(raw) {
        Some(s) => {
            proof {
                assert(bytes@.subrange(pos as int, start + size) =~= encode_count(n as nat)
                    + body);
            }
            Some((s, start + size))
        },
        None => {
            proof {
                assert forall|s: Seq<char>| encode_utf8(s).len() <= u64::MAX implies !#[trigger] text_begins(
                    s,
                    rest,
                ) by {
                    if text_begins(s, rest) {
                        lemma_count(encode_utf8(s).len(), n as nat);
                        encode_utf8_valid_utf8(s);
                    }
                }
            }
            None
        },
    }
}

/// The mathematical values of a list of values.
pub open spec fn value_views(items: Seq<Value>) -> Seq<ValueView> {
    items.map_values(|v: Value| v@)
}

/// The mathematical values of a list of dictionary entries.
pub open spec fn entry_views(entries: Seq<Entry>) -> Seq<(Seq<char>, ValueView)> {
    entries.map_values(|e: Entry| (e.key@, e.value@))
}

/// Reads the value whose encoding stands at `pos`: the value, and the
/// position behind its encoding. `None` where no encoding of a value
/// stands there.
pub fn read_value(bytes: &[u8], pos: usize) -> (res: Option<(Value, usize)>)
    requires
        pos <= bytes.len(),
    ensures
        match res {
            Some((v, end)) => pos < end <= bytes.len() && encodable(v@) && bytes@.subrange(
                pos as int,
                end as int,
            ) == encode(v@),
            None => forall|w: ValueView|
                encodable(w) ==> !(#[trigger] encode(w)).is_prefix_of(bytes@.skip(pos as int)),
        },
    decreases bytes.len() - pos, 0nat,
{
    let ghost rest = bytes@.skip(pos as int);
    if pos >= bytes.len() {
        proof {
            assert forall|w: ValueView| encodable(w) implies !(#[trigger] encode(w)).is_prefix_of(
                rest,
            ) by {
                lemma_begins_with(w, rest);
            }
        }
        return None;
    }
    let tag = bytes[pos];
    assert(rest[0] == tag);
    if tag == TAG_NULL {
        assert(bytes@.subrange(pos as int, pos + 1) =~= encode(ValueView::Null));
        return Some((Value::Null, pos + 1));
    }
    if tag == TAG_FALSE {
        assert(bytes@.subrange(pos as int, pos + 1) =~= encode(ValueView::Bool(false)));
        return Some((Value::Bool(false), pos + 1));
    }
    if tag == TAG_TRUE {
        assert(bytes@.subrange(pos as int, pos + 1) =~= encode(ValueView::Bool(true)));
        return Some((Value::Bool(true), pos + 1));
    }
    if tag == TAG_INT || tag == TAG_UINT || tag == TAG_DOUBLE {
        let n = match read_count(bytes, pos + 1) {
            Some(n) => n,
            None => {
                proof {
                    assert forall|w: ValueView| encodable(w) implies !(
                    #[trigger] encode(w)).is_prefix_of(rest) by {
                        lemma_begins_with(w, rest);
                    }
                }
                return None;
            },
        };
        if tag == TAG_INT {
            let v = Value::Int(unshifted(n));
            assert(bytes@.subrange(pos as int, pos + 9) =~= seq![TAG_INT] + bytes@.subrange(
                pos + 1,
                pos + 9,
            ));
            return Some((v, pos + 9));
        } else if tag == TAG_UINT {
            let v = Value::UInt(n);
            assert(bytes@.subrange(pos as int, pos + 9) =~= seq![TAG_UINT] + bytes@.subrange(
                pos + 1,
                pos + 9,
            ));
            return Some((v, pos + 9));
        } else {
            let v = Value::Double(n);
            assert(bytes@.subrange(pos as int, pos + 9) =~= seq![TAG_DOUBLE] + bytes@.subrange(
                pos + 1,
                pos + 9,
            ));
            return Some((v, pos + 9));
        }
    }
    if tag == TAG_STRING {
        match read_text(bytes, pos + 1) {
            Some((s, end)) => {
                let v = Value::String(s);
                assert(bytes@.subrange(pos as int, end as int) =~= seq![TAG_STRING]
                    + bytes@.subrange(pos + 1, end as int));
                return Some((v, end));
            },
            None => {
                proof {
                    assert(rest.skip(1) =~= bytes@.skip(pos + 1));
                    assert forall|w: ValueView| encodable(w) implies !(
                    #[trigger] encode(w)).is_prefix_of(rest) by {
                        lemma_begins_with(w, rest);
                        if w is String {
                            assert(!text_begins(w->String_0, bytes@.skip(pos + 1)));
                        }
                    }
                }
                return None;
            },
        }
    }
    if tag != TAG_ARRAY && tag != TAG_DICT {
        proof {
            assert forall|w: ValueView| encodable(w) implies !(#[trigger] encode(w)).is_prefix_of(
                rest,
            ) by {
                lemma_begins_with(w, rest);
            }
        }
        return None;
    }
    let n = match read_count(bytes, pos + 1) {
        Some(n) => n,
        None => {
            proof {
                assert forall|w: ValueView| encodable(w) implies !(
                #[trigger] encode(w)).is_prefix_of(rest) by {
                    lemma_begins_with(w, rest);
                }
            }
            return None;
        },
    };
    let start = pos + 9;
    let ghost body = bytes@.skip(start as int);
    assert(rest.skip(9) =~= body);
    assert(rest.subrange(1, 9) =~= bytes@.subrange(pos + 1, pos + 9));
    if n > (bytes.len() - start) as u64 {
        proof {
            assert forall|w: ValueView| encodable(w) implies !(#[trigger] encode(w)).is_prefix_of(
                rest,
            ) by {
                lemma_begins_with(w, rest);
                if begins_with(w, rest) {
                    if w is Array {
                        lemma_count(w->Array_0.len(), n as nat);
                        lemma_items_len(w->Array_0, w->Array_0.len());
                    } else {
                        lemma_count(w->Dict_0.len(), n as nat);
                        lemma_entries_len(w->Dict_0, w->Dict_0.len());
                    }
                }
            }
        }
        return None;
    }
    let count = n as usize;
    if tag == TAG_ARRAY {
        match read_items(bytes, start, count) {
            Some((items, end)) => {
                let v = Value::Array(items);
                proof {
                    let views = value_views(items@);
                    assert(v@->Array_0 =~= views);
                    assert(bytes@.subrange(pos as int, end as int) =~= seq![TAG_ARRAY]
                        + bytes@.subrange(pos + 1, pos + 9) + bytes@.subrange(
                        start as int,
                        end as int,
                    ));
                }
                Some((v, end))
            },
            None => {
                proof {
                    assert forall|w: ValueView| encodable(w) implies !(
                    #[trigger] encode(w)).is_prefix_of(rest) by {
                        lemma_begins_with(w, rest);
                        if begins_with(w, rest) {
                            lemma_count(w->Array_0.len(), n as nat);
                            assert(items_stand(w->Array_0, body));
                        }
                    }
                }
                None
            },
        }
    } else {
        match read_entries(bytes, start, count) {
            Some((entries, end)) => {
                let v = Value::Dict(Dict { entries });
                proof {
                    let views = entry_views(entries@);
                    assert(v@->Dict_0 =~= views);
                    assert(bytes@.subrange(pos as int, end as int) =~= seq![TAG_DICT]
                        + bytes@.subrange(pos + 1, pos + 9) + bytes@.subrange(
                        start as int,
                        end as int,
                    ));
                }
                Some((v, end))
            },
            None => {
                proof {
                    assert forall|w: ValueView| encodable(w) implies !(
                    #[trigger] encode(w)).is_prefix_of(rest) by {
                        lemma_begins_with(w, rest);
                        if begins_with(w, rest) {
                            lemma_count(w->Dict_0.len(), n as nat);
                            assert(entries_stand(w->Dict_0, body));
                        }
                    }
                }
                None
            },
        }
    }
}

/// True where the encodings of the values `ws`, each of which can be
/// written, stand at the beginning of `rest`.
pub open spec fn items_stand(ws: Seq<ValueView>, rest: Seq<u8>) -> bool {
    &&& forall|i: int| 0 <= i < ws.len() ==> encodable(#[trigger] ws[i])
    &&& encode_items(ws, ws.len()).is_prefix_of(rest)
}

/// True where the encodings of the entries `ws`, each of which can be
/// written, stand at the beginning of `rest`.
pub open spec fn entries_stand(ws: Seq<(Seq<char>, ValueView)>, rest: Seq<u8>) -> bool {
    &&& forall|i: int|
        0 <= i < ws.len() ==> encode_utf8((#[trigger] ws[i]).0).len() <= u64::MAX && encodable(
            ws[i].1,
        )
    &&& encode_entries(ws, ws.len()).is_prefix_of(rest)
}

/// Reads `count` values whose encodings stand one after the other at
/// `start`: the values, and the position behind them.
pub fn read_items(bytes: &[u8], start: usize, count: usize) -> (res: Option<(Vec<Value>, usize)>)
    requires
        start <= bytes.len(),
    ensures
        match res {
            Some((items, end)) => start <= end <= bytes.len() && items.len() == count && (forall|
                j: int,
            |
                0 <= j < count ==> encodable(#[trigger] value_views(items@)[j]))
                && bytes@.subrange(start as int, end as int) == encode_items(
                value_views(items@),
                count as nat,
            ),
            None => forall|ws: Seq<ValueView>|
                ws.len() == count ==> !#[trigger] items_stand(ws, bytes@.skip(start as int)),
        },
    decreases bytes.len() - start, 1nat,
{
    let ghost body = bytes@.skip(start as int);
    let mut items: Vec<Value> = Vec::new();
    let mut cur: usize = start;
    let mut k: usize = 0;
    while k < count
        invariant
            k <= count,
            items.len() == k,
            start <= cur <= bytes.len(),
            body == bytes@.skip(start as int),
            forall|j: int| 0 <= j < k ==> encodable(#[trigger] value_views(items@)[j]),
            bytes@.subrange(start as int, cur as int) == encode_items(
                value_views(items@),
                k as nat,
            ),
        decreases count - k,
    {
        let ghost parsed = value_views(items@);
        match read_value(bytes, cur) {
            None => {
                proof {
                    assert(encode_items(parsed, k as nat).is_prefix_of(body)) by {
                        assert(body.subrange(0, cur - start) =~= bytes@.subrange(
                            start as int,
                            cur as int,
                        ));
                    }
                    assert forall|ws: Seq<ValueView>| ws.len() == count implies !#[trigger] items_stand(
                        ws,
                        body,
                    ) by {
                        if items_stand(ws, body) {
                            lemma_items_unique(ws, ws.len(), parsed, k as nat, k as nat, body);
                            lemma_items_step(ws, k as nat, ws.len(), body);
                            assert(body.skip(cur - start) =~= bytes@.skip(cur as int));
                            assert(encodable(ws[k as int]));
                        }
                    }
                }
                return None;
            },
            Some((v, end)) => {
                let ghost item = v@;
                items.push(v);
                proof {
                    let now = value_views(items@);
                    assert(now =~= parsed.push(item));
                    assert(now[k as int] == item);
                    assert forall|j: int| 0 <= j < k + 1 implies encodable(#[trigger] now[j]) by {
                        if j < k {
                            assert(now[j] == parsed[j]);
                        }
                    }
                    lemma_items_same(parsed, now, k as nat);
                    assert(bytes@.subrange(start as int, end as int) =~= bytes@.subrange(
                        start as int,
                        cur as int,
                    ) + bytes@.subrange(cur as int, end as int));
                }
                cur = end;
                k += 1;
            },
        }
    }
    Some((items, cur))
}

/// Reads `count` dictionary entries whose encodings stand one after the
/// other at `start`: the entries, and the position behind them.
pub fn read_entries(bytes: &[u8], start: usize, count: usize) -> (res: Option<(Vec<Entry>, usize)>)
    requires
        start <= bytes.len(),
    ensures
        match res {
            Some((entries, end)) => start <= end <= bytes.len() && entries.len() == count
                && (forall|j: int|
                0 <= j < count ==> encode_utf8((#[trigger] entry_views(entries@)[j]).0).len()
                    <= u64::MAX && encodable(entry_views(entries@)[j].1)) && bytes@.subrange(
                start as int,
                end as int,
            ) == encode_entries(entry_views(entries@), count as nat),
            None => forall|ws: Seq<(Seq<char>, ValueView)>|
                ws.len() == count ==> !#[trigger] entries_stand(ws, bytes@.skip(start as int)),
        },
    decreases bytes.len() - start, 1nat,
{
    let ghost body = bytes@.skip(start as int);
    let mut entries: Vec<Entry> = Vec::new();
    let mut cur: usize = start;
    let mut k: usize = 0;
    while k < count
        invariant
            k <= count,
            entries.len() == k,
            start <= cur <= bytes.len(),
            body == bytes@.skip(start as int),
            forall|j: int|
                0 <= j < k ==> encode_utf8((#[trigger] entry_views(entries@)[j]).0).len()
                    <= u64::MAX && encodable(entry_views(entries@)[j].1),
            bytes@.subrange(start as int, cur as int) == encode_entries(
                entry_views(entries@),
                k as nat,
            ),
        decreases count - k,
    {
        let ghost parsed = entry_views(entries@);
        proof {
            assert(encode_entries(parsed, k as nat).is_prefix_of(body)) by {
                assert(body.subrange(0, cur - start) =~= bytes@.subrange(
                    start as int,
                    cur as int,
                ));
            }
            assert(body.skip(cur - start) =~= bytes@.skip(cur as int));
        }
        let (key, mid) = match read_text(bytes, cur) {
            None => {
                proof {
                    assert forall|ws: Seq<(Seq<char>, ValueView)>|
                        ws.len() == count implies !#[trigger] entries_stand(ws, body) by {
                        if entries_stand(ws, body) {
                            lemma_entries_unique(ws, ws.len(), parsed, k as nat, k as nat, body);
                            lemma_entries_step(ws, k as nat, ws.len(), body);
                            lemma_text_begins(ws[k as int].0, bytes@.skip(cur as int));
                        }
                    }
                }
                return None;
            },
            Some(found) => found,
        };
        proof {
            lemma_text_begins(key@, bytes@.skip(cur as int));
            assert(bytes@.skip(cur as int).subrange(0, mid - cur) =~= bytes@.subrange(
                cur as int,
                mid as int,
            ));
        }
        match read_value(bytes, mid) {
            None => {
                proof {
                    assert forall|ws: Seq<(Seq<char>, ValueView)>|
                        ws.len() == count implies !#[trigger] entries_stand(ws, body) by {
                        if entries_stand(ws, body) {
                            lemma_entries_unique(ws, ws.len(), parsed, k as nat, k as nat, body);
                            lemma_entries_step(ws, k as nat, ws.len(), body);
                            lemma_text_begins(ws[k as int].0, bytes@.skip(cur as int));
                            lemma_text_unique(ws[k as int].0, key@, bytes@.skip(cur as int));
                            assert(body.skip(mid - start) =~= bytes@.skip(mid as int));
                            assert(encodable(ws[k as int].1));
                        }
                    }
                }
                return None;
            },
            Some((v, end)) => {
                let ghost item = (key@, v@);
                entries.push(Entry { key, value: v });
                proof {
                    let now = entry_views(entries@);
                    assert(now =~= parsed.push(item));
                    assert(now[k as int] == item);
                    assert forall|j: int| 0 <= j < k + 1 implies encode_utf8(
                        (#[trigger] now[j]).0,
                    ).len() <= u64::MAX && encodable(now[j].1) by {
                        if j < k {
                            assert(now[j] == parsed[j]);
                        }
                    }
                    lemma_entries_same(parsed, now, k as nat);
                    assert(bytes@.subrange(start as int, end as int) =~= bytes@.subrange(
                        start as int,
                        cur as int,
                    ) + bytes@.subrange(cur as int, mid as int) + bytes@.subrange(
                        mid as int,
                        end as int,
                    ));
                }
                cur = end;
                k += 1;
            },
        }
    }
    Some((entries, cur))
}

/// Lists that agree in their first `n` items have the same encodings of
/// these.
pub proof fn lemma_items_same(xs: Seq<ValueView>, ys: Seq<ValueView>, n: nat)
    requires
        n <= xs.len(),
        n <= ys.len(),
        forall|i: int| 0 <= i < n ==> xs[i] == ys[i],
    ensures
        encode_items(xs, n) == encode_items(ys, n),
    decreases n,
{
    if n > 0 {
        lemma_items_same(xs, ys, (n - 1) as nat);
    }
}

/// Lists that agree in their first `n` entries have the same encodings of
/// these.
pub proof fn lemma_entries_same(
    xs: Seq<(Seq<char>, ValueView)>,
    ys: Seq<(Seq<char>, ValueView)>,
    n: nat,
)
    requires
        n <= xs.len(),
        n <= ys.len(),
        forall|i: int| 0 <= i < n ==> xs[i] == ys[i],
    ensures
        encode_entries(xs, n) == encode_entries(ys, n),
    decreases n,
{
    if n > 0 {
        lemma_entries_same(xs, ys, (n - 1) as nat);
    }
}

/// The mathematical value of the result of a decoding.
pub open spec fn decoded_view(res: Result<Value>) -> core::result::Result<ValueView, Error> {
    match res {
        Ok(v) => Ok(v@),
        Err(e) => Err(e),
    }
}

/// Decodes a value: the value that the bytes are the encoding of.
/// `InvalidData` where they are the encoding of no value.
pub fn decode(bytes: &[u8]) -> (res: Result<Value>)
    ensures
        decodes_to(bytes@, decoded_view(res)),
{
    match read_value(bytes, 0) {
        Some((v, end)) => {
            if end == bytes.len() {
                assert(bytes@.subrange(0, end as int) =~= bytes@);
                Ok(v)
            } else {
                proof {
                    assert forall|w: ValueView| encodable(w) implies #[trigger] encode(w)
                        != bytes@ by {
                        if encode(w) == bytes@ {
                            assert(bytes@.subrange(0, bytes@.len() as int) =~= bytes@);
                            lemma_unique(w, v@, bytes@);
                        }
                    }
                }
                Err(Error { code: ErrorCode::Fleece(FleeceError::InvalidData), internal_info: None })
            }
        },
        None => {
            proof {
                assert(bytes@.skip(0) =~= bytes@);
                assert forall|w: ValueView| encodable(w) implies #[trigger] encode(w)
                    != bytes@ by {
                    if encode(w) == bytes@ {
                        assert(bytes@.subrange(0, bytes@.len() as int) =~= bytes@);
                        assert(encode(w).is_prefix_of(bytes@.skip(0)));
                    }
                }
            }
            Err(Error { code: ErrorCode::Fleece(FleeceError::InvalidData), internal_info: None })
        },
    }
}

} // verus!
