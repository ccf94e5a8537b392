//! Comparing strings and checking names.

use vstd::prelude::*;
use vstd::string::*;
use vstd::utf8::*;

verus! {

/// True when the two strings hold the same characters.
pub fn str_equal(a: &str, b: &str) -> (res: bool)
    ensures
        res == (a@ == b@),
{
    let x = a.as_bytes();
    let y = b.as_bytes();
    if x.len() != y.len() {
        return false;
    }
    let n = x.len();
    let mut i: usize = 0;
    while i < n
        invariant
            i <= n,
            n == x@.len(),
            n == y@.len(),
            x@ == encode_utf8(a@),
            y@ == encode_utf8(b@),
            forall|j: int| 0 <= j < i ==> x@[j] == y@[j],
        decreases n - i,
    {
        if x[i] != y[i] {
            return false;
        }
        i += 1;
    }
    proof {
        assert(x@ =~= y@);
        encode_utf8_decode_utf8(a@);
        encode_utf8_decode_utf8(b@);
    }
    true
}

/// The longest name that a scope or a collection can have.
pub const MAX_NAME_LENGTH: usize = 251;

/// True for the characters that a name may hold: letters, digits, `_`, `-`
/// and `%`.
pub open spec fn spec_name_char(c: char) -> bool {
    ||| 'A' <= c <= 'Z'
    ||| 'a' <= c <= 'z'
    ||| '0' <= c <= '9'
    ||| c == '_'
    ||| c == '-'
    ||| c == '%'
}

/// The naming rule of scopes and collections: between 1 and 251 characters,
/// each a letter, a digit, `_`, `-` or `%`, and the first neither `_` nor `%`.
pub open spec fn spec_valid_name(name: Seq<char>) -> bool {
    &&& 1 <= name.len() <= MAX_NAME_LENGTH
    &&& forall|i: int| 0 <= i < name.len() ==> spec_name_char(#[trigger] name[i])
    &&& name[0] != '_'
    &&& name[0] != '%'
}

/// Checks a name against the naming rule of scopes and collections.
pub fn is_valid_name(name: &str) -> (res: bool)
    ensures
        res == spec_valid_name(name@),
{
    if !name.is_ascii() {
        proof {
            if spec_valid_name(name@) {
                assert forall|i: int| 0 <= i < name@.len() implies (0 <= (#[trigger] name@[i] as nat) < 128) by {
                    assert(spec_name_char(name@[i]));
                }
            }
        }
        return false;
    }
    proof {
        is_ascii_chars_encode_utf8(name@);
    }
    let n = name.as_bytes().len();
    if n < 1 || n > MAX_NAME_LENGTH {
        return false;
    }
    let first = name.get_ascii(0);
    if first == 95 || first == 37 {
        return false;
    }
    let mut i: usize = 0;
    while i < n
        invariant
            i <= n,
            n == name@.len(),
            is_ascii(name),
            forall|j: int| 0 <= j < i ==> spec_name_char(#[trigger] name@[j]),
        decreases n - i,
    {
        let b = name.get_ascii(i);
        let ok = (65 <= b && b <= 90) || (97 <= b && b <= 122) || (48 <= b && b <= 57) || b == 95
            || b == 45 || b == 37;
        if !ok {
            assert(!spec_name_char(name@[i as int]));
            return false;
        }
        assert(spec_name_char(name@[i as int]));
        i += 1;
    }
    true
}

/// True when the string holds the character NUL.
pub fn has_nul(s: &str) -> (res: bool)
    ensures
        res == s@.contains('\0'),
{
    let mut found = false;
    for c in it: s.chars()
        invariant
            it.seq() == s@,
            found == exists|j: int| 0 <= j < it.index() && s@[j] == '\0',
    {
        if c == '\0' {
            found = true;
        }
    }
    found
}

/// The string that the bytes are the UTF-8 encoding of, if they are the
/// encoding of one.
///
/// This calls `String::from_utf8` of the standard library and is believed,
/// not proved: that it returns a string exactly when the bytes are valid
/// UTF-8, and that the bytes of that string are the bytes given.
#[verifier::external_body]
pub(crate) fn string_from_utf8(bytes: Vec<u8>) -> (res: Option<String>)
    ensures
        match res {
            Some(s) => encode_utf8(s@) == bytes@,
            None => !valid_utf8(bytes@),
        },
{
    String::from_utf8(bytes).ok()
}

} // verus!
