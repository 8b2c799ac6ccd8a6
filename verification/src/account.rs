//! Validity of account identifiers: 2 to 64 bytes, lower-case letters and
//! digits separated by single `-`, `_` or `.` characters, never at the start
//! or the end and never doubled.

use vstd::prelude::*;

use vstd::string::StringSliceAdditionalSpecFns;

verus! {

/// `-`, `.` or `_`.
pub open spec fn is_separator_byte(b: u8) -> bool {
    b == 45 || b == 46 || b == 95
}

/// A lower-case letter or a digit.
pub open spec fn is_name_byte(b: u8) -> bool {
    (97 <= b && b <= 122) || (48 <= b && b <= 57)
}

/// The byte string is a well-formed account identifier.
pub open spec fn valid_account_bytes(s: Seq<u8>) -> bool {
    &&& 2 <= s.len() <= 64
    &&& forall|i: int|
        0 <= i < s.len() ==> is_name_byte(#[trigger] s[i]) || is_separator_byte(s[i])
    &&& !is_separator_byte(s[0])
    &&& !is_separator_byte(s[s.len() - 1])
    &&& forall|i: int|
        0 < i < s.len() ==> !(is_separator_byte(#[trigger] s[i]) && is_separator_byte(s[i - 1]))
}

/// The string (seen as its UTF-8 bytes) is a well-formed account identifier.
pub open spec fn valid_account_id(s: Seq<char>) -> bool {
    valid_account_bytes(vstd::utf8::encode_utf8(s))
}

/// Decides whether `id` is a well-formed account identifier.
pub fn is_valid_account_id(id: &str) -> (r: bool)
    ensures
        r == valid_account_id(id@),
{
    let bytes = id.as_bytes_vec();
    let ghost s = id.spec_bytes();
    let n = bytes.len();
    if n < 2 || n > 64 {
        return false;
    }
    let mut i: usize = 0;
    let mut last_sep = true;
    while i < n
        invariant
            s == id.spec_bytes(),
            bytes@ == s,
            n == s.len(),
            2 <= n <= 64,
            0 <= i <= n,
            forall|j: int| 0 <= j < i ==> is_name_byte(#[trigger] s[j]) || is_separator_byte(s[j]),
            forall|j: int|
                0 < j < i ==> !(is_separator_byte(#[trigger] s[j]) && is_separator_byte(s[j - 1])),
            i == 0 ==> last_sep,
            i > 0 ==> last_sep == is_separator_byte(s[i - 1]),
            i > 0 ==> !is_separator_byte(s[0]),
        decreases n - i,
    {
        let b = bytes[i];
        let sep = b == 45 || b == 46 || b == 95;
        let name = (97 <= b && b <= 122) || (48 <= b && b <= 57);
        if !sep && !name {
            return false;
        }
        if sep && last_sep {
            return false;
        }
        last_sep = sep;
        i = i + 1;
    }
    !last_sep
}

} // verus!
