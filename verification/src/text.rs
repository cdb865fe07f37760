//! Verified text utilities: character-level string comparison, used by the
//! registries to match names, aliases and identifiers, and UTF-8 decoding of
//! file contents.

use vstd::prelude::*;
use vstd::string::StrSliceExecFns;
use vstd::utf8::{decode_utf8, valid_utf8};

use crate::error::{Error, dec_str};

verus! {

/// Decides character-for-character equality of two string slices.
pub fn str_eq(a: &str, b: &str) -> (r: bool)
    ensures
        r == (a@ == b@),
{
    let alen = a.unicode_len();
    let blen = b.unicode_len();
    if alen != blen {
        proof {
            assert(a@ != b@);
        }
        return false;
    }
    let mut i: usize = 0;
    while i < alen
        invariant
            i <= alen,
            alen == a@.len(),
            alen == b@.len(),
            forall|k: int| 0 <= k < i ==> a@[k] == b@[k],
        decreases alen - i,
    {
        if a.get_char(i) != b.get_char(i) {
            proof {
                assert(a@[i as int] != b@[i as int]);
            }
            return false;
        }
        i += 1;
    }
    proof {
        assert(a@ =~= b@);
    }
    true
}

/// Decodes bytes read from a file as UTF-8 text; invalid input fails with
/// `StringEncodingError` carrying the byte count.
pub fn decode_text(bytes: Vec<u8>) -> (r: Result<String, Error>)
    ensures
        match r {
            Ok(s) => valid_utf8(bytes@) && s@ == decode_utf8(bytes@),
            Err(e) => !valid_utf8(bytes@) && (e matches Error::StringEncodingError { reason }
                && reason@ == dec_str(bytes@.len() as nat)),
        },
{
    let n = bytes.len();
    match crate::engine::string_from_utf8(bytes) {
        Ok(s) => Ok(s),
        Err(_) => Err(Error::string_encoding(n)),
    }
}

} // verus!
