//! Strings in the driver's own encoding: bytes that end at the first zero
//! byte and are meant as UTF-8.

use vstd::prelude::*;
use vstd::utf8::{decode_utf8, valid_utf8};

verus! {

/// The text that `String::from_utf8_lossy` makes of `bytes`: the characters
/// that the bytes encode in UTF-8, with U+FFFD in the place of whatever is
/// not valid UTF-8.
pub uninterp spec fn utf8_lossy(bytes: Seq<u8>) -> Seq<char>;

/// `String::from_utf8_lossy`, with its result taken as an owned string. The
/// result depends on the bytes alone; where they are valid UTF-8, it is the
/// text that they encode, with nothing replaced.
#[verifier::external_body]
fn from_utf8_lossy(bytes: &[u8]) -> (text: String)
    ensures
        text@ == utf8_lossy(bytes@),
        valid_utf8(bytes@) ==> text@ == decode_utf8(bytes@),
{
    String::from_utf8_lossy(bytes).into_owned()
}

/// Converts the bytes of a C string, taken without its terminator, to a
/// string. Bytes that are not valid UTF-8 are replaced, so this never fails.
pub fn cstring_to_string(bytes: &[u8]) -> (text: String)
    ensures
        text@ == utf8_lossy(bytes@),
        valid_utf8(bytes@) ==> text@ == decode_utf8(bytes@),
{
    from_utf8_lossy(bytes)
}

/// Whether `index` is the place of the first zero byte.
pub open spec fn is_terminator(bytes: Seq<u8>, index: int) -> bool {
    &&& 0 <= index < bytes.len()
    &&& bytes[index] == 0
    &&& forall|j: int| 0 <= j < index ==> #[trigger] bytes[j] != 0
}

/// The bytes before the first zero byte, where there is a zero byte.
pub open spec fn terminated_prefix(bytes: Seq<u8>) -> Option<Seq<u8>> {
    if exists|i: int| is_terminator(bytes, i) {
        Some(bytes.take(choose|i: int| is_terminator(bytes, i)))
    } else {
        None
    }
}

/// The text shown for a string of the driver: what the bytes before the
/// terminator decode to, and `Unknown` where the bytes have no terminator.
pub open spec fn native_text(bytes: Seq<u8>) -> Seq<char> {
    match terminated_prefix(bytes) {
        Some(prefix) => utf8_lossy(prefix),
        None => "Unknown"@,
    }
}

/// At most one index is the place of the first zero byte.
pub proof fn lemma_terminator_is_unique(bytes: Seq<u8>, a: int, b: int)
    requires
        is_terminator(bytes, a),
        is_terminator(bytes, b),
    ensures
        a == b,
{
    if a < b {
        assert(bytes[a] != 0);
    } else if b < a {
        assert(bytes[b] != 0);
    }
}

/// Decodes a fixed-size string field of the driver into the text to show.
pub fn decode_native_string(raw: &[u8]) -> (text: String)
    ensures
        text@ == native_text(raw@),
{
    let mut i: usize = 0;
    while i < raw.len()
        invariant
            i <= raw.len(),
            forall|j: int| 0 <= j < i ==> #[trigger] raw@[j] != 0,
        decreases raw.len() - i,
    {
        if raw[i] == 0 {
            assert(is_terminator(raw@, i as int));
            proof {
                lemma_terminator_is_unique(raw@, i as int, choose|k: int| is_terminator(raw@, k));
            }
            let prefix = &raw[0..i];
            assert(prefix@ =~= raw@.take(i as int));
            return from_utf8_lossy(prefix);
        }
        i += 1;
    }
    assert(forall|k: int| !is_terminator(raw@, k));
    "Unknown".to_owned()
}

} // verus!
