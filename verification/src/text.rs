//! Text on its way to the toolkit and back.
//!
//! The toolkit takes and gives text as a run of UTF-8 bytes closed by a zero
//! byte. Text that holds a zero byte of its own cannot be handed over, and
//! bytes that are not UTF-8 cannot be taken back.

use core::str::Utf8Error;
use vstd::prelude::*;
use vstd::string::StringSliceAdditionalSpecFns;
use vstd::string::StrSliceExecFns;
use vstd::utf8::{
    decode_utf8, decode_utf8_encode_utf8, encode_utf8, encode_utf8_decode_utf8,
    encode_utf8_valid_utf8, valid_utf8,
};

verus! {

/// Text that was refused because it holds a zero byte.
#[derive(Debug)]
pub struct NulError {
    position: usize,
}

impl NulError {
    /// The place of the first zero byte, counted in bytes from the start of the text.
    pub closed spec fn position(&self) -> usize {
        self.position
    }

    /// The place of the first zero byte, counted in bytes from the start of the text.
    pub fn nul_position(&self) -> (at: usize)
        ensures
            at == self.position(),
    {
        self.position
    }
}

/// Whether no byte of `bytes` is zero.
pub open spec fn nul_free(bytes: Seq<u8>) -> bool {
    forall|i: int| 0 <= i < bytes.len() ==> bytes[i] != 0
}

/// Whether `at` is the place of the first zero byte of `bytes`.
pub open spec fn first_nul(bytes: Seq<u8>, at: int) -> bool {
    &&& 0 <= at < bytes.len()
    &&& bytes[at] == 0
    &&& nul_free(bytes.take(at))
}

/// The bytes that stand for `text` on the toolkit's side, where it can be handed over.
pub open spec fn outgoing(text: Seq<char>) -> Option<Seq<u8>> {
    if nul_free(encode_utf8(text)) {
        Some(encode_utf8(text).push(0u8))
    } else {
        None
    }
}

/// The text that `bytes` stand for, where they stand for any.
pub open spec fn incoming(bytes: Seq<u8>) -> Option<Seq<char>> {
    if valid_utf8(bytes) {
        Some(decode_utf8(bytes))
    } else {
        None
    }
}

/// `core::str::from_utf8`: the bytes are accepted exactly when they are
/// well-formed UTF-8, and the text handed back is made of those same bytes.
#[verifier::external_body]
fn utf8_text(bytes: &[u8]) -> (r: Result<&str, Utf8Error>)
    ensures
        r is Ok <==> valid_utf8(bytes@),
        r matches Ok(text) ==> text.spec_bytes() == bytes@,
{
    core::str::from_utf8(bytes)
}

/// Makes `text` ready for the toolkit: its bytes, closed by a zero byte.
///
/// Text with a zero byte inside is refused, and the error names the first such byte.
pub fn text_to_native(text: &str) -> (r: Result<Vec<u8>, NulError>)
    ensures
        match r {
            Ok(bytes) => outgoing(text@) == Some(bytes@),
            Err(e) => outgoing(text@) is None && first_nul(text.spec_bytes(), e.position() as int),
        },
{
    let mut bytes = text.as_bytes_vec();
    let mut i: usize = 0;
    while i < bytes.len()
        invariant
            bytes@ == text.spec_bytes(),
            i <= bytes.len(),
            nul_free(bytes@.take(i as int)),
        decreases bytes.len() - i,
    {
        if bytes[i] == 0 {
            return Err(NulError { position: i });
        }
        assert(bytes@.take(i + 1) =~= bytes@.take(i as int).push(bytes@[i as int]));
        i += 1;
    }
    assert(bytes@.take(i as int) =~= bytes@);
    bytes.push(0);
    Ok(bytes)
}

/// Reads text that the toolkit handed over. `bytes` are what stands before the closing zero byte.
///
/// Bytes that are not well-formed UTF-8 are refused; nothing is replaced or cut off.
pub fn text_from_native(bytes: &[u8]) -> (r: Result<String, Utf8Error>)
    ensures
        match r {
            Ok(text) => incoming(bytes@) == Some(text@),
            Err(_) => incoming(bytes@) is None,
        },
{
    match utf8_text(bytes) {
        Ok(text) => {
            proof {
                encode_utf8_decode_utf8(text@);
            }
            Ok(text.to_owned())
        },
        Err(e) => Err(e),
    }
}

/// Text that can be handed to the toolkit comes back unchanged: what is read
/// from the bytes that were handed over, less the closing zero byte, is the
/// text that was written.
pub proof fn lemma_text_round_trip(text: Seq<char>)
    requires
        nul_free(encode_utf8(text)),
    ensures
        outgoing(text) matches Some(bytes) && incoming(bytes.drop_last()) == Some(text),
{
    let bytes = encode_utf8(text).push(0u8);
    assert(bytes.drop_last() =~= encode_utf8(text));
    encode_utf8_valid_utf8(text);
    encode_utf8_decode_utf8(text);
}

/// Text that the toolkit handed over goes back to it unchanged: the bytes that
/// are written for the text that was read are the bytes that were read, closed
/// by a zero byte.
pub proof fn lemma_bytes_round_trip(bytes: Seq<u8>)
    requires
        valid_utf8(bytes),
        nul_free(bytes),
    ensures
        incoming(bytes) matches Some(text) && outgoing(text) == Some(bytes.push(0u8)),
{
    decode_utf8_encode_utf8(bytes);
}

} // verus!
