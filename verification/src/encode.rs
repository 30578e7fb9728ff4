//! Null-terminated byte encoding of argument vectors.
//!
//! The native entrypoint takes its command line as a signed 32-bit count
//! plus an array of pointers to null-terminated byte strings. This module is
//! the verified half of that conversion: each token becomes an owned byte
//! buffer holding the token's UTF-8 bytes followed by one terminating null
//! byte. The unverified host-boundary shim only turns each buffer into a raw
//! pointer at the call site; it adds, drops and reorders nothing, so the
//! buffers here are exactly what the native call sees.

use vstd::prelude::*;
use vstd::utf8::encode_utf8;

verus! {

/// The UTF-8 bytes of a token.
pub open spec fn token_bytes(t: Seq<char>) -> Seq<u8> {
    encode_utf8(t)
}

/// Whether a token cannot be represented as a null-terminated byte string
/// because its own bytes contain a null byte.
pub open spec fn has_interior_nul(t: Seq<char>) -> bool {
    token_bytes(t).contains(0u8)
}

/// The null-terminated byte buffer that backs a token.
pub open spec fn c_token(t: Seq<char>) -> Seq<u8> {
    token_bytes(t).push(0u8)
}

/// The largest token count the native signed 32-bit count parameter can
/// carry.
pub const MAX_NATIVE_ARG_COUNT: usize = 0x7fff_ffff;

/// Why an argument vector could not be encoded.
#[derive(Clone, Copy, Debug, PartialEq, Eq)]
pub enum EncodeError {
    /// The token at this index is the first one with an interior null byte.
    InteriorNul(usize),
    /// The vector holds more tokens than the native count parameter can say.
    CountOverflow,
}

/// An encoded argument vector: one null-terminated byte buffer per token,
/// with a token count that always fits the native signed 32-bit count.
pub struct EncodedArgs {
    buffers: Vec<Vec<u8>>,
}

impl View for EncodedArgs {
    type V = Seq<Seq<u8>>;

    closed spec fn view(&self) -> Seq<Seq<u8>> {
        self.buffers.deep_view()
    }
}

impl EncodedArgs {
    #[verifier::type_invariant]
    spec fn count_fits(self) -> bool {
        self.buffers@.len() <= MAX_NATIVE_ARG_COUNT
    }

    /// The token count, as the native count parameter expects it.
    pub fn count(&self) -> (n: i32)
        ensures
            n as int == self@.len(),
            n >= 0,
    {
        proof {
            use_type_invariant(self);
        }
        self.buffers.len() as i32
    }

    /// The backing buffers, one per token, each null-terminated.
    pub fn buffers(&self) -> (bufs: &Vec<Vec<u8>>)
        ensures
            bufs.deep_view() == self@,
    {
        &self.buffers
    }
}

/// Encodes one token as a null-terminated byte buffer, or `None` exactly
/// when the token holds an interior null byte.
pub fn encode_token(token: &str) -> (r: Option<Vec<u8>>)
    ensures
        match r {
            Some(buf) => !has_interior_nul(token@) && buf@ == c_token(token@),
            None => has_interior_nul(token@),
        },
{
    let bytes: &[u8] = token.as_bytes();
    let mut buf: Vec<u8> = Vec::new();
    let mut i: usize = 0;
    while i < bytes.len()
        invariant
            i as int <= bytes@.len(),
            bytes@ == token_bytes(token@),
            buf@ == bytes@.take(i as int),
            forall|j: int| 0 <= j < i as int ==> bytes@[j] != 0u8,
        decreases bytes@.len() - i as int,
    {
        let b = bytes[i];
        if b == 0u8 {
            proof {
                assert(has_interior_nul(token@)) by {
                    assert(token_bytes(token@)[i as int] == 0u8);
                }
            }
            return None;
        }
        buf.push(b);
        i = i + 1;
    }
    buf.push(0u8);
    proof {
        assert(!has_interior_nul(token@)) by {
            if token_bytes(token@).contains(0u8) {
                let j = choose|j: int|
                    0 <= j < token_bytes(token@).len() && token_bytes(token@)[j] == 0u8;
                assert(bytes@[j] != 0u8);
            }
        }
        assert(buf@ =~= c_token(token@));
    }
    Some(buf)
}

/// Encodes a whole argument vector for the native call. Encoding fails
/// exactly when the vector is too long for the native count parameter or
/// some token holds an interior null byte; the reported index is the first
/// such token.
pub fn encode_args(tokens: &Vec<String>) -> (r: Result<EncodedArgs, EncodeError>)
    ensures
        match r {
            Ok(enc) => {
                &&& tokens@.len() <= MAX_NATIVE_ARG_COUNT
                &&& enc@.len() == tokens@.len()
                &&& forall|i: int|
                    0 <= i < tokens@.len() ==> !has_interior_nul(tokens.deep_view()[i])
                &&& forall|i: int|
                    0 <= i < tokens@.len() ==> enc@[i] == c_token(tokens.deep_view()[i])
            },
            Err(EncodeError::CountOverflow) => tokens@.len() > MAX_NATIVE_ARG_COUNT,
            Err(EncodeError::InteriorNul(index)) => {
                &&& tokens@.len() <= MAX_NATIVE_ARG_COUNT
                &&& index < tokens@.len()
                &&& has_interior_nul(tokens.deep_view()[index as int])
                &&& forall|j: int|
                    0 <= j < index as int ==> !has_interior_nul(tokens.deep_view()[j])
            },
        },
{
    if tokens.len() > MAX_NATIVE_ARG_COUNT {
        return Err(EncodeError::CountOverflow);
    }
    let mut buffers: Vec<Vec<u8>> = Vec::new();
    let mut i: usize = 0;
    while i < tokens.len()
        invariant
            i as int <= tokens@.len(),
            tokens@.len() <= MAX_NATIVE_ARG_COUNT,
            buffers@.len() == i as int,
            forall|j: int| 0 <= j < i as int ==> !has_interior_nul(tokens.deep_view()[j]),
            forall|j: int|
                0 <= j < i as int ==> buffers.deep_view()[j] == c_token(tokens.deep_view()[j]),
        decreases tokens@.len() - i as int,
    {
        let ghost prev = buffers.deep_view();
        match encode_token(tokens[i].as_str()) {
            Some(buf) => {
                let ghost encoded = buf@;
                buffers.push(buf);
                proof {
                    assert(buffers.deep_view() =~~= prev.push(encoded));
                }
            },
            None => {
                return Err(EncodeError::InteriorNul(i));
            },
        }
        i = i + 1;
    }
    Ok(EncodedArgs { buffers })
}

} // verus!
