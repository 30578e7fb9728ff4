//! A bridge that lets a managed-runtime host drive an embedded native Tor
//! library through a two-phase invocation: configuration verification
//! followed by the actual run.
//!
//! The bridge is a linear pipeline of three stages:
//!
//! * [`args`] builds the two program-name-prefixed argument vectors
//!   (the *verify vector* and the *run vector*) from the host's token list;
//! * [`encode`] turns an argument vector into the null-terminated byte
//!   buffers the native entrypoint requires;
//! * [`controller`] drives the native configuration handle through its
//!   four-step lifecycle and produces the single host-visible result string.
//!
//! The native calls themselves (allocate, set command line, run, free) are
//! performed by the unverified host-boundary shim, which obeys the
//! [`controller::Controller`]'s directives one at a time. What holds of every
//! whole invocation — no handle leaked, success exactly when all four steps
//! return zero, fixed diagnostics, bounded runs — is proved in
//! [`guarantees`].

use vstd::prelude::*;

pub mod args;
pub mod controller;
pub mod encode;
pub mod guarantees;

verus! {

use crate::args::{build_run_vector, build_verify_vector, run_vector_spec, verify_vector_spec};
use crate::controller::{Controller, Phase};
use crate::encode::{
    c_token, encode_args, has_interior_nul, token_bytes, EncodeError, EncodedArgs,
    MAX_NATIVE_ARG_COUNT,
};
use vstd::utf8::is_ascii_chars;

broadcast use vstd::seq::group_seq_axioms;

/// The encoded form of an argument vector: one null-terminated byte buffer
/// per token, in token order.
pub open spec fn encoded_vector(v: Seq<Seq<char>>) -> Seq<Seq<u8>> {
    v.map_values(|t: Seq<char>| c_token(t))
}

/// Everything one bridge invocation needs before the first native call: the
/// two encoded argument vectors and a fresh lifecycle controller.
pub struct Invocation {
    /// The encoded verify vector, for the first set-command-line step.
    pub verify_args: EncodedArgs,
    /// The encoded run vector, for the second set-command-line step.
    pub run_args: EncodedArgs,
    /// The lifecycle controller, still before allocation.
    pub controller: Controller,
}

/// A token of ASCII characters none of which is the null character encodes
/// without an interior null byte.
proof fn lemma_ascii_token_nul_free(t: Seq<char>)
    requires
        is_ascii_chars(t),
        forall|i: int| 0 <= i < t.len() ==> t[i] != '\0',
    ensures
        !has_interior_nul(t),
{
    vstd::utf8::is_ascii_chars_encode_utf8(t);
    if has_interior_nul(t) {
        let j = choose|j: int| 0 <= j < token_bytes(t).len() && token_bytes(t)[j] == 0u8;
        assert(t[j] as u8 == token_bytes(t)[j]);
        assert(t[j] != '\0');
        assert(false);
    }
}

/// Neither program-name prefix token holds an interior null byte.
pub proof fn lemma_prefix_tokens_nul_free()
    ensures
        !has_interior_nul("tor"@),
        !has_interior_nul("--verify-config"@),
{
    reveal_strlit("tor");
    reveal_strlit("--verify-config");
    lemma_ascii_token_nul_free("tor"@);
    lemma_ascii_token_nul_free("--verify-config"@);
}

/// Builds everything one invocation needs: the verify vector, the run
/// vector, their encoded buffers, and a fresh controller.
///
/// Preparation fails exactly when a host token holds an interior null byte
/// — the reported index is the first such host token — or the verify
/// vector's token count exceeds the range of the native signed 32-bit count.
/// On failure nothing remains to run: no native step is ever directed.
pub fn prepare(host: &Vec<String>) -> (r: Result<Invocation, EncodeError>)
    ensures
        match r {
            Ok(inv) => {
                &&& host@.len() + 2 <= MAX_NATIVE_ARG_COUNT
                &&& forall|i: int|
                    0 <= i < host@.len() ==> !has_interior_nul(host.deep_view()[i])
                &&& inv.verify_args@ == encoded_vector(verify_vector_spec(host.deep_view()))
                &&& inv.run_args@ == encoded_vector(run_vector_spec(host.deep_view()))
                &&& inv.controller@ == Phase::AwaitAlloc
            },
            Err(EncodeError::CountOverflow) => host@.len() + 2 > MAX_NATIVE_ARG_COUNT,
            Err(EncodeError::InteriorNul(index)) => {
                &&& host@.len() + 2 <= MAX_NATIVE_ARG_COUNT
                &&& index < host@.len()
                &&& has_interior_nul(host.deep_view()[index as int])
                &&& forall|j: int|
                    0 <= j < index as int ==> !has_interior_nul(host.deep_view()[j])
            },
        },
{
    let verify_vec = build_verify_vector(host);
    let run_vec = build_run_vector(host);
    let ghost host_tokens = host.deep_view();
    let verify_args = match encode_args(&verify_vec) {
        Ok(enc) => enc,
        Err(EncodeError::CountOverflow) => {
            proof {
                assert(verify_vec.deep_view().len() == 2 + host_tokens.len());
            }
            return Err(EncodeError::CountOverflow);
        },
        Err(EncodeError::InteriorNul(index)) => {
            proof {
                lemma_prefix_tokens_nul_free();
                assert(verify_vec.deep_view() == verify_vector_spec(host_tokens));
                assert(verify_vector_spec(host_tokens)[0] == "tor"@);
                assert(verify_vector_spec(host_tokens)[1] == "--verify-config"@);
                assert(index >= 2);
                let ghost prefix = seq!["tor"@, "--verify-config"@];
                assert(prefix.len() == 2);
                assert(verify_vec.deep_view().len() == verify_vec@.len());
                assert(index < 2 + host_tokens.len());
                assert(verify_vector_spec(host_tokens) == prefix.add(host_tokens));
                assert(prefix.add(host_tokens)[index as int] == host_tokens.index(
                    index as int - 2,
                ));
                assert forall|j: int| 0 <= j < index as int - 2 implies !has_interior_nul(
                    host_tokens[j],
                ) by {
                    assert(prefix.add(host_tokens)[j + 2] == host_tokens[j]);
                }
            }
            return Err(EncodeError::InteriorNul(index - 2));
        },
    };
    proof {
        lemma_prefix_tokens_nul_free();
        assert(verify_vec.deep_view() == seq!["tor"@, "--verify-config"@].add(host_tokens));
        assert(verify_vec.deep_view().len() == verify_vec@.len());
        assert(host_tokens.len() + 2 <= MAX_NATIVE_ARG_COUNT);
        assert forall|i: int| 0 <= i < host_tokens.len() implies !has_interior_nul(
            host_tokens[i],
        ) by {
            let prefix = seq!["tor"@, "--verify-config"@];
            assert(prefix.add(host_tokens)[i + 2] == host_tokens[i]);
            assert(!has_interior_nul(verify_vec.deep_view()[i + 2]));
        }
        assert(run_vec.deep_view() == seq!["tor"@].add(host_tokens));
        assert(run_vec.deep_view().len() == run_vec@.len());
    }
    let run_args = match encode_args(&run_vec) {
        Ok(enc) => enc,
        Err(e) => {
            proof {
                match e {
                    EncodeError::CountOverflow => {
                        assert(false);
                    },
                    EncodeError::InteriorNul(k) => {
                        let head = seq!["tor"@];
                        assert(has_interior_nul(run_vec.deep_view()[k as int]));
                        if k == 0 {
                            assert(head.add(host_tokens)[0] == "tor"@);
                        } else {
                            assert(head.add(host_tokens)[k as int] == host_tokens[k as int - 1]);
                            assert(!has_interior_nul(host_tokens[k as int - 1]));
                        }
                        assert(false);
                    },
                }
            }
            vstd::pervasive::unreached()
        },
    };
    proof {
        assert(verify_args@ =~~= encoded_vector(verify_vector_spec(host_tokens)));
        assert(run_args@ =~~= encoded_vector(run_vector_spec(host_tokens)));
    }
    Ok(Invocation { verify_args, run_args, controller: Controller::new() })
}

} // verus!
