//! Argument vectors for the two-phase Tor invocation.
//!
//! Every native command line begins with the canonical program-name token
//! `tor`. The *verify vector* additionally carries `--verify-config` so that
//! the first run only checks the configuration; the *run vector* is the
//! program name followed directly by the host's tokens. Host-token order is
//! preserved verbatim and no token is ever dropped, added or rewritten.

use vstd::prelude::*;

verus! {

/// The token sequence of the verify vector for a given host token list:
/// `[tor, --verify-config, host tokens...]`.
pub open spec fn verify_vector_spec(host: Seq<Seq<char>>) -> Seq<Seq<char>> {
    seq!["tor"@, "--verify-config"@] + host
}

/// The token sequence of the run vector for a given host token list:
/// `[tor, host tokens...]`.
pub open spec fn run_vector_spec(host: Seq<Seq<char>>) -> Seq<Seq<char>> {
    seq!["tor"@] + host
}

/// Builds the verify vector: the program name, the `--verify-config` switch,
/// then every host token in order.
pub fn build_verify_vector(host: &Vec<String>) -> (v: Vec<String>)
    ensures
        v.deep_view() == verify_vector_spec(host.deep_view()),
{
    let mut v: Vec<String> = Vec::new();
    v.push("tor".to_owned());
    v.push("--verify-config".to_owned());
    append_tokens(&mut v, host);
    proof {
        assert(v.deep_view() =~~= verify_vector_spec(host.deep_view()));
    }
    v
}

/// Builds the run vector: the program name, then every host token in order.
pub fn build_run_vector(host: &Vec<String>) -> (v: Vec<String>)
    ensures
        v.deep_view() == run_vector_spec(host.deep_view()),
{
    let mut v: Vec<String> = Vec::new();
    v.push("tor".to_owned());
    append_tokens(&mut v, host);
    proof {
        assert(v.deep_view() =~~= run_vector_spec(host.deep_view()));
    }
    v
}

/// Appends a copy of every token of `src_tokens`, in order, to `dst`.
fn append_tokens(dst: &mut Vec<String>, src_tokens: &Vec<String>)
    ensures
        final(dst).deep_view() == old(dst).deep_view() + src_tokens.deep_view(),
{
    let ghost dst0 = old(dst).deep_view();
    let mut i: usize = 0;
    while i < src_tokens.len()
        invariant
            i as int <= src_tokens@.len(),
            dst.deep_view() == dst0 + src_tokens.deep_view().take(i as int),
        decreases src_tokens@.len() - i as int,
    {
        let ghost prev = dst.deep_view();
        let token = src_tokens[i].clone();
        let ghost token_view = token@;
        dst.push(token);
        proof {
            assert(dst.deep_view() =~~= prev.push(token_view));
            assert(dst.deep_view() =~~= dst0 + src_tokens.deep_view().take(i as int + 1));
        }
        i = i + 1;
    }
    proof {
        assert(dst.deep_view() =~~= dst0 + src_tokens.deep_view());
    }
}

} // verus!
