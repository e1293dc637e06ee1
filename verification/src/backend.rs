//! The calls into `dlccryptlib` and `bip39`. Nothing in this file is proved:
//! each contract records what the source of the function called shows.
//!
//! Every `requires` here keeps out the inputs on which the function called
//! would panic. One kind of panic has no such condition: `dlccryptlib`
//! unwraps key derivations and scalar conversions that fail only where a hash
//! output is no valid scalar, which no known input achieves.

use vstd::prelude::*;
use vstd::string::StringSliceAdditionalSpecFns;
use crate::service::CETAdaptorSigsRequest;
use crate::text::{fields_have_width, is_ascii_bytes, is_hex, is_visible_list};

verus! {

/// The first child index that normal (non-hardened) derivation cannot take.
pub const DERIVATION_LIMIT: u32 = 0x8000_0000;

/// The nonce pair that `dlccryptlib::create_deterministic_nonce_intern`
/// derives for an event identifier and an index: the secret scalar and the
/// public point, both as hexadecimal text, or `None` where the hash of the
/// inputs is no valid scalar.
pub uninterp spec fn derived_nonce(event_id: Seq<char>, index: u32) -> Option<
    (Seq<char>, Seq<char>),
>;

/// The entropy that `bip39::Mnemonic::parse` recovers from a mnemonic
/// sentence, or `None` where a word is unknown, the number of words is not
/// allowed or the checksum fails.
pub uninterp spec fn mnemonic_entropy(mnemonic: Seq<char>) -> Option<Seq<u8>>;

/// Calls `bip39::Mnemonic::parse` and, on a sentence that parses,
/// `bip39::Mnemonic::to_entropy`. The result is a function of the sentence
/// alone; the contract gives it its name and drops the error.
#[verifier::external_body]
pub(crate) fn parse_mnemonic(mnemonic: &str) -> (r: Option<Vec<u8>>)
    ensures
        match r {
            Some(e) => mnemonic_entropy(mnemonic@) == Some(e@),
            None => mnemonic_entropy(mnemonic@) is None,
        },
{
    match bip39::Mnemonic::parse(mnemonic) {
        Ok(m) => Some(m.to_entropy()),
        Err(_) => None,
    }
}

/// Calls std's `String::from_utf8` on ASCII bytes, which are always valid
/// UTF-8: the text has the bytes it was made of.
#[verifier::external_body]
pub(crate) fn text_of(bytes: Vec<u8>) -> (r: String)
    requires
        is_ascii_bytes(bytes@),
    ensures
        vstd::utf8::encode_utf8(r@) == bytes@,
{
    String::from_utf8(bytes).unwrap_or_default()
}

/// Calls `dlccryptlib::init_with_entropy_intern`, which replaces the
/// process-wide master key and returns its extended public key. The crate
/// takes hexadecimal entropy of 16 or 32 bytes under the tags `bitcoin` and
/// `signet`: on those the call succeeds. Which key comes back is not
/// claimed: the crate reads it after it has let go of its lock.
#[verifier::external_body]
pub(crate) fn install_entropy(entropy: &str, network: &str) -> (r: Result<String, String>)
    ensures
        is_hex(entropy.spec_bytes()) && (entropy.spec_bytes().len() == 32
            || entropy.spec_bytes().len() == 64) && (network@ == "bitcoin"@ || network@
            == "signet"@) ==> r is Ok,
{
    dlccryptlib::init_with_entropy_intern(entropy, network)
}

/// Calls `dlccryptlib::get_public_key_intern`. The crate unwraps the child
/// number, so an index at or above the derivation limit is kept out. The
/// result depends on the process-wide master key: nothing is claimed of it.
#[verifier::external_body]
pub(crate) fn child_public_key(index: u32) -> (r: Result<String, String>)
    requires
        index < DERIVATION_LIMIT,
{
    dlccryptlib::get_public_key_intern(index)
}

/// Calls `dlccryptlib::sign_hash_ecdsa_intern`. The index is bounded as for
/// `child_public_key`. The result depends on the process-wide master key:
/// nothing is claimed of it.
#[verifier::external_body]
pub(crate) fn ecdsa_sign(hash: &str, index: u32, signer_pubkey: &str) -> (r: Result<
    String,
    String,
>)
    requires
        index < DERIVATION_LIMIT,
{
    dlccryptlib::sign_hash_ecdsa_intern(hash, index, signer_pubkey)
}

/// Calls `dlccryptlib::create_deterministic_nonce_intern`, which hashes a
/// fixed sentence around the identifier and the index and multiplies the
/// generator by the digest. The result is a function of the two arguments
/// alone; the contract gives it its name and drops the error's text.
#[verifier::external_body]
pub(crate) fn derive_nonce(event_id: &str, index: u32) -> (r: Option<(String, String)>)
    ensures
        match r {
            Some(p) => derived_nonce(event_id@, index) == Some((p.0@, p.1@)),
            None => derived_nonce(event_id@, index) is None,
        },
{
    dlccryptlib::create_deterministic_nonce_intern(event_id, index).ok()
}

/// Calls `dlccryptlib::create_cet_adaptor_sigs_intern` with the fields of the
/// request, each in the place of its name. The crate indexes
/// each outcome string at every digit position and unwraps the child number,
/// so outcome strings shorter than `num_digits`, outcome lists with
/// characters that the crate would trim away, and an index at or above the
/// derivation limit are kept out. The signatures are encrypted with fresh
/// randomness and under the process-wide master key: nothing is claimed of
/// the result.
#[verifier::external_body]
pub(crate) fn adaptor_sign(call: &CETAdaptorSigsRequest) -> (r: Result<String, String>)
    requires
        call.signing_key_index < DERIVATION_LIMIT,
        is_visible_list(vstd::utf8::encode_utf8(call.interval_wildcards@)),
        fields_have_width(
            vstd::utf8::encode_utf8(call.interval_wildcards@),
            call.num_digits as int,
        ),
{
    dlccryptlib::create_cet_adaptor_sigs_intern(
        call.num_digits,
        call.num_cets,
        &call.digit_string_template,
        &call.oracle_pubkey,
        call.signing_key_index,
        &call.signing_pubkey,
        &call.nonces,
        &call.interval_wildcards,
        &call.sighashes,
    )
}

} // verus!
