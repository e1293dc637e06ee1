//! Requests and replies of the service: each handler takes a decoded
//! request, runs one operation and wraps what it returned. A refused request
//! is a client error.

use vstd::prelude::*;
use crate::backend::{mnemonic_entropy, DERIVATION_LIMIT};
use crate::error::SignerError;
use crate::signer::{
    bytes_of, create_deterministic_nonce, derive_xpub_from_mnemonic, get_public_key,
    init_refusal, init_with_entropy, is_adaptor_result, is_nonce_pair,
    is_signature_list, is_xpub_result, mnemonic_refusal, nonce_result, on_test_network, overflow_error_spec,
    request_refusal, settle_key_spec, settle_signature_spec, sign_adaptor_request,
    sign_hash_ecdsa, sign_refusal,
};
use crate::text::{is_der_signature_text, is_xpub_text};
use crate::text::is_compressed_point;

verus! {

/// The status of every refusal: the request was at fault.
pub const BAD_REQUEST: u16 = 400;

#[derive(Debug, PartialEq, Eq)]
pub struct InitEntropyRequest {
    pub entropy: String,
    pub network: String,
}

#[derive(Debug, PartialEq, Eq)]
pub struct MnemonicRequest {
    pub mnemonic: String,
    pub network: String,
}

#[derive(Debug, PartialEq, Eq)]
pub struct SignHashRequest {
    pub hash: String,
    pub index: u32,
    pub signer_pubkey: String,
}

#[derive(Debug, PartialEq, Eq)]
pub struct CETAdaptorSigsRequest {
    pub num_digits: u8,
    pub num_cets: u64,
    pub digit_string_template: String,
    pub oracle_pubkey: String,
    pub signing_key_index: u32,
    pub signing_pubkey: String,
    pub nonces: String,
    pub interval_wildcards: String,
    pub sighashes: String,
}

#[derive(Debug, PartialEq, Eq)]
pub struct DeterministicNonceRequest {
    pub event_id: String,
    pub index: u32,
}

#[derive(Debug, PartialEq, Eq)]
pub struct XpubResponse {
    pub xpub: String,
}

#[derive(Debug, PartialEq, Eq)]
pub struct StringResponse {
    pub value: String,
}

#[derive(Debug, PartialEq, Eq)]
pub struct KeyPairResponse {
    pub secret: String,
    pub public: String,
}

/// A refused request: the status to answer with, and the reason.
#[derive(Clone, Copy, Debug, PartialEq, Eq)]
pub struct Rejection {
    pub status: u16,
    pub error: SignerError,
}

/// The refusal that answers `e`.
pub open spec fn reject_spec(e: SignerError) -> Rejection {
    Rejection { status: BAD_REQUEST, error: e }
}

pub fn reject(e: SignerError) -> (r: Rejection)
    ensures
        r == reject_spec(e),
{
    Rejection { status: BAD_REQUEST, error: e }
}

/// The reply that carries an extended public key.
pub open spec fn xpub_reply_spec(res: Result<String, SignerError>) -> Result<
    XpubResponse,
    Rejection,
> {
    match res {
        Ok(xpub) => Ok(XpubResponse { xpub }),
        Err(e) => Err(reject_spec(e)),
    }
}

pub fn xpub_reply(res: Result<String, SignerError>) -> (r: Result<XpubResponse, Rejection>)
    ensures
        r == xpub_reply_spec(res),
{
    match res {
        Ok(xpub) => Ok(XpubResponse { xpub }),
        Err(e) => Err(reject(e)),
    }
}

/// The reply that carries one text: a key or a list of signatures.
pub open spec fn string_reply_spec(res: Result<String, SignerError>) -> Result<
    StringResponse,
    Rejection,
> {
    match res {
        Ok(value) => Ok(StringResponse { value }),
        Err(e) => Err(reject_spec(e)),
    }
}

pub fn string_reply(res: Result<String, SignerError>) -> (r: Result<StringResponse, Rejection>)
    ensures
        r == string_reply_spec(res),
{
    match res {
        Ok(value) => Ok(StringResponse { value }),
        Err(e) => Err(reject(e)),
    }
}

/// The reply that carries a nonce pair: the secret first.
pub open spec fn key_pair_reply_spec(res: Result<(String, String), SignerError>) -> Result<
    KeyPairResponse,
    Rejection,
> {
    match res {
        Ok(pair) => Ok(KeyPairResponse { secret: pair.0, public: pair.1 }),
        Err(e) => Err(reject_spec(e)),
    }
}

pub fn key_pair_reply(res: Result<(String, String), SignerError>) -> (r: Result<
    KeyPairResponse,
    Rejection,
>)
    ensures
        r == key_pair_reply_spec(res),
{
    match res {
        Ok(pair) => Ok(KeyPairResponse { secret: pair.0, public: pair.1 }),
        Err(e) => Err(reject(e)),
    }
}

/// Establishes the master key and answers with its extended public key.
pub fn init_with_entropy_handler(payload: &InitEntropyRequest) -> (r: Result<
    XpubResponse,
    Rejection,
>)
    ensures
        r matches Ok(reply) ==> is_xpub_text(
            bytes_of(reply.xpub@),
            on_test_network(bytes_of(payload.network@)),
        ),
        exists|res: Result<String, SignerError>|
            r == xpub_reply_spec(res) && #[trigger] is_xpub_result(
                res,
                init_refusal(bytes_of(payload.entropy@), bytes_of(payload.network@)),
                bytes_of(payload.network@),
            ),
{
    xpub_reply(init_with_entropy(payload.entropy.as_str(), payload.network.as_str()))
}

/// Establishes the master key from a mnemonic and answers with its extended
/// public key.
pub fn derive_xpub_from_mnemonic_handler(payload: &MnemonicRequest) -> (r: Result<
    XpubResponse,
    Rejection,
>)
    ensures
        r matches Ok(reply) ==> is_xpub_text(
            bytes_of(reply.xpub@),
            on_test_network(bytes_of(payload.network@)),
        ),
        exists|res: Result<String, SignerError>|
            r == xpub_reply_spec(res) && #[trigger] is_xpub_result(
                res,
                mnemonic_refusal(mnemonic_entropy(payload.mnemonic@), bytes_of(payload.network@)),
                bytes_of(payload.network@),
            ),
{
    xpub_reply(derive_xpub_from_mnemonic(payload.mnemonic.as_str(), payload.network.as_str()))
}

/// Answers with the public key derived at `index`.
pub fn get_public_key_handler(index: u32) -> (r: Result<StringResponse, Rejection>)
    ensures
        r matches Ok(reply) ==> is_compressed_point(bytes_of(reply.value@)),
        index >= DERIVATION_LIMIT ==> exists|probe: Result<String, String>|
            r == Err::<StringResponse, Rejection>(
                reject_spec(#[trigger] overflow_error_spec(probe)),
            ),
        index < DERIVATION_LIMIT ==> exists|out: Result<String, String>|
            r == string_reply_spec(#[trigger] settle_key_spec(out)),
{
    string_reply(get_public_key(index))
}

/// Signs the hash of the request and answers with the signature.
pub fn sign_hash_handler(payload: &SignHashRequest) -> (r: Result<StringResponse, Rejection>)
    ensures
        r matches Ok(reply) ==> is_der_signature_text(bytes_of(reply.value@)),
        sign_refusal(bytes_of(payload.hash@), bytes_of(payload.signer_pubkey@)) matches Some(e)
            ==> r == Err::<StringResponse, Rejection>(reject_spec(e)),
        sign_refusal(bytes_of(payload.hash@), bytes_of(payload.signer_pubkey@)) is None
            && payload.index >= DERIVATION_LIMIT ==> exists|probe: Result<String, String>|
            r == Err::<StringResponse, Rejection>(
                reject_spec(#[trigger] overflow_error_spec(probe)),
            ),
        sign_refusal(bytes_of(payload.hash@), bytes_of(payload.signer_pubkey@)) is None
            && payload.index < DERIVATION_LIMIT ==> exists|out: Result<String, String>|
            r == string_reply_spec(#[trigger] settle_signature_spec(out)),
{
    string_reply(
        sign_hash_ecdsa(payload.hash.as_str(), payload.index, payload.signer_pubkey.as_str()),
    )
}

/// Creates the adaptor signatures of the request and answers with their
/// list: all of them, or a refusal.
pub fn create_cet_adaptor_sigs_handler(payload: &CETAdaptorSigsRequest) -> (r: Result<
    StringResponse,
    Rejection,
>)
    ensures
        exists|res: Result<String, SignerError>|
            r == string_reply_spec(res) && #[trigger] is_adaptor_result(res, payload),
        request_refusal(payload) matches Some(e) ==> r == Err::<StringResponse, Rejection>(
            reject_spec(e),
        ),
        r matches Ok(reply) ==> is_signature_list(bytes_of(reply.value@), payload.num_cets),
        r is Ok ==> bytes_of(payload.digit_string_template@).len() == payload.num_digits,
{
    string_reply(sign_adaptor_request(payload))
}

/// Derives the nonce pair of the request and answers with it.
pub fn create_deterministic_nonce_handler(payload: &DeterministicNonceRequest) -> (r: Result<
    KeyPairResponse,
    Rejection,
>)
    ensures
        match nonce_result(payload.event_id@, payload.index) {
            Ok(pair) => r matches Ok(reply) && reply.secret@ == pair.0 && reply.public@ == pair.1,
            Err(e) => r == Err::<KeyPairResponse, Rejection>(reject_spec(e)),
        },
        r matches Ok(reply) ==> is_nonce_pair(reply.secret@, reply.public@),
{
    key_pair_reply(create_deterministic_nonce(payload.event_id.as_str(), payload.index))
}

} // verus!
