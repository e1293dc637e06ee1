//! The operations of the signing service. Each validates its request, hands
//! the curve library what passed, and settles what came back.
//!
//! Texts are exchanged in hexadecimal: a point as 33 bytes (compressed), a
//! scalar or a hash as 32 bytes, an adaptor signature as 162 bytes, a
//! signature in DER with a low `s` and one byte for the sighash type. An
//! extended public key is exchanged in base58. Lists are separated by
//! spaces.

use vstd::prelude::*;
use vstd::string::StringSliceAdditionalSpecFns;
use crate::backend::{
    adaptor_sign, child_public_key, derive_nonce, derived_nonce, ecdsa_sign, install_entropy,
    mnemonic_entropy, parse_mnemonic, text_of, DERIVATION_LIMIT,
};
use crate::error::{classify, classify_spec, SignerError};
use crate::service::CETAdaptorSigsRequest;
use crate::text::{
    all_hex, check_digits, check_width, compressed_point, count_fields, der_signature_text,
    field_count, fields_have_digit, fields_have_width, hex_list, hex_of_len, is_compressed_point,
    is_der_signature_text, is_hex, is_hex_list, is_hex_of_len, is_visible_list, is_xpub_text,
    same_bytes, to_hex, visible_list, xpub_text,
};

verus! {

/// The UTF-8 bytes of a text.
pub open spec fn bytes_of(s: Seq<char>) -> Seq<u8> {
    vstd::utf8::encode_utf8(s)
}

/// What an outcome of establishing a master key becomes: an extended public
/// key passes only in its serialized form for the network.
pub open spec fn settle_xpub_spec(out: Result<String, String>, test: bool) -> Result<
    String,
    SignerError,
> {
    match out {
        Ok(v) => if is_xpub_text(bytes_of(v@), test) {
            Ok(v)
        } else {
            Err(SignerError::InternalCurveError)
        },
        Err(m) => Err(classify_spec(bytes_of(m@), SignerError::InternalCurveError)),
    }
}

/// Settles an outcome of establishing a master key.
pub fn settle_xpub(out: Result<String, String>, test: bool) -> (r: Result<String, SignerError>)
    ensures
        r == settle_xpub_spec(out, test),
{
    match out {
        Ok(v) => {
            if xpub_text(v.as_str().as_bytes(), test) {
                Ok(v)
            } else {
                Err(SignerError::InternalCurveError)
            }
        },
        Err(m) => Err(classify(m.as_str().as_bytes(), SignerError::InternalCurveError)),
    }
}

/// The entropy is hexadecimal text for 16 or 32 bytes, the lengths that the
/// derivation takes.
pub open spec fn entropy_ok(e: Seq<u8>) -> bool {
    is_hex(e) && (e.len() == 32 || e.len() == 64)
}

/// The tag names the main network.
pub open spec fn is_main_network(n: Seq<u8>) -> bool {
    n == "bitcoin".spec_bytes() || n == "mainnet".spec_bytes()
}

/// The tag names a test network. Keys are derived alike on all of them: the
/// same coin type in the path, the same prefix in the serialization.
pub open spec fn is_test_network(n: Seq<u8>) -> bool {
    n == "signet".spec_bytes() || n == "testnet".spec_bytes()
}

/// The tag does not name the main network: if it is recognized, it names a
/// test network.
pub open spec fn on_test_network(n: Seq<u8>) -> bool {
    !is_main_network(n)
}

/// The network tag is recognized.
pub open spec fn network_ok(n: Seq<u8>) -> bool {
    is_main_network(n) || is_test_network(n)
}

/// The tag under which the curve library knows the network, if the tag is
/// recognized.
pub open spec fn curve_network_spec(n: Seq<u8>) -> Option<Seq<char>> {
    if is_main_network(n) {
        Some("bitcoin"@)
    } else if is_test_network(n) {
        Some("signet"@)
    } else {
        None
    }
}

/// Tells whether the tag names the main network.
pub fn main_network(n: &[u8]) -> (r: bool)
    ensures
        r == is_main_network(n@),
{
    same_bytes(n, "bitcoin".as_bytes()) || same_bytes(n, "mainnet".as_bytes())
}

/// Maps a network tag to the tag under which the curve library knows the
/// network.
pub fn curve_network(n: &[u8]) -> (r: Option<&'static str>)
    ensures
        r is Some <==> network_ok(n@),
        match r {
            Some(tag) => curve_network_spec(n@) == Some(tag@),
            None => curve_network_spec(n@) is None,
        },
{
    if same_bytes(n, "bitcoin".as_bytes()) || same_bytes(n, "mainnet".as_bytes()) {
        Some("bitcoin")
    } else if same_bytes(n, "signet".as_bytes()) || same_bytes(n, "testnet".as_bytes()) {
        Some("signet")
    } else {
        None
    }
}

/// Why a request for a master key is refused before any key is made, if it
/// is.
pub open spec fn init_refusal(entropy: Seq<u8>, network: Seq<u8>) -> Option<SignerError> {
    if !entropy_ok(entropy) {
        Some(SignerError::InvalidEntropy)
    } else if !network_ok(network) {
        Some(SignerError::InvalidNetwork)
    } else {
        None
    }
}

/// The result of establishing a master key on a request that `refusal`
/// judges: the refusal itself; else the settled outcome of the curve
/// library, which is an extended public key of the network or a failure of
/// the curve code.
pub open spec fn is_xpub_result(
    r: Result<String, SignerError>,
    refusal: Option<SignerError>,
    network: Seq<u8>,
) -> bool {
    match refusal {
        Some(e) => r == Err::<String, SignerError>(e),
        None => {
            &&& exists|out: Result<String, String>|
                r == #[trigger] settle_xpub_spec(out, on_test_network(network))
            &&& match r {
                Ok(x) => is_xpub_text(bytes_of(x@), on_test_network(network)),
                Err(e) => e == SignerError::InternalCurveError,
            }
        },
    }
}

/// Establishes the master key from hexadecimal entropy and returns its
/// extended public key: 111 characters of base58 that begin with `xpub` on
/// the main network and with `tpub` on a test network. The master key is
/// process-wide: a later call replaces it.
///
/// Entropy that is not hexadecimal text for 16 or 32 bytes is refused, and
/// so is an unknown network tag. The curve library is handed the tag under
/// which it knows the network.
pub fn init_with_entropy(entropy: &str, network: &str) -> (r: Result<String, SignerError>)
    ensures
        is_xpub_result(
            r,
            init_refusal(entropy.spec_bytes(), network.spec_bytes()),
            network.spec_bytes(),
        ),
{
    let e = entropy.as_bytes();
    if !(e.len() == 32 || e.len() == 64) || !all_hex(e) {
        return Err(SignerError::InvalidEntropy);
    }
    match curve_network(network.as_bytes()) {
        None => Err(SignerError::InvalidNetwork),
        Some(tag) => {
            let test = !main_network(network.as_bytes());
            let out = install_entropy(entropy, tag);
            settle_xpub(out, test)
        },
    }
}

/// Why raw entropy is refused before any key is made, if it is.
pub open spec fn entropy_refusal(entropy: Seq<u8>, network: Seq<u8>) -> Option<SignerError> {
    if !(entropy.len() == 16 || entropy.len() == 32) {
        Some(SignerError::InvalidEntropy)
    } else if !network_ok(network) {
        Some(SignerError::InvalidNetwork)
    } else {
        None
    }
}

/// Establishes the master key from raw entropy, as `init_with_entropy` does
/// from its hexadecimal encoding.
pub fn xpub_from_entropy(entropy: &[u8], network: &str) -> (r: Result<String, SignerError>)
    ensures
        is_xpub_result(
            r,
            entropy_refusal(entropy@, network.spec_bytes()),
            network.spec_bytes(),
        ),
{
    if !(entropy.len() == 16 || entropy.len() == 32) {
        return Err(SignerError::InvalidEntropy);
    }
    let hex = text_of(to_hex(entropy));
    init_with_entropy(hex.as_str(), network)
}

/// Why a parsed mnemonic is refused before any key is made, if it is:
/// without entropy the mnemonic itself was at fault.
pub open spec fn mnemonic_refusal(parsed: Option<Seq<u8>>, network: Seq<u8>) -> Option<
    SignerError,
> {
    match parsed {
        None => Some(SignerError::InvalidMnemonic),
        Some(e) => entropy_refusal(e, network),
    }
}

/// A parsed mnemonic in contracts: the entropy by its bytes.
pub open spec fn entropy_view(parsed: Option<Vec<u8>>) -> Option<Seq<u8>> {
    match parsed {
        Some(e) => Some(e@),
        None => None,
    }
}

/// Establishes the master key from the entropy of a parsed mnemonic, if
/// there is one.
pub fn xpub_from_parsed_mnemonic(parsed: Option<Vec<u8>>, network: &str) -> (r: Result<
    String,
    SignerError,
>)
    ensures
        is_xpub_result(
            r,
            mnemonic_refusal(entropy_view(parsed), network.spec_bytes()),
            network.spec_bytes(),
        ),
{
    match parsed {
        None => Err(SignerError::InvalidMnemonic),
        Some(entropy) => xpub_from_entropy(entropy.as_slice(), network),
    }
}

/// Establishes the master key from a mnemonic sentence and returns its
/// extended public key. A sentence with an unknown word, a wrong number of
/// words or a wrong checksum is refused as a mnemonic; one of 15, 18 or 21
/// words is refused for its entropy, which the derivation does not take.
pub fn derive_xpub_from_mnemonic(mnemonic: &str, network: &str) -> (r: Result<
    String,
    SignerError,
>)
    ensures
        is_xpub_result(
            r,
            mnemonic_refusal(mnemonic_entropy(mnemonic@), network.spec_bytes()),
            network.spec_bytes(),
        ),
{
    xpub_from_parsed_mnemonic(parse_mnemonic(mnemonic), network)
}

/// What an outcome of a key derivation becomes: a key passes only as the
/// hexadecimal text of a compressed point.
pub open spec fn settle_key_spec(out: Result<String, String>) -> Result<String, SignerError> {
    match out {
        Ok(v) => if is_compressed_point(bytes_of(v@)) {
            Ok(v)
        } else {
            Err(SignerError::InternalCurveError)
        },
        Err(m) => Err(classify_spec(bytes_of(m@), SignerError::InternalCurveError)),
    }
}

/// Settles an outcome of a key derivation.
pub fn settle_key(out: Result<String, String>) -> (r: Result<String, SignerError>)
    ensures
        r == settle_key_spec(out),
{
    match out {
        Ok(v) => {
            if compressed_point(v.as_str().as_bytes()) {
                Ok(v)
            } else {
                Err(SignerError::InternalCurveError)
            }
        },
        Err(m) => Err(classify(m.as_str().as_bytes(), SignerError::InternalCurveError)),
    }
}

/// A derivation at index 0 shows that no master key is installed.
pub open spec fn shows_no_key(probe: Result<String, String>) -> bool {
    probe matches Err(m) && classify_spec(bytes_of(m@), SignerError::InternalCurveError)
        == SignerError::KeyNotInitialized
}

/// The error for an index beyond the derivation limit, given a derivation
/// at index 0: a missing master key is reported before the index.
pub open spec fn overflow_error_spec(probe: Result<String, String>) -> SignerError {
    if shows_no_key(probe) {
        SignerError::KeyNotInitialized
    } else {
        SignerError::DerivationOverflow
    }
}

/// Chooses the error for an index beyond the derivation limit.
pub fn overflow_error(probe: Result<String, String>) -> (e: SignerError)
    ensures
        e == overflow_error_spec(probe),
{
    match probe {
        Ok(_) => SignerError::DerivationOverflow,
        Err(m) => {
            let kind = classify(m.as_str().as_bytes(), SignerError::InternalCurveError);
            if kind == SignerError::KeyNotInitialized {
                SignerError::KeyNotInitialized
            } else {
                SignerError::DerivationOverflow
            }
        },
    }
}

/// Derives the public key at `index` under the current master key, as the
/// hexadecimal text of the compressed point. Without a master key the
/// request is refused for that, whatever the index.
pub fn get_public_key(index: u32) -> (r: Result<String, SignerError>)
    ensures
        r matches Ok(key) ==> is_compressed_point(bytes_of(key@)),
        index >= DERIVATION_LIMIT ==> exists|probe: Result<String, String>|
            r == Err::<String, SignerError>(#[trigger] overflow_error_spec(probe)),
        index < DERIVATION_LIMIT ==> exists|out: Result<String, String>|
            r == #[trigger] settle_key_spec(out),
{
    if index >= DERIVATION_LIMIT {
        return Err(overflow_error(child_public_key(0)));
    }
    let out = child_public_key(index);
    settle_key(out)
}

/// Why a signing request is refused before any key is looked at, if it is.
pub open spec fn sign_refusal(hash: Seq<u8>, signer_pubkey: Seq<u8>) -> Option<SignerError> {
    if hash.len() != 64 {
        Some(SignerError::InvalidHashLength)
    } else if !is_hex(hash) {
        Some(SignerError::InvalidInputEncoding)
    } else if !is_compressed_point(signer_pubkey) {
        Some(SignerError::InvalidPoint)
    } else {
        None
    }
}

/// What an outcome of signing becomes: a signature passes only as the
/// hexadecimal text of its DER form with the sighash byte, and with a low
/// `s`.
pub open spec fn settle_signature_spec(out: Result<String, String>) -> Result<
    String,
    SignerError,
> {
    match out {
        Ok(v) => if is_der_signature_text(bytes_of(v@)) {
            Ok(v)
        } else {
            Err(SignerError::InternalCurveError)
        },
        Err(m) => Err(classify_spec(bytes_of(m@), SignerError::InternalCurveError)),
    }
}

/// Settles an outcome of signing.
pub fn settle_signature(out: Result<String, String>) -> (r: Result<String, SignerError>)
    ensures
        r == settle_signature_spec(out),
{
    match out {
        Ok(v) => {
            if der_signature_text(v.as_str().as_bytes()) {
                Ok(v)
            } else {
                Err(SignerError::InternalCurveError)
            }
        },
        Err(m) => Err(classify(m.as_str().as_bytes(), SignerError::InternalCurveError)),
    }
}

/// Checks a signing request; `None` lets it through.
pub fn check_sign_request(hash: &[u8], signer_pubkey: &[u8]) -> (r: Option<SignerError>)
    ensures
        r == sign_refusal(hash@, signer_pubkey@),
{
    if hash.len() != 64 {
        Some(SignerError::InvalidHashLength)
    } else if !all_hex(hash) {
        Some(SignerError::InvalidInputEncoding)
    } else if !compressed_point(signer_pubkey) {
        Some(SignerError::InvalidPoint)
    } else {
        None
    }
}

/// Signs a 32-byte hash, given as 64 hexadecimal digits, with the key derived
/// at `index`, which must be the key that `signer_pubkey` names (33 bytes,
/// compressed, hexadecimal). The signature is the hexadecimal text of its DER
/// encoding, followed by one byte for the sighash type; its `s` is at most
/// half the group order.
///
/// A malformed request is refused first, then a missing master key, then an
/// index beyond the derivation limit.
pub fn sign_hash_ecdsa(hash: &str, index: u32, signer_pubkey: &str) -> (r: Result<
    String,
    SignerError,
>)
    ensures
        r matches Ok(sig) ==> is_der_signature_text(bytes_of(sig@)),
        sign_refusal(hash.spec_bytes(), signer_pubkey.spec_bytes()) matches Some(e) ==> r == Err::<
            String,
            SignerError,
        >(e),
        sign_refusal(hash.spec_bytes(), signer_pubkey.spec_bytes()) is None && index
            >= DERIVATION_LIMIT ==> exists|probe: Result<String, String>|
            r == Err::<String, SignerError>(#[trigger] overflow_error_spec(probe)),
        sign_refusal(hash.spec_bytes(), signer_pubkey.spec_bytes()) is None && index
            < DERIVATION_LIMIT ==> exists|out: Result<String, String>|
            r == #[trigger] settle_signature_spec(out),
{
    match check_sign_request(hash.as_bytes(), signer_pubkey.as_bytes()) {
        Some(e) => Err(e),
        None => {
            if index >= DERIVATION_LIMIT {
                Err(overflow_error(child_public_key(0)))
            } else {
                settle_signature(ecdsa_sign(hash, index, signer_pubkey))
            }
        },
    }
}

/// A nonce pair in contracts: each text by its characters.
pub open spec fn nonce_view(r: Result<(String, String), SignerError>) -> Result<
    (Seq<char>, Seq<char>),
    SignerError,
> {
    match r {
        Ok(p) => Ok((p.0@, p.1@)),
        Err(e) => Err(e),
    }
}

/// The two texts are a scalar of 32 bytes and a compressed point of 33
/// bytes, both hexadecimal.
pub open spec fn is_nonce_pair(secret: Seq<char>, point: Seq<char>) -> bool {
    is_hex_of_len(bytes_of(secret), 32) && is_compressed_point(bytes_of(point))
}

/// The nonce pair for an event identifier and an index: the secret scalar,
/// then the public point.
pub open spec fn nonce_result(event_id: Seq<char>, index: u32) -> Result<
    (Seq<char>, Seq<char>),
    SignerError,
> {
    if event_id.len() == 0 {
        Err(SignerError::InvalidEventId)
    } else {
        match derived_nonce(event_id, index) {
            Some(p) => if is_nonce_pair(p.0, p.1) {
                Ok(p)
            } else {
                Err(SignerError::InternalCurveError)
            },
            None => Err(SignerError::InternalCurveError),
        }
    }
}

/// Settles a derivation of a nonce pair: a missing or malformed pair is a
/// failure of the curve code.
pub fn settle_nonce(derived: Option<(String, String)>) -> (r: Result<
    (String, String),
    SignerError,
>)
    ensures
        r == match derived {
            Some(p) => if is_nonce_pair(p.0@, p.1@) {
                Ok::<(String, String), SignerError>(p)
            } else {
                Err::<(String, String), SignerError>(SignerError::InternalCurveError)
            },
            None => Err::<(String, String), SignerError>(SignerError::InternalCurveError),
        },
{
    match derived {
        Some(p) => {
            if hex_of_len(p.0.as_str().as_bytes(), 32) && compressed_point(
                p.1.as_str().as_bytes(),
            ) {
                Ok(p)
            } else {
                Err(SignerError::InternalCurveError)
            }
        },
        None => Err(SignerError::InternalCurveError),
    }
}

/// Derives the nonce pair of an oracle event: no randomness is consulted, and
/// no key state either.
pub fn create_deterministic_nonce(event_id: &str, index: u32) -> (r: Result<
    (String, String),
    SignerError,
>)
    ensures
        nonce_view(r) == nonce_result(event_id@, index),
        event_id@.len() == 0 ==> r == Err::<(String, String), SignerError>(
            SignerError::InvalidEventId,
        ),
        r matches Ok(pair) ==> is_nonce_pair(pair.0@, pair.1@),
{
    if event_id.is_empty() {
        return Err(SignerError::InvalidEventId);
    }
    settle_nonce(derive_nonce(event_id, index))
}

/// Two derivations of a nonce pair from the same identifier and index give
/// the same pair, or the same error.
pub proof fn nonce_is_deterministic(
    event_id: Seq<char>,
    index: u32,
    first: Result<(String, String), SignerError>,
    second: Result<(String, String), SignerError>,
)
    requires
        nonce_view(first) == nonce_result(event_id, index),
        nonce_view(second) == nonce_result(event_id, index),
    ensures
        nonce_view(first) == nonce_view(second),
{
}

/// Why a request for adaptor signatures is refused before any key is
/// looked at, if it is. The template has one byte per digit. The lists are space-separated; the outcome list holds
/// one digit string per CET, in which a character that is no decimal digit
/// marks a position that the outcome leaves open. An outcome that leaves
/// every position open has no adaptor point: the sum of no points is the
/// identity.
pub open spec fn adaptor_refusal(
    num_digits: u8,
    num_cets: u64,
    template: Seq<u8>,
    oracle_pubkey: Seq<u8>,
    signing_pubkey: Seq<u8>,
    nonces: Seq<u8>,
    outcomes: Seq<u8>,
    sighashes: Seq<u8>,
) -> Option<SignerError> {
    if field_count(nonces) != num_digits {
        Some(
            SignerError::NonceCountMismatch {
                expected: num_digits as u64,
                actual: field_count(nonces) as u64,
            },
        )
    } else if !is_hex_list(nonces) || !fields_have_width(nonces, 66) {
        Some(SignerError::InvalidPoint)
    } else if template.len() != num_digits {
        Some(SignerError::DigitCountMismatch)
    } else if field_count(outcomes) != num_cets {
        Some(
            SignerError::CountMismatch { expected: num_cets, actual: field_count(outcomes) as u64 },
        )
    } else if !is_visible_list(outcomes) {
        Some(SignerError::InvalidInputEncoding)
    } else if !fields_have_width(outcomes, num_digits as int) {
        Some(SignerError::DigitCountMismatch)
    } else if !fields_have_digit(outcomes, num_digits as int) {
        Some(SignerError::AdaptorConstructionFailure)
    } else if field_count(sighashes) != num_cets {
        Some(
            SignerError::CountMismatch {
                expected: num_cets,
                actual: field_count(sighashes) as u64,
            },
        )
    } else if !is_hex_list(sighashes) {
        Some(SignerError::InvalidInputEncoding)
    } else if !fields_have_width(sighashes, 64) {
        Some(SignerError::InvalidHashLength)
    } else if !is_compressed_point(oracle_pubkey) {
        Some(SignerError::InvalidOraclePubkey)
    } else if !is_compressed_point(signing_pubkey) {
        Some(SignerError::InvalidPoint)
    } else {
        None
    }
}

/// A request for adaptor signatures that passes validation has one nonce
/// and one byte of template per digit, and one outcome and one sighash per
/// CET.
pub proof fn accepted_request_counts(
    num_digits: u8,
    num_cets: u64,
    template: Seq<u8>,
    oracle_pubkey: Seq<u8>,
    signing_pubkey: Seq<u8>,
    nonces: Seq<u8>,
    outcomes: Seq<u8>,
    sighashes: Seq<u8>,
)
    requires
        adaptor_refusal(
            num_digits,
            num_cets,
            template,
            oracle_pubkey,
            signing_pubkey,
            nonces,
            outcomes,
            sighashes,
        ) is None,
    ensures
        field_count(nonces) == num_digits,
        field_count(outcomes) == num_cets,
        field_count(sighashes) == num_cets,
        template.len() == num_digits,
        fields_have_width(outcomes, num_digits as int),
        fields_have_digit(outcomes, num_digits as int),
{
}

/// A mismatch between the nonces and the digits is reported as such,
/// whatever else is wrong with the request.
pub proof fn nonce_mismatch_comes_first(
    num_digits: u8,
    num_cets: u64,
    template: Seq<u8>,
    oracle_pubkey: Seq<u8>,
    signing_pubkey: Seq<u8>,
    nonces: Seq<u8>,
    outcomes: Seq<u8>,
    sighashes: Seq<u8>,
)
    requires
        field_count(nonces) != num_digits,
    ensures
        adaptor_refusal(
            num_digits,
            num_cets,
            template,
            oracle_pubkey,
            signing_pubkey,
            nonces,
            outcomes,
            sighashes,
        ) == Some(
            SignerError::NonceCountMismatch {
                expected: num_digits as u64,
                actual: field_count(nonces) as u64,
            },
        ),
{
}

/// Checks a request for adaptor signatures; `None` lets it through.
pub fn check_adaptor_request(
    num_digits: u8,
    num_cets: u64,
    template: &[u8],
    oracle_pubkey: &[u8],
    signing_pubkey: &[u8],
    nonces: &[u8],
    outcomes: &[u8],
    sighashes: &[u8],
) -> (r: Option<SignerError>)
    ensures
        r == adaptor_refusal(
            num_digits,
            num_cets,
            template@,
            oracle_pubkey@,
            signing_pubkey@,
            nonces@,
            outcomes@,
            sighashes@,
        ),
{
    let nonce_count: u64 = count_fields(nonces) as u64;
    if nonce_count != num_digits as u64 {
        return Some(
            SignerError::NonceCountMismatch { expected: num_digits as u64, actual: nonce_count },
        );
    }
    if !hex_list(nonces) || !check_width(nonces, 66) {
        return Some(SignerError::InvalidPoint);
    }
    if template.len() != num_digits as usize {
        return Some(SignerError::DigitCountMismatch);
    }
    let outcome_count: u64 = count_fields(outcomes) as u64;
    if outcome_count != num_cets {
        return Some(SignerError::CountMismatch { expected: num_cets, actual: outcome_count });
    }
    if !visible_list(outcomes) {
        return Some(SignerError::InvalidInputEncoding);
    }
    if !check_width(outcomes, num_digits as usize) {
        return Some(SignerError::DigitCountMismatch);
    }
    if !check_digits(outcomes, num_digits as usize) {
        return Some(SignerError::AdaptorConstructionFailure);
    }
    let sighash_count: u64 = count_fields(sighashes) as u64;
    if sighash_count != num_cets {
        return Some(SignerError::CountMismatch { expected: num_cets, actual: sighash_count });
    }
    if !hex_list(sighashes) {
        return Some(SignerError::InvalidInputEncoding);
    }
    if !check_width(sighashes, 64) {
        return Some(SignerError::InvalidHashLength);
    }
    if !compressed_point(oracle_pubkey) {
        return Some(SignerError::InvalidOraclePubkey);
    }
    if !compressed_point(signing_pubkey) {
        return Some(SignerError::InvalidPoint);
    }
    None
}

/// The number of hexadecimal digits of one adaptor signature (162 bytes).
pub const ADAPTOR_SIGNATURE_DIGITS: usize = 324;

/// `s` lists exactly `num_cets` adaptor signatures in hexadecimal.
pub open spec fn is_signature_list(s: Seq<u8>, num_cets: u64) -> bool {
    &&& field_count(s) == num_cets
    &&& is_hex_list(s)
    &&& fields_have_width(s, ADAPTOR_SIGNATURE_DIGITS as int)
}

/// What an outcome of the adaptor engine becomes: a list of signatures
/// passes only with one well-formed signature per CET.
pub open spec fn settle_adaptor_sigs_spec(out: Result<String, String>, num_cets: u64) -> Result<
    String,
    SignerError,
> {
    match out {
        Ok(v) => if is_signature_list(bytes_of(v@), num_cets) {
            Ok(v)
        } else {
            Err(SignerError::InternalCurveError)
        },
        Err(m) => Err(classify_spec(bytes_of(m@), SignerError::AdaptorConstructionFailure)),
    }
}

/// Settles an outcome of the adaptor engine. No partial list passes.
pub fn settle_adaptor_sigs(out: Result<String, String>, num_cets: u64) -> (r: Result<
    String,
    SignerError,
>)
    ensures
        r == settle_adaptor_sigs_spec(out, num_cets),
{
    match out {
        Ok(v) => {
            let list = v.as_str().as_bytes();
            let n: u64 = count_fields(list) as u64;
            if n == num_cets && hex_list(list) && check_width(list, ADAPTOR_SIGNATURE_DIGITS) {
                Ok(v)
            } else {
                Err(SignerError::InternalCurveError)
            }
        },
        Err(m) => Err(classify(m.as_str().as_bytes(), SignerError::AdaptorConstructionFailure)),
    }
}

/// `adaptor_refusal` of a request as it arrives, each text by its bytes.
pub open spec fn request_refusal(request: &CETAdaptorSigsRequest) -> Option<SignerError> {
    adaptor_refusal(
        request.num_digits,
        request.num_cets,
        bytes_of(request.digit_string_template@),
        bytes_of(request.oracle_pubkey@),
        bytes_of(request.signing_pubkey@),
        bytes_of(request.nonces@),
        bytes_of(request.interval_wildcards@),
        bytes_of(request.sighashes@),
    )
}

/// The request that the arguments make, each under its own name.
pub open spec fn is_request_of(
    request: CETAdaptorSigsRequest,
    num_digits: u8,
    num_cets: u64,
    digit_string_template: &str,
    oracle_pubkey: &str,
    signing_key_index: u32,
    signing_pubkey: &str,
    nonces: &str,
    interval_wildcards: &str,
    sighashes: &str,
) -> bool {
    &&& request.num_digits == num_digits
    &&& request.num_cets == num_cets
    &&& request.digit_string_template@ == digit_string_template@
    &&& request.oracle_pubkey@ == oracle_pubkey@
    &&& request.signing_key_index == signing_key_index
    &&& request.signing_pubkey@ == signing_pubkey@
    &&& request.nonces@ == nonces@
    &&& request.interval_wildcards@ == interval_wildcards@
    &&& request.sighashes@ == sighashes@
}

/// Builds the request for adaptor signatures from its parts.
pub fn adaptor_request(
    num_digits: u8,
    num_cets: u64,
    digit_string_template: &str,
    oracle_pubkey: &str,
    signing_key_index: u32,
    signing_pubkey: &str,
    nonces: &str,
    interval_wildcards: &str,
    sighashes: &str,
) -> (r: CETAdaptorSigsRequest)
    ensures
        is_request_of(
            r,
            num_digits,
            num_cets,
            digit_string_template,
            oracle_pubkey,
            signing_key_index,
            signing_pubkey,
            nonces,
            interval_wildcards,
            sighashes,
        ),
{
    CETAdaptorSigsRequest {
        num_digits,
        num_cets,
        digit_string_template: digit_string_template.to_owned(),
        oracle_pubkey: oracle_pubkey.to_owned(),
        signing_key_index,
        signing_pubkey: signing_pubkey.to_owned(),
        nonces: nonces.to_owned(),
        interval_wildcards: interval_wildcards.to_owned(),
        sighashes: sighashes.to_owned(),
    }
}

/// The result of a request for adaptor signatures: the refusal of a
/// malformed request; else, for an index beyond the derivation limit, the
/// error that a derivation at index 0 decides; else the settled outcome of
/// the adaptor engine.
pub open spec fn is_adaptor_result(
    r: Result<String, SignerError>,
    request: &CETAdaptorSigsRequest,
) -> bool {
    match request_refusal(request) {
        Some(e) => r == Err::<String, SignerError>(e),
        None => if request.signing_key_index >= DERIVATION_LIMIT {
            exists|probe: Result<String, String>|
                r == Err::<String, SignerError>(#[trigger] overflow_error_spec(probe))
        } else {
            exists|out: Result<String, String>|
                r == #[trigger] settle_adaptor_sigs_spec(out, request.num_cets)
        },
    }
}

/// Creates one adaptor signature per CET of the request, in the order of
/// its sighashes, as a space-separated list of hexadecimal signatures. The
/// adaptor engine is handed the request as it stands.
///
/// The template is the pattern of the message that the oracle signs for one
/// digit, one byte long per digit. The engine puts the digit's position and
/// value where the template holds their placeholders; a template without
/// them gives every value of a digit the same message.
///
/// A malformed request is refused first, then a missing master key, then an
/// index beyond the derivation limit.
pub fn sign_adaptor_request(request: &CETAdaptorSigsRequest) -> (r: Result<String, SignerError>)
    ensures
        is_adaptor_result(r, request),
        r matches Ok(sigs) ==> is_signature_list(bytes_of(sigs@), request.num_cets),
        r is Ok ==> bytes_of(request.digit_string_template@).len() == request.num_digits,
        field_count(bytes_of(request.nonces@)) != request.num_digits ==> r == Err::<
            String,
            SignerError,
        >(
            SignerError::NonceCountMismatch {
                expected: request.num_digits as u64,
                actual: field_count(bytes_of(request.nonces@)) as u64,
            },
        ),
{
    let refusal = check_adaptor_request(
        request.num_digits,
        request.num_cets,
        request.digit_string_template.as_str().as_bytes(),
        request.oracle_pubkey.as_str().as_bytes(),
        request.signing_pubkey.as_str().as_bytes(),
        request.nonces.as_str().as_bytes(),
        request.interval_wildcards.as_str().as_bytes(),
        request.sighashes.as_str().as_bytes(),
    );
    match refusal {
        Some(e) => Err(e),
        None => {
            if request.signing_key_index >= DERIVATION_LIMIT {
                Err(overflow_error(child_public_key(0)))
            } else {
                settle_adaptor_sigs(adaptor_sign(request), request.num_cets)
            }
        },
    }
}

/// Creates one adaptor signature per CET, as `sign_adaptor_request` does for
/// the request that the arguments make.
pub fn create_cet_adaptor_sigs(
    num_digits: u8,
    num_cets: u64,
    digit_string_template: &str,
    oracle_pubkey: &str,
    signing_key_index: u32,
    signing_pubkey: &str,
    nonces: &str,
    interval_wildcards: &str,
    sighashes: &str,
) -> (r: Result<String, SignerError>)
    ensures
        exists|request: CETAdaptorSigsRequest|
            #![trigger is_adaptor_result(r, &request)]
            is_request_of(
                request,
                num_digits,
                num_cets,
                digit_string_template,
                oracle_pubkey,
                signing_key_index,
                signing_pubkey,
                nonces,
                interval_wildcards,
                sighashes,
            ) && is_adaptor_result(r, &request),
        r matches Ok(sigs) ==> is_signature_list(bytes_of(sigs@), num_cets),
        r is Ok ==> digit_string_template.spec_bytes().len() == num_digits,
        field_count(nonces.spec_bytes()) != num_digits ==> r == Err::<String, SignerError>(
            SignerError::NonceCountMismatch {
                expected: num_digits as u64,
                actual: field_count(nonces.spec_bytes()) as u64,
            },
        ),
{
    let request = adaptor_request(
        num_digits,
        num_cets,
        digit_string_template,
        oracle_pubkey,
        signing_key_index,
        signing_pubkey,
        nonces,
        interval_wildcards,
        sighashes,
    );
    sign_adaptor_request(&request)
}

} // verus!
