use dlc_signer::error::SignerError;
use dlc_signer::service::CETAdaptorSigsRequest;
use dlc_signer::signer::{
    adaptor_request, check_adaptor_request, check_sign_request, create_cet_adaptor_sigs,
    create_deterministic_nonce, curve_network, derive_xpub_from_mnemonic, get_public_key,
    init_with_entropy, main_network, overflow_error, settle_adaptor_sigs, settle_key,
    settle_nonce, settle_signature, settle_xpub, sign_adaptor_request, sign_hash_ecdsa,
    xpub_from_entropy, xpub_from_parsed_mnemonic,
};
use std::str::FromStr;

const NETWORK: &str = "signet";
const TEMPLATE: &str = "dlc";
const LONG_TEMPLATE: &str = "Outcome:ab:{digit_index}:{digit_outcome}";
const EVENT: &str = "btcusd1741474920";
const COUNTING_ENTROPY: &str = "000102030405060708090a0b0c0d0e0f101112131415161718191a1b1c1d1e1f";

static KEY_LOCK: std::sync::Mutex<()> = std::sync::Mutex::new(());

/// The master key is process-wide: a test that installs or reads it holds
/// this lock from its first line to its last.
fn hold_key() -> std::sync::MutexGuard<'static, ()> {
    KEY_LOCK.lock().unwrap_or_else(|poisoned| poisoned.into_inner())
}

fn bytes32(last: u8) -> String {
    format!("{}{:02x}", "00".repeat(31), last)
}

fn unhex(text: &str) -> Vec<u8> {
    let mut out = Vec::new();
    let mut i = 0;
    while i + 2 <= text.len() {
        out.push(u8::from_str_radix(&text[i..i + 2], 16).unwrap());
        i += 2;
    }
    out
}

fn use_master(last: u8) -> String {
    init_with_entropy(&bytes32(last), NETWORK).unwrap()
}

/// Checks a DER signature with a trailing sighash byte, and that it is in low-S form.
fn verifies(sig_hex: &str, hash_hex: &str, pubkey_hex: &str) -> bool {
    let raw = unhex(sig_hex);
    let mut sig = secp256k1::ecdsa::Signature::from_der(&raw[..raw.len() - 1]).unwrap();
    let before = sig.serialize_compact();
    sig.normalize_s();
    assert_eq!(before, sig.serialize_compact());
    let msg = secp256k1::Message::from_digest_slice(&unhex(hash_hex)).unwrap();
    let key = secp256k1::PublicKey::from_str(pubkey_hex).unwrap();
    secp256k1::Secp256k1::verification_only()
        .verify_ecdsa(&msg, &sig, &key)
        .is_ok()
}

fn fields(list: &str) -> Vec<String> {
    list.split(' ')
        .filter(|f| !f.is_empty())
        .map(|f| f.to_string())
        .collect()
}

/// The nonce pairs of the event, one per digit: secrets, and the list of points.
fn oracle_nonces(digits: u32) -> (Vec<String>, String) {
    let mut secrets = Vec::new();
    let mut points = String::new();
    for i in 0..digits {
        let (secret, point) = create_deterministic_nonce(EVENT, i).unwrap();
        secrets.push(secret);
        points += &point;
        points += " ";
    }
    (secrets, points)
}

/// The oracle's attestation of `outcome`, one Schnorr signature per digit.
fn oracle_attests(template: &str, outcome: &str, secrets: &[String]) -> String {
    let mut sigs = String::new();
    for (i, digit) in outcome.chars().enumerate() {
        let msg = template
            .replace("{digit_index}", &format!("{}", i))
            .replace("{digit_outcome}", &format!("{}", digit));
        let sig = dlccryptlib::sign_schnorr_with_nonce_intern(&msg, &secrets[i], 0).unwrap();
        sigs += &sig;
        sigs += " ";
    }
    sigs
}

#[test]
fn init_with_entropy_repeats_its_xpub() {
    let _key = hold_key();
    let first = init_with_entropy(COUNTING_ENTROPY, NETWORK);
    let second = init_with_entropy(COUNTING_ENTROPY, NETWORK);
    assert!(first.is_ok());
    assert_eq!(first, second);
    let xpub = first.unwrap();
    assert_eq!(
        xpub,
        "tpubDCqBfHkcqN36LN8D3zyskVUJ7wJMnSFERUKcT4WE7SuVtGK74jARKKw7j5oYG8HjoTC1eFHAAuH9HM963hLVtj1VHyeFbuGyzGUciDYGyfE"
    );
    assert_ne!(xpub, use_master(0));
}

#[test]
fn mnemonic_gives_the_xpub_of_its_entropy() {
    let _key = hold_key();
    let words24 = format!("{}art", "abandon ".repeat(23));
    let words12 = format!("{}about", "abandon ".repeat(11));
    let from_entropy = init_with_entropy(&"00".repeat(32), NETWORK).unwrap();
    assert_eq!(derive_xpub_from_mnemonic(&words24, NETWORK), Ok(from_entropy.clone()));
    assert_eq!(
        get_public_key(0).unwrap(),
        "0298720ece754e377af1b2716256e63c2e2427ff6ebdc66c2071c43ae80132ca32"
    );
    let short = derive_xpub_from_mnemonic(&words12, NETWORK).unwrap();
    assert_ne!(short, from_entropy);
    assert_eq!(init_with_entropy(&"00".repeat(16), NETWORK), Ok(short));
}

#[test]
fn mnemonic_with_a_wrong_checksum_or_word_is_refused() {
    let _key = hold_key();
    assert_eq!(
        derive_xpub_from_mnemonic(&format!("{}abandon", "abandon ".repeat(11)), NETWORK),
        Err(SignerError::InvalidMnemonic)
    );
    assert_eq!(
        derive_xpub_from_mnemonic(&format!("{}abouz", "abandon ".repeat(11)), NETWORK),
        Err(SignerError::InvalidMnemonic)
    );
    assert_eq!(derive_xpub_from_mnemonic("", NETWORK), Err(SignerError::InvalidMnemonic));
    assert_eq!(
        derive_xpub_from_mnemonic("abandon about", NETWORK),
        Err(SignerError::InvalidMnemonic)
    );
}

#[test]
fn mnemonic_on_an_unknown_network_is_refused() {
    let _key = hold_key();
    let words12 = format!("{}about", "abandon ".repeat(11));
    assert_eq!(
        derive_xpub_from_mnemonic(&words12, "moonnet"),
        Err(SignerError::InvalidNetwork)
    );
}

#[test]
fn mnemonic_of_an_unsupported_length_is_refused() {
    let _key = hold_key();
    let words18 = format!("{}agent", "abandon ".repeat(17));
    assert_eq!(
        derive_xpub_from_mnemonic(&words18, NETWORK),
        Err(SignerError::InvalidEntropy)
    );
}

#[test]
fn raw_entropy_gives_the_xpub_of_its_hex() {
    let _key = hold_key();
    let bytes: Vec<u8> = (0u8..32).collect();
    assert_eq!(
        xpub_from_entropy(&bytes, NETWORK),
        init_with_entropy(COUNTING_ENTROPY, NETWORK)
    );
    assert_eq!(xpub_from_entropy(&bytes[..15], NETWORK), Err(SignerError::InvalidEntropy));
    assert_eq!(xpub_from_entropy(&[0u8; 65], NETWORK), Err(SignerError::InvalidEntropy));
    assert_eq!(xpub_from_entropy(&[0u8; 24], NETWORK), Err(SignerError::InvalidEntropy));
    assert_eq!(xpub_from_entropy(&[0u8; 32], "Signet"), Err(SignerError::InvalidNetwork));
    assert_eq!(xpub_from_entropy(&[0u8; 15], "Signet"), Err(SignerError::InvalidEntropy));
    assert_eq!(
        xpub_from_parsed_mnemonic(None, NETWORK),
        Err(SignerError::InvalidMnemonic)
    );
    assert_eq!(
        xpub_from_parsed_mnemonic(Some(bytes), NETWORK),
        init_with_entropy(COUNTING_ENTROPY, NETWORK)
    );
}

#[test]
fn init_on_the_main_network_gives_an_xpub() {
    let _key = hold_key();
    let xpub = init_with_entropy(COUNTING_ENTROPY, "bitcoin").unwrap();
    assert!(xpub.starts_with("xpub"));
}

#[test]
fn counting_entropy_on_testnet_gives_one_xpub() {
    let _key = hold_key();
    let first = init_with_entropy(COUNTING_ENTROPY, "testnet");
    let second = init_with_entropy(COUNTING_ENTROPY, "testnet");
    assert_eq!(first, second);
    assert_eq!(
        first,
        Ok("tpubDCqBfHkcqN36LN8D3zyskVUJ7wJMnSFERUKcT4WE7SuVtGK74jARKKw7j5oYG8HjoTC1eFHAAuH9HM963hLVtj1VHyeFbuGyzGUciDYGyfE".to_string())
    );
    assert_eq!(
        init_with_entropy(COUNTING_ENTROPY, "mainnet"),
        init_with_entropy(COUNTING_ENTROPY, "bitcoin")
    );
}

#[test]
fn a_refused_request_leaves_the_master_key() {
    let _key = hold_key();
    use_master(0);
    let before = get_public_key(0);
    assert_eq!(
        init_with_entropy(COUNTING_ENTROPY, "regtest"),
        Err(SignerError::InvalidNetwork)
    );
    assert_eq!(init_with_entropy("00", NETWORK), Err(SignerError::InvalidEntropy));
    assert_eq!(get_public_key(0), before);
}

#[test]
fn init_refuses_an_unknown_network() {
    let _key = hold_key();
    assert_eq!(
        init_with_entropy(COUNTING_ENTROPY, "moonnet"),
        Err(SignerError::InvalidNetwork)
    );
    assert_eq!(init_with_entropy(COUNTING_ENTROPY, ""), Err(SignerError::InvalidNetwork));
}

#[test]
fn network_tags_map_to_two_networks() {
    let _key = hold_key();
    assert!(main_network(b"bitcoin"));
    assert!(main_network(b"mainnet"));
    assert!(!main_network(b"signet"));
    assert!(!main_network(b"testnet"));
    assert_eq!(curve_network(b"bitcoin"), Some("bitcoin"));
    assert_eq!(curve_network(b"mainnet"), Some("bitcoin"));
    assert_eq!(curve_network(b"signet"), Some("signet"));
    assert_eq!(curve_network(b"testnet"), Some("signet"));
    assert_eq!(curve_network(b"signe"), None);
    assert_eq!(curve_network(b"signett"), None);
    assert_eq!(curve_network(b"Testnet"), None);
    assert_eq!(curve_network(b""), None);
}

#[test]
fn init_refuses_bad_entropy() {
    let _key = hold_key();
    assert_eq!(init_with_entropy("", NETWORK), Err(SignerError::InvalidEntropy));
    assert_eq!(
        init_with_entropy(&"0".repeat(33), NETWORK),
        Err(SignerError::InvalidEntropy)
    );
    assert_eq!(
        init_with_entropy(&"0".repeat(30), NETWORK),
        Err(SignerError::InvalidEntropy)
    );
    assert_eq!(
        init_with_entropy(&"0".repeat(130), NETWORK),
        Err(SignerError::InvalidEntropy)
    );
    assert_eq!(
        init_with_entropy(&"zz".repeat(16), NETWORK),
        Err(SignerError::InvalidEntropy)
    );
    assert_eq!(
        init_with_entropy(&"00".repeat(24), NETWORK),
        Err(SignerError::InvalidEntropy)
    );
    assert!(init_with_entropy(&"00".repeat(16), NETWORK).is_ok());
}

#[test]
fn public_keys_of_the_zero_seed() {
    let _key = hold_key();
    use_master(0);
    assert_eq!(
        get_public_key(0).unwrap(),
        "0298720ece754e377af1b2716256e63c2e2427ff6ebdc66c2071c43ae80132ca32"
    );
    assert_eq!(
        get_public_key(3).unwrap(),
        "03b74dc470965932fc976459096526b08a0f939a95e4b72db8f9aadce18a08a72e"
    );
    assert_eq!(get_public_key(0x7fff_ffff).unwrap().len(), 66);
    assert_eq!(get_public_key(0x8000_0000), Err(SignerError::DerivationOverflow));
}

#[test]
fn a_new_master_key_replaces_the_old_one() {
    let _key = hold_key();
    use_master(0);
    let before = get_public_key(0).unwrap();
    use_master(1);
    let after = get_public_key(0).unwrap();
    assert_ne!(before, after);
    assert_eq!(
        after,
        "035bcac7323e9971268213a188d8268277abcd962cdf096e68e2b58c228216f104"
    );
}

#[test]
fn signing_twice_gives_the_same_signature() {
    let _key = hold_key();
    use_master(0);
    let key = get_public_key(0).unwrap();
    let first = sign_hash_ecdsa(&bytes32(7), 0, &key).unwrap();
    let second = sign_hash_ecdsa(&bytes32(7), 0, &key).unwrap();
    assert_eq!(first, second);
    assert_ne!(first, sign_hash_ecdsa(&bytes32(8), 0, &key).unwrap());
}

#[test]
fn signature_verifies_under_the_signer_key() {
    let _key = hold_key();
    use_master(0);
    let key = get_public_key(0).unwrap();
    let sig = sign_hash_ecdsa(&bytes32(7), 0, &key).unwrap();
    assert!(verifies(&sig, &bytes32(7), &key));
    assert!(!verifies(&sig, &bytes32(8), &key));
}

#[test]
fn the_key_that_signs_is_the_key_that_is_derived() {
    let _key = hold_key();
    use_master(5);
    for index in [0u32, 1, 2, 17, 0x7fff_ffff] {
        let key = get_public_key(index).unwrap();
        let sig = sign_hash_ecdsa(&bytes32(9), index, &key).unwrap();
        assert!(verifies(&sig, &bytes32(9), &key));
    }
}

#[test]
fn signing_with_another_key_is_a_mismatch() {
    let _key = hold_key();
    use_master(0);
    let other = get_public_key(1).unwrap();
    assert_eq!(
        sign_hash_ecdsa(&bytes32(7), 0, &other),
        Err(SignerError::SignerMismatch)
    );
}

#[test]
fn signing_refuses_malformed_requests() {
    let _key = hold_key();
    use_master(0);
    let key = get_public_key(0).unwrap();
    assert_eq!(
        sign_hash_ecdsa(&"00".repeat(31), 0, &key),
        Err(SignerError::InvalidHashLength)
    );
    assert_eq!(
        sign_hash_ecdsa(&"00".repeat(33), 0, &key),
        Err(SignerError::InvalidHashLength)
    );
    assert_eq!(sign_hash_ecdsa("", 0, &key), Err(SignerError::InvalidHashLength));
    assert_eq!(
        sign_hash_ecdsa(&"0g".repeat(32), 0, &key),
        Err(SignerError::InvalidInputEncoding)
    );
    assert_eq!(
        sign_hash_ecdsa(&bytes32(7), 0, "02"),
        Err(SignerError::InvalidPoint)
    );
    assert_eq!(
        sign_hash_ecdsa(&bytes32(7), 0, &format!("02{}", "ff".repeat(32))),
        Err(SignerError::InvalidPoint)
    );
    assert_eq!(
        sign_hash_ecdsa(&bytes32(7), 0x8000_0000, &key),
        Err(SignerError::DerivationOverflow)
    );
}

#[test]
fn sign_request_checks_in_order() {
    let _key = hold_key();
    let key = b"0298720ece754e377af1b2716256e63c2e2427ff6ebdc66c2071c43ae80132ca32";
    let hash = bytes32(1);
    assert_eq!(check_sign_request(hash.as_bytes(), key), None);
    assert_eq!(check_sign_request(b"00", b"zz"), Some(SignerError::InvalidHashLength));
    assert_eq!(
        check_sign_request("zz".repeat(32).as_bytes(), b"zz"),
        Some(SignerError::InvalidInputEncoding)
    );
    assert_eq!(
        check_sign_request(hash.as_bytes(), b"zz"),
        Some(SignerError::InvalidPoint)
    );
    assert_eq!(
        check_sign_request(hash.as_bytes(), format!("04{}", "11".repeat(32)).as_bytes()),
        Some(SignerError::InvalidPoint)
    );
}

#[test]
fn overflow_error_reports_a_missing_key_first() {
    let _key = hold_key();
    assert_eq!(
        overflow_error(Err("Library not initialized!".to_string())),
        SignerError::KeyNotInitialized
    );
    assert_eq!(
        overflow_error(Err("HDWalletStorage not initialized!".to_string())),
        SignerError::KeyNotInitialized
    );
    assert_eq!(
        overflow_error(Err("unforeseen".to_string())),
        SignerError::DerivationOverflow
    );
    assert_eq!(overflow_error(Ok("02ab".to_string())), SignerError::DerivationOverflow);
}

#[test]
fn settle_xpub_wants_the_serialized_key_of_the_network() {
    let _key = hold_key();
    let test_key = format!("tpub{}", "D".repeat(107));
    let main_key = format!("xpub{}", "6".repeat(107));
    assert_eq!(settle_xpub(Ok(test_key.clone()), true), Ok(test_key.clone()));
    assert_eq!(settle_xpub(Ok(main_key.clone()), false), Ok(main_key.clone()));
    assert_eq!(
        settle_xpub(Ok(test_key.clone()), false),
        Err(SignerError::InternalCurveError)
    );
    assert_eq!(settle_xpub(Ok(main_key), true), Err(SignerError::InternalCurveError));
    assert_eq!(
        settle_xpub(Ok(COUNTING_ENTROPY.to_string()), true),
        Err(SignerError::InternalCurveError)
    );
    assert_eq!(settle_xpub(Ok(String::new()), true), Err(SignerError::InternalCurveError));
    assert_eq!(
        settle_xpub(Ok(format!("tpub{}", "D".repeat(106))), true),
        Err(SignerError::InternalCurveError)
    );
    assert_eq!(
        settle_xpub(Ok(format!("tpub{}", "0".repeat(107))), true),
        Err(SignerError::InternalCurveError)
    );
    assert_eq!(
        settle_xpub(Err("Library not initialized!".to_string()), true),
        Err(SignerError::KeyNotInitialized)
    );
    assert_eq!(
        settle_xpub(Err("unforeseen".to_string()), false),
        Err(SignerError::InternalCurveError)
    );
}

#[test]
fn nonce_is_the_hash_of_event_and_index() {
    let _key = hold_key();
    let (secret, point) = create_deterministic_nonce("event01", 0).unwrap();
    assert_eq!(
        secret,
        "062b7fb52d2503ed7ac59207addba64aad74c1ede85fe8e44d88a01e3c68ee76"
    );
    assert_eq!(point.len(), 66);
    let (secret1, point1) = create_deterministic_nonce("event01", 1).unwrap();
    assert_eq!(
        secret1,
        "fabd43b23b45171d4f4e07e66bb97cec2078e48b5764ccc0f2154ba9dcacfb95"
    );
    assert_ne!(point, point1);
    let key = secp256k1::SecretKey::from_slice(&unhex(&secret)).unwrap();
    let expected = secp256k1::PublicKey::from_secret_key(&secp256k1::Secp256k1::new(), &key);
    assert_eq!(point, expected.to_string());
}

#[test]
fn nonce_twice_gives_the_same_pair() {
    let _key = hold_key();
    let first = create_deterministic_nonce(EVENT, 4);
    use_master(2);
    let second = create_deterministic_nonce(EVENT, 4);
    assert!(first.is_ok());
    assert_eq!(first, second);
}

#[test]
fn nonce_refuses_an_empty_event() {
    let _key = hold_key();
    assert_eq!(create_deterministic_nonce("", 0), Err(SignerError::InvalidEventId));
}

#[test]
fn settle_nonce_passes_a_well_formed_pair() {
    let _key = hold_key();
    let secret = "0a".repeat(32);
    let point = format!("02{}", "0b".repeat(32));
    assert_eq!(
        settle_nonce(Some((secret.clone(), point.clone()))),
        Ok((secret.clone(), point.clone()))
    );
    assert_eq!(
        settle_nonce(Some((point.clone(), point.clone()))),
        Err(SignerError::InternalCurveError)
    );
    assert_eq!(
        settle_nonce(Some((secret.clone(), format!("04{}", "0b".repeat(32))))),
        Err(SignerError::InternalCurveError)
    );
    assert_eq!(
        settle_nonce(Some((secret.clone(), secret))),
        Err(SignerError::InternalCurveError)
    );
    assert_eq!(
        settle_nonce(Some(("a".to_string(), "b".to_string()))),
        Err(SignerError::InternalCurveError)
    );
    assert_eq!(settle_nonce(None), Err(SignerError::InternalCurveError));
}

#[test]
fn settle_key_wants_a_compressed_point() {
    let _key = hold_key();
    let key = format!("03{}", "1c".repeat(32));
    assert_eq!(settle_key(Ok(key.clone())), Ok(key));
    assert_eq!(settle_key(Ok("03".to_string())), Err(SignerError::InternalCurveError));
    assert_eq!(
        settle_key(Ok(format!("04{}", "1c".repeat(32)))),
        Err(SignerError::InternalCurveError)
    );
    assert_eq!(
        settle_key(Ok(format!("12{}", "1c".repeat(32)))),
        Err(SignerError::InternalCurveError)
    );
    assert_eq!(
        settle_key(Ok("zz".repeat(33))),
        Err(SignerError::InternalCurveError)
    );
    assert_eq!(
        settle_key(Err("Library not initialized!".to_string())),
        Err(SignerError::KeyNotInitialized)
    );
    assert_eq!(
        settle_key(Err("unforeseen".to_string())),
        Err(SignerError::InternalCurveError)
    );
}

#[test]
fn settle_signature_wants_der_with_a_low_s() {
    let _key = hold_key();
    let half = "7fffffffffffffffffffffffffffffff5d576e7357a4501ddfe92f46681b20a0";
    let above = "7fffffffffffffffffffffffffffffff5d576e7357a4501ddfe92f46681b20a1";
    let small = "300602010102010101".to_string();
    let at_half = format!("302502010102 20{}01", half).replace(' ', "");
    let over_half = format!("302502010102 20{}01", above).replace(' ', "");
    assert_eq!(settle_signature(Ok(small.clone())), Ok(small));
    assert_eq!(settle_signature(Ok(at_half.clone())), Ok(at_half));
    assert_eq!(
        settle_signature(Ok(over_half)),
        Err(SignerError::InternalCurveError)
    );
    assert_eq!(
        settle_signature(Ok(bytes32(7))),
        Err(SignerError::InternalCurveError)
    );
    assert_eq!(
        settle_signature(Ok("3044".to_string())),
        Err(SignerError::InternalCurveError)
    );
    assert_eq!(
        settle_signature(Ok(String::new())),
        Err(SignerError::InternalCurveError)
    );
    assert_eq!(
        settle_signature(Ok("30060201010201010".to_string())),
        Err(SignerError::InternalCurveError)
    );
    assert_eq!(
        settle_signature(Err("Signer pubkey mismatch, index 3, a vs. b".to_string())),
        Err(SignerError::SignerMismatch)
    );
}

#[test]
fn adaptor_request_keeps_each_part_under_its_name() {
    let _key = hold_key();
    let request = adaptor_request(3, 2, "dlc", "oracle", 7, "signer", "n", "w", "s");
    assert_eq!(
        request,
        CETAdaptorSigsRequest {
            num_digits: 3,
            num_cets: 2,
            digit_string_template: "dlc".to_string(),
            oracle_pubkey: "oracle".to_string(),
            signing_key_index: 7,
            signing_pubkey: "signer".to_string(),
            nonces: "n".to_string(),
            interval_wildcards: "w".to_string(),
            sighashes: "s".to_string(),
        }
    );
}

#[test]
fn the_oracle_key_and_the_signing_key_keep_their_places() {
    let _key = hold_key();
    use_master(3);
    let oracle_key = get_public_key(0).unwrap();
    let (_, nonces) = oracle_nonces(3);
    use_master(2);
    let signer_key = get_public_key(0).unwrap();
    let sighashes = format!("{} {}", bytes32(7), bytes32(8));
    let request = adaptor_request(
        3, 2, TEMPLATE, &oracle_key, 0, &signer_key, &nonces, "000 1??", &sighashes,
    );
    let sigs = sign_adaptor_request(&request).unwrap();
    assert_eq!(
        dlccryptlib::verify_cet_adaptor_sigs_intern(
            3, 2, TEMPLATE, &oracle_key, &signer_key, &nonces, "000 1??", &sighashes, &sigs,
        ),
        Ok(true)
    );
    let swapped = adaptor_request(
        3, 2, TEMPLATE, &signer_key, 0, &oracle_key, &nonces, "000 1??", &sighashes,
    );
    assert_eq!(sign_adaptor_request(&swapped), Err(SignerError::SignerMismatch));
}

#[test]
fn settle_adaptor_sigs_wants_one_signature_per_cet() {
    let _key = hold_key();
    let sig = "ab".repeat(162);
    let two = format!("{} {} ", sig, sig);
    assert_eq!(settle_adaptor_sigs(Ok(two.clone()), 2), Ok(two.clone()));
    assert_eq!(
        settle_adaptor_sigs(Ok(two.clone()), 3),
        Err(SignerError::InternalCurveError)
    );
    assert_eq!(
        settle_adaptor_sigs(Ok(two), 1),
        Err(SignerError::InternalCurveError)
    );
    assert_eq!(
        settle_adaptor_sigs(Ok(format!("{} {}", sig, "ab".repeat(161))), 2),
        Err(SignerError::InternalCurveError)
    );
    assert_eq!(
        settle_adaptor_sigs(Ok(format!("{} {}", sig, "xy".repeat(162))), 2),
        Err(SignerError::InternalCurveError)
    );
    assert_eq!(settle_adaptor_sigs(Ok(String::new()), 0), Ok(String::new()));
    assert_eq!(
        settle_adaptor_sigs(Err("the sum of public keys was invalid".to_string()), 2),
        Err(SignerError::AdaptorConstructionFailure)
    );
    assert_eq!(
        settle_adaptor_sigs(Err("Signer pubkey mismatch, index 0".to_string()), 2),
        Err(SignerError::SignerMismatch)
    );
}

#[test]
fn three_digits_two_cets_give_two_adaptor_signatures() {
    let _key = hold_key();
    use_master(3);
    let oracle_key = get_public_key(0).unwrap();
    let (secrets, nonces) = oracle_nonces(3);
    let outcomes = "000 1??";
    let sighashes = format!("{} {}", bytes32(7), bytes32(8));

    use_master(2);
    let signer_key = get_public_key(0).unwrap();
    let sigs = create_cet_adaptor_sigs(
        3, 2, TEMPLATE, &oracle_key, 0, &signer_key, &nonces, outcomes, &sighashes,
    )
    .unwrap();
    let sig_list = fields(&sigs);
    assert_eq!(sig_list.len(), 2);
    assert_eq!(sig_list[0].len(), 324);
    assert_eq!(sig_list[1].len(), 324);
    assert_eq!(
        dlccryptlib::verify_cet_adaptor_sigs_intern(
            3, 2, TEMPLATE, &oracle_key, &signer_key, &nonces, outcomes, &sighashes, &sigs,
        ),
        Ok(true)
    );

    // Each signature, completed with the oracle's attestation of its outcome,
    // verifies under the signing key for its own sighash.
    let cases = [("000", "000", bytes32(7)), ("1??", "149", bytes32(8))];
    for (i, (outcome, attested, sighash)) in cases.iter().enumerate() {
        use_master(3);
        let attestation = oracle_attests(TEMPLATE, attested, &secrets);
        use_master(1);
        let my_key = get_public_key(0).unwrap();
        let finals = dlccryptlib::create_final_cet_sigs_intern(
            0, &my_key, &signer_key, 3, &attestation, outcome, sighash, &sig_list[i],
        )
        .unwrap();
        let final_list = fields(&finals);
        assert_eq!(final_list.len(), 2);
        assert!(verifies(&final_list[0], sighash, &signer_key));
        assert!(!verifies(&final_list[0], &bytes32(9), &signer_key));
    }

    // An attestation of other messages does not complete the signature.
    use_master(3);
    let wrong = oracle_attests("xyz", "000", &secrets);
    use_master(1);
    let my_key = get_public_key(0).unwrap();
    assert!(dlccryptlib::create_final_cet_sigs_intern(
        0, &my_key, &signer_key, 3, &wrong, "000", &bytes32(7), &sig_list[0],
    )
    .is_err());
}

#[test]
fn a_template_with_placeholders_binds_each_digit() {
    let _key = hold_key();
    assert_eq!(LONG_TEMPLATE.len(), 40);
    use_master(3);
    let oracle_key = get_public_key(0).unwrap();
    let (secrets, nonces) = oracle_nonces(40);
    let outcome = format!("9534{}", "?".repeat(36));
    let attested = format!("9534{}", "7".repeat(36));
    let other = format!("9535{}", "7".repeat(36));
    let sighash = bytes32(7);

    use_master(2);
    let signer_key = get_public_key(0).unwrap();
    let sigs = create_cet_adaptor_sigs(
        40, 1, LONG_TEMPLATE, &oracle_key, 0, &signer_key, &nonces, &outcome, &sighash,
    )
    .unwrap();
    let sig_list = fields(&sigs);
    assert_eq!(sig_list.len(), 1);

    use_master(3);
    let attestation = oracle_attests(LONG_TEMPLATE, &attested, &secrets);
    let wrong = oracle_attests(LONG_TEMPLATE, &other, &secrets);
    use_master(1);
    let my_key = get_public_key(0).unwrap();
    let finals = dlccryptlib::create_final_cet_sigs_intern(
        0, &my_key, &signer_key, 40, &attestation, &outcome, &sighash, &sig_list[0],
    )
    .unwrap();
    assert!(verifies(&fields(&finals)[0], &sighash, &signer_key));
    assert!(dlccryptlib::create_final_cet_sigs_intern(
        0, &my_key, &signer_key, 40, &wrong, &outcome, &sighash, &sig_list[0],
    )
    .is_err());
}

#[test]
fn a_template_of_another_length_is_refused() {
    let _key = hold_key();
    use_master(2);
    let key = get_public_key(0).unwrap();
    let (_, nonces) = oracle_nonces(3);
    let sighashes = format!("{} {}", bytes32(7), bytes32(8));
    assert_eq!(
        create_cet_adaptor_sigs(3, 2, LONG_TEMPLATE, &key, 0, &key, &nonces, "000 1??", &sighashes),
        Err(SignerError::DigitCountMismatch)
    );
    assert_eq!(
        create_cet_adaptor_sigs(3, 2, "dl", &key, 0, &key, &nonces, "000 1??", &sighashes),
        Err(SignerError::DigitCountMismatch)
    );
    assert_eq!(
        create_cet_adaptor_sigs(3, 2, "", &key, 0, &key, &nonces, "000 1??", &sighashes),
        Err(SignerError::DigitCountMismatch)
    );
}

#[test]
fn adaptor_signatures_refuse_count_mismatches() {
    let _key = hold_key();
    use_master(2);
    let key = get_public_key(0).unwrap();
    let (_, nonces) = oracle_nonces(3);
    let (_, two_nonces) = oracle_nonces(2);
    let sighashes = format!("{} {}", bytes32(7), bytes32(8));
    assert_eq!(
        create_cet_adaptor_sigs(3, 2, TEMPLATE, &key, 0, &key, &two_nonces, "000 1??", &sighashes),
        Err(SignerError::NonceCountMismatch { expected: 3, actual: 2 })
    );
    assert_eq!(
        create_cet_adaptor_sigs(2, 2, "dl", &key, 0, &key, &nonces, "00 1?", &sighashes),
        Err(SignerError::NonceCountMismatch { expected: 2, actual: 3 })
    );
    assert_eq!(
        create_cet_adaptor_sigs(3, 2, TEMPLATE, &key, 0, &key, &nonces, "000", &sighashes),
        Err(SignerError::CountMismatch { expected: 2, actual: 1 })
    );
    assert_eq!(
        create_cet_adaptor_sigs(3, 2, TEMPLATE, &key, 0, &key, &nonces, "000 1??", &bytes32(7)),
        Err(SignerError::CountMismatch { expected: 2, actual: 1 })
    );
    assert_eq!(
        create_cet_adaptor_sigs(3, 1, TEMPLATE, &key, 0, &key, &nonces, "000", &sighashes),
        Err(SignerError::CountMismatch { expected: 1, actual: 2 })
    );
    assert_eq!(
        create_cet_adaptor_sigs(3, 2, TEMPLATE, &key, 0, &key, &nonces, "000 1?", &sighashes),
        Err(SignerError::DigitCountMismatch)
    );
    assert_eq!(
        create_cet_adaptor_sigs(3, 2, TEMPLATE, &key, 0, &key, &nonces, "0000 1???", &sighashes),
        Err(SignerError::DigitCountMismatch)
    );
}

#[test]
fn adaptor_signatures_refuse_malformed_fields() {
    let _key = hold_key();
    use_master(2);
    let key = get_public_key(0).unwrap();
    let other = get_public_key(1).unwrap();
    let (_, nonces) = oracle_nonces(3);
    let sighashes = format!("{} {}", bytes32(7), bytes32(8));
    let off_curve = format!("02{}", "ff".repeat(32));
    assert_eq!(
        create_cet_adaptor_sigs(3, 2, TEMPLATE, "0g", 0, &key, &nonces, "000 1??", &sighashes),
        Err(SignerError::InvalidOraclePubkey)
    );
    assert_eq!(
        create_cet_adaptor_sigs(3, 2, TEMPLATE, &off_curve, 0, &key, &nonces, "000 1??", &sighashes),
        Err(SignerError::InvalidOraclePubkey)
    );
    assert_eq!(
        create_cet_adaptor_sigs(3, 2, TEMPLATE, &key, 0, "02", &nonces, "000 1??", &sighashes),
        Err(SignerError::InvalidPoint)
    );
    assert_eq!(
        create_cet_adaptor_sigs(3, 2, TEMPLATE, &key, 0, &key, "02 03 04", "000 1??", &sighashes),
        Err(SignerError::InvalidPoint)
    );
    assert_eq!(
        create_cet_adaptor_sigs(3, 2, TEMPLATE, &key, 0, &key, &nonces, "000 1??", "07 08"),
        Err(SignerError::InvalidHashLength)
    );
    assert_eq!(
        create_cet_adaptor_sigs(3, 2, TEMPLATE, &key, 0, &key, &nonces, "000 1??", "xx yy"),
        Err(SignerError::InvalidInputEncoding)
    );
    assert_eq!(
        create_cet_adaptor_sigs(3, 2, TEMPLATE, &key, 0, &key, &nonces, "000 1\t\t", &sighashes),
        Err(SignerError::InvalidInputEncoding)
    );
    assert_eq!(
        create_cet_adaptor_sigs(
            3, 2, TEMPLATE, &key, 0x8000_0000, &key, &nonces, "000 1??", &sighashes,
        ),
        Err(SignerError::DerivationOverflow)
    );
    assert_eq!(
        create_cet_adaptor_sigs(3, 2, TEMPLATE, &key, 0, &other, &nonces, "000 1??", &sighashes),
        Err(SignerError::SignerMismatch)
    );
}

#[test]
fn an_outcome_without_a_digit_has_no_adaptor_point() {
    let _key = hold_key();
    use_master(2);
    let key = get_public_key(0).unwrap();
    let (_, nonces) = oracle_nonces(3);
    let sighashes = format!("{} {}", bytes32(7), bytes32(8));
    assert_eq!(
        create_cet_adaptor_sigs(3, 2, TEMPLATE, &key, 0, &key, &nonces, "000 ???", &sighashes),
        Err(SignerError::AdaptorConstructionFailure)
    );
    assert_eq!(
        check_adaptor_request(
            3,
            2,
            b"dlc",
            key.as_bytes(),
            key.as_bytes(),
            nonces.as_bytes(),
            b"*** 000",
            sighashes.as_bytes(),
        ),
        Some(SignerError::AdaptorConstructionFailure)
    );
    assert_eq!(
        check_adaptor_request(
            3,
            2,
            b"dlc",
            key.as_bytes(),
            key.as_bytes(),
            nonces.as_bytes(),
            b"**7 0??",
            sighashes.as_bytes(),
        ),
        None
    );
}

#[test]
fn adaptor_request_checks_nonces_first() {
    let _key = hold_key();
    assert_eq!(
        check_adaptor_request(3, 2, b"", b"", b"", b"a b", b"", b""),
        Some(SignerError::NonceCountMismatch { expected: 3, actual: 2 })
    );
    assert_eq!(
        check_adaptor_request(0, 0, b"", b"", b"", b"", b"", b""),
        Some(SignerError::InvalidOraclePubkey)
    );
    assert_eq!(
        check_adaptor_request(0, 0, b"d", b"", b"", b"", b"", b""),
        Some(SignerError::DigitCountMismatch)
    );
}
