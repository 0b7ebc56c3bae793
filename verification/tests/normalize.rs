use mediator::normalize::normalize;

/// A well-formed DID-key token for the given raw key bytes, plus the
/// base58 form the normalizer should produce, built with the same
/// encoders the library itself relies on.
fn did_key_pair(raw_key: &[u8]) -> (String, String) {
    let mut prefixed = vec![0xedu8, 0x01];
    prefixed.extend_from_slice(raw_key);
    let fingerprint = multibase::encode(multibase::Base::Base58Btc, &prefixed);
    let token = format!("did:key:{fingerprint}");
    let expected = bs58::encode(raw_key).into_string();
    (token, expected)
}

#[test]
fn plain_base58_key_passes_through() {
    assert_eq!(normalize("8HH5gYEeNc3z7PYXmd54d4x6qAfCNrqQqEB3nS7Zfu7K"), "8HH5gYEeNc3z7PYXmd54d4x6qAfCNrqQqEB3nS7Zfu7K");
    assert_eq!(normalize(""), "");
    assert_eq!(normalize("not a key at all"), "not a key at all");
}

#[test]
fn did_key_form_normalizes_to_raw_base58() {
    let raw = [7u8; 32];
    let (token, expected) = did_key_pair(&raw);
    assert_eq!(normalize(&token), expected);
}

#[test]
fn normalize_is_idempotent() {
    let raw = [42u8; 32];
    let (token, expected) = did_key_pair(&raw);
    let once = normalize(&token);
    let twice = normalize(&once);
    assert_eq!(once, expected);
    assert_eq!(twice, once);

    // the DID-key form and its raw base58 form normalize to the same key
    assert_eq!(normalize(&expected), once);
}

#[test]
fn malformed_fingerprint_falls_back_to_the_token() {
    // not decodable in any multibase alphabet
    assert_eq!(normalize("did:key:z!!!"), "did:key:z!!!");
    // empty fingerprint
    assert_eq!(normalize("did:key:"), "did:key:");
}

#[test]
fn unknown_key_kind_falls_back_to_the_token() {
    // multicodec tag 0x00 is no verification-key kind
    let mut prefixed = vec![0x00u8];
    prefixed.extend_from_slice(&[9u8; 32]);
    let fingerprint = multibase::encode(multibase::Base::Base58Btc, &prefixed);
    let token = format!("did:key:{fingerprint}");
    assert_eq!(normalize(&token), token);
}

#[test]
fn p256_key_kind_is_accepted() {
    // p-256 multicodec tag 0x1200 is the two-byte varint 0x80 0x24
    let mut prefixed = vec![0x80u8, 0x24];
    prefixed.extend_from_slice(&[3u8; 33]);
    let fingerprint = multibase::encode(multibase::Base::Base58Btc, &prefixed);
    let token = format!("did:key:{fingerprint}");
    assert_eq!(normalize(&token), bs58::encode(&[3u8; 33]).into_string());
}
