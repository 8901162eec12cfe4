use nkeys::KeyPair;
use wascap::errors::ErrorKind;
use wascap::hash::compute_hash_without_jwt;
use wascap::jwt::{Actor, Claims, ClaimsCodec, WASCAP_INTERNAL_REVISION};
use wascap::sections::{scan_module, Section};
use wascap::wasm::{
    check_claims, check_decoded, days_from_to_jwt_time, finish_embedding, embed_claims, extract_claims, find_claim_section,
    sign_buffer_with_claims,
};

const WASM_BASE64: &str =
    "AGFzbQEAAAAADAZkeWxpbmuAgMACAAGKgICAAAJgAn9/AX9gAAACwYCAgAAEA2VudgptZW1vcnlCYXNl\
     A38AA2VudgZtZW1vcnkCAIACA2VudgV0YWJsZQFwAAADZW52CXRhYmxlQmFzZQN/AAOEgICAAAMAAQEGi\
     4CAgAACfwFBAAt/AUEACwejgICAAAIKX3RyYW5zZm9ybQAAEl9fcG9zdF9pbnN0YW50aWF0ZQACCYGAgI\
     AAAArpgICAAAPBgICAAAECfwJ/IABBAEoEQEEAIQIFIAAPCwNAIAEgAmoiAywAAEHpAEYEQCADQfkAOgA\
     ACyACQQFqIgIgAEcNAAsgAAsLg4CAgAAAAQuVgICAAAACQCMAJAIjAkGAgMACaiQDEAELCw==";

const MESSAGING: &str = "wasmcloud:messaging";
const KEY_VALUE: &str = "wasmcloud:keyvalue";
const LOGGING: &str = "wasmcloud:builtin:logging";

/// A codec that writes claims as plain lines of text; no real signature.
struct TextCodec;

fn opt_list(v: &Option<Vec<String>>) -> String {
    match v {
        Some(items) => format!("+{}", items.join(",")),
        None => "-".to_string(),
    }
}

fn parse_list(s: &str) -> Option<Vec<String>> {
    match s.strip_prefix('+') {
        Some("") => Some(vec![]),
        Some(rest) => Some(rest.split(',').map(|x| x.to_string()).collect()),
        None => None,
    }
}

impl ClaimsCodec for TextCodec {
    fn decode(&self, jwt: &str) -> Result<Claims, String> {
        let f: Vec<&str> = jwt.split('\n').collect();
        if f.len() != 8 || f[0] != "claims" {
            return Err("not a token".to_string());
        }
        let metadata = if f[5] == "~" {
            None
        } else {
            Some(Actor {
                name: Some(f[4].to_string()),
                module_hash: f[5].to_string(),
                tags: None,
                caps: parse_list(f[6]),
                rev: None,
                ver: None,
                provider: false,
                call_alias: None,
            })
        };
        Ok(Claims {
            expires: None,
            id: String::new(),
            issued_at: 0,
            issuer: f[1].to_string(),
            subject: f[2].to_string(),
            not_before: None,
            metadata,
            wascap_revision: f[3].parse().ok(),
        })
    }

    fn encode(&self, claims: &Claims, _kp: &KeyPair) -> Result<String, String> {
        let (name, hash, caps) = match &claims.metadata {
            Some(a) => (a.name.clone().unwrap_or_default(), a.module_hash.clone(), opt_list(&a.caps)),
            None => (String::new(), "~".to_string(), "-".to_string()),
        };
        let rev = claims.wascap_revision.map(|r| r.to_string()).unwrap_or_default();
        Ok(format!(
            "claims\n{}\n{}\n{}\n{}\n{}\n{}\nend",
            claims.issuer, claims.subject, rev, name, hash, caps
        ))
    }
}

/// A codec that refuses everything.
struct BrokenCodec;

impl ClaimsCodec for BrokenCodec {
    fn decode(&self, _jwt: &str) -> Result<Claims, String> {
        Err("bad signature".to_string())
    }

    fn encode(&self, _claims: &Claims, _kp: &KeyPair) -> Result<String, String> {
        Err("no seed".to_string())
    }
}

fn base_module() -> Vec<u8> {
    data_encoding::BASE64.decode(WASM_BASE64.as_bytes()).unwrap()
}

/// A small module: one function whose body is `00 01 0b`, and one data
/// segment holding the byte `2a`.
fn small_module() -> Vec<u8> {
    let mut m = vec![0x00, 0x61, 0x73, 0x6d, 0x01, 0x00, 0x00, 0x00];
    m.extend_from_slice(&[0x01, 0x04, 0x01, 0x60, 0x00, 0x00]);
    m.extend_from_slice(&[0x03, 0x02, 0x01, 0x00]);
    m.extend_from_slice(&[0x0a, 0x05, 0x01, 0x03, 0x00, 0x01, 0x0b]);
    m.extend_from_slice(&[0x0b, 0x07, 0x01, 0x00, 0x41, 0x00, 0x0b, 0x01, 0x2a]);
    m
}

fn leb128(mut n: usize, out: &mut Vec<u8>) {
    loop {
        let low = (n % 128) as u8;
        n /= 128;
        if n == 0 {
            out.push(low);
            return;
        }
        out.push(low | 0x80);
    }
}

fn custom_section(name: &str, data: &[u8]) -> Vec<u8> {
    let mut payload = Vec::new();
    leb128(name.len(), &mut payload);
    payload.extend_from_slice(name.as_bytes());
    payload.extend_from_slice(data);
    let mut s = vec![0u8];
    leb128(payload.len(), &mut s);
    s.extend_from_slice(&payload);
    s
}

fn claims_for(kp: &KeyPair, caps: Vec<String>, revision: u32) -> Claims {
    Claims {
        metadata: Some(Actor::new(
            "testing".to_string(),
            Some(caps),
            Some(vec![]),
            false,
            Some(1),
            Some("".to_string()),
            None,
        )),
        expires: None,
        id: "an-id".to_string(),
        issued_at: 0,
        issuer: kp.public_key(),
        subject: "test.wasm".to_string(),
        not_before: None,
        wascap_revision: Some(revision),
    }
}

#[test]
fn claims_roundtrip() {
    let dec_module = base_module();
    let kp = KeyPair::new_account();
    let claims = claims_for(&kp, vec![MESSAGING.to_string(), KEY_VALUE.to_string()], WASCAP_INTERNAL_REVISION);
    let modified_bytecode = embed_claims(&dec_module, &claims, &kp, &TextCodec).unwrap();
    println!("Added {} bytes in custom section.", modified_bytecode.len() - dec_module.len());
    if let Some(token) = extract_claims(&modified_bytecode, &TextCodec).unwrap() {
        assert_eq!(claims.issuer, token.claims.issuer);
        assert_eq!(claims.metadata.as_ref().unwrap().caps, token.claims.metadata.as_ref().unwrap().caps);
    } else {
        unreachable!()
    }
}

#[test]
fn claims_logging_roundtrip() {
    let dec_module = base_module();
    let kp = KeyPair::new_account();
    let claims = claims_for(&kp, vec![MESSAGING.to_string(), LOGGING.to_string()], WASCAP_INTERNAL_REVISION);
    let modified_bytecode = embed_claims(&dec_module, &claims, &kp, &TextCodec).unwrap();
    println!("Added {} bytes in custom section.", modified_bytecode.len() - dec_module.len());
    if let Some(token) = extract_claims(&modified_bytecode, &TextCodec).unwrap() {
        assert_eq!(claims.issuer, token.claims.issuer);
        assert_eq!(claims.subject, token.claims.subject);
    } else {
        unreachable!()
    }
}

#[test]
fn canonical_hash_of_small_module() {
    // the digest of the body bytes 00 01 0b followed by the data byte 2a
    assert_eq!(
        compute_hash_without_jwt(&small_module()).unwrap(),
        "0004CDF3F55CE49E89D5F990B42F5E478FE4DA7257ABB3CB29E8218DE468E154"
    );
}

#[test]
fn canonical_hash_ignores_claim_sections_only() {
    let m = small_module();
    let h = compute_hash_without_jwt(&m).unwrap();
    let mut with_claim = m.clone();
    with_claim.extend_from_slice(&custom_section("jwt", b"whatever"));
    assert_eq!(compute_hash_without_jwt(&with_claim).unwrap(), h);
    let mut with_other = m.clone();
    with_other.extend_from_slice(&custom_section("notes", b"whatever"));
    assert_ne!(compute_hash_without_jwt(&with_other).unwrap(), h);
}

#[test]
fn embedding_keeps_canonical_hash() {
    let m = base_module();
    let kp = KeyPair::new_account();
    let claims = claims_for(&kp, vec![MESSAGING.to_string()], WASCAP_INTERNAL_REVISION);
    let once = embed_claims(&m, &claims, &kp, &TextCodec).unwrap();
    let twice = embed_claims(&once, &claims, &kp, &TextCodec).unwrap();
    let h = compute_hash_without_jwt(&m).unwrap();
    assert_eq!(compute_hash_without_jwt(&once).unwrap(), h);
    assert_eq!(compute_hash_without_jwt(&twice).unwrap(), h);
    assert!(extract_claims(&twice, &TextCodec).unwrap().is_some());
}

#[test]
fn embedded_module_records_its_hash() {
    let m = small_module();
    let kp = KeyPair::new_account();
    let claims = claims_for(&kp, vec![KEY_VALUE.to_string()], WASCAP_INTERNAL_REVISION);
    let out = embed_claims(&m, &claims, &kp, &TextCodec).unwrap();
    let token = extract_claims(&out, &TextCodec).unwrap().unwrap();
    assert_eq!(
        token.claims.metadata.unwrap().module_hash,
        "0004CDF3F55CE49E89D5F990B42F5E478FE4DA7257ABB3CB29E8218DE468E154"
    );
}

#[test]
fn tampered_code_is_detected() {
    let m = small_module();
    let kp = KeyPair::new_account();
    let claims = claims_for(&kp, vec![MESSAGING.to_string()], WASCAP_INTERNAL_REVISION);
    let mut out = embed_claims(&m, &claims, &kp, &TextCodec).unwrap();
    // the `nop` inside the function body
    assert_eq!(out[23], 0x01);
    out[23] = 0x02;
    assert!(matches!(extract_claims(&out, &TextCodec), Err(ErrorKind::InvalidModuleHash)));
}

#[test]
fn tampered_data_is_detected() {
    let m = small_module();
    let kp = KeyPair::new_account();
    let claims = claims_for(&kp, vec![MESSAGING.to_string()], WASCAP_INTERNAL_REVISION);
    let mut out = embed_claims(&m, &claims, &kp, &TextCodec).unwrap();
    assert_eq!(out[33], 0x2a);
    out[33] = 0x2b;
    assert!(matches!(extract_claims(&out, &TextCodec), Err(ErrorKind::InvalidModuleHash)));
}

#[test]
fn legacy_revision_mismatch_is_accepted() {
    let m = small_module();
    let kp = KeyPair::new_account();
    let claims = claims_for(&kp, vec![MESSAGING.to_string()], 2);
    let mut out = embed_claims(&m, &claims, &kp, &TextCodec).unwrap();
    out[33] = 0x2b;
    let token = extract_claims(&out, &TextCodec).unwrap().unwrap();
    assert_eq!(token.claims.wascap_revision, Some(2));
}

#[test]
fn no_claim_section_gives_none() {
    assert!(extract_claims(&small_module(), &TextCodec).unwrap().is_none());
    let mut m = small_module();
    m.extend_from_slice(&custom_section("jwt2", b"x"));
    assert!(extract_claims(&m, &BrokenCodec).unwrap().is_none());
}

#[test]
fn extraction_is_repeatable() {
    let m = base_module();
    let kp = KeyPair::new_account();
    let claims = claims_for(&kp, vec![MESSAGING.to_string(), KEY_VALUE.to_string()], WASCAP_INTERNAL_REVISION);
    let out = embed_claims(&m, &claims, &kp, &TextCodec).unwrap();
    let a = extract_claims(&out, &TextCodec).unwrap().unwrap();
    let b = extract_claims(&out, &TextCodec).unwrap().unwrap();
    assert_eq!(a.jwt, b.jwt);
    assert_eq!(a.claims.issuer, b.claims.issuer);
    assert_eq!(a.claims.subject, b.claims.subject);
    assert_eq!(a.claims.metadata.unwrap().caps, b.claims.metadata.unwrap().caps);
}

#[test]
fn concrete_embedding_scenario() {
    let m = small_module();
    let kp = KeyPair::new_account();
    let claims = claims_for(&kp, vec!["messaging".to_string(), "kv".to_string()], WASCAP_INTERNAL_REVISION);
    let out = embed_claims(&m, &claims, &kp, &TextCodec).unwrap();
    let token = extract_claims(&out, &TextCodec).unwrap().unwrap();
    // id byte, size, name length, name, payload
    assert_eq!(out.len() - m.len(), 1 + 2 + 1 + "wasmcloud_jwt".len() + token.jwt.len());
    assert_eq!(&out[..m.len()], &m[..]);
    assert_eq!(token.claims.issuer, kp.public_key());
    assert_eq!(token.claims.subject, "test.wasm");
    assert_eq!(
        token.claims.metadata.unwrap().caps,
        Some(vec!["messaging".to_string(), "kv".to_string()])
    );
}

#[test]
fn first_claim_section_in_scan_order_wins() {
    let kp = KeyPair::new_account();
    let a = TextCodec.encode(&claims_for(&kp, vec!["first".to_string()], 2), &kp).unwrap();
    let b = TextCodec.encode(&claims_for(&kp, vec!["second".to_string()], 2), &kp).unwrap();
    let mut legacy_first = small_module();
    legacy_first.extend_from_slice(&custom_section("jwt", a.as_bytes()));
    legacy_first.extend_from_slice(&custom_section("wasmcloud_jwt", b.as_bytes()));
    let t = extract_claims(&legacy_first, &TextCodec).unwrap().unwrap();
    assert_eq!(t.jwt, a);
    let mut current_first = small_module();
    current_first.extend_from_slice(&custom_section("wasmcloud_jwt", b.as_bytes()));
    current_first.extend_from_slice(&custom_section("jwt", a.as_bytes()));
    let t = extract_claims(&current_first, &TextCodec).unwrap().unwrap();
    assert_eq!(t.jwt, b);
}

#[test]
fn find_claim_section_reports_position() {
    let mut m = small_module();
    m.extend_from_slice(&custom_section("notes", b"n"));
    m.extend_from_slice(&custom_section("wasmcloud_jwt", b"t"));
    let scan = scan_module(&m);
    assert!(scan.complete);
    let i = find_claim_section(&scan.sections).unwrap();
    match &scan.sections[i] {
        Section::Custom { name, data, .. } => {
            assert_eq!(name.as_slice(), b"wasmcloud_jwt");
            assert_eq!(data.as_slice(), b"t");
        }
        _ => unreachable!(),
    }
    assert!(matches!(&scan.sections[i - 1], Section::Custom { .. }));
}

#[test]
fn malformed_module_is_rejected() {
    let mut m = small_module();
    m[0] = 0x01;
    assert!(matches!(extract_claims(&m, &TextCodec), Err(ErrorKind::MalformedContainer)));
    assert_eq!(compute_hash_without_jwt(&m), Err(ErrorKind::MalformedContainer));
    let kp = KeyPair::new_account();
    let claims = claims_for(&kp, vec![], WASCAP_INTERNAL_REVISION);
    assert_eq!(embed_claims(&m, &claims, &kp, &TextCodec), Err(ErrorKind::MalformedContainer));
    let truncated = &small_module()[..20];
    assert_eq!(compute_hash_without_jwt(truncated), Err(ErrorKind::MalformedContainer));
}

#[test]
fn invalid_utf8_claim_is_an_encoding_error() {
    let mut m = small_module();
    m.extend_from_slice(&custom_section("jwt", &[0xff, 0xfe]));
    assert!(matches!(extract_claims(&m, &TextCodec), Err(ErrorKind::Encoding)));
}

#[test]
fn rejected_token_is_invalid() {
    let mut m = small_module();
    m.extend_from_slice(&custom_section("jwt", b"claims"));
    assert!(matches!(extract_claims(&m, &TextCodec), Err(ErrorKind::InvalidToken)));
    assert!(matches!(extract_claims(&m, &BrokenCodec), Err(ErrorKind::InvalidToken)));
}

#[test]
fn claims_without_metadata_are_rejected() {
    let m = small_module();
    let kp = KeyPair::new_account();
    let mut claims = claims_for(&kp, vec![], WASCAP_INTERNAL_REVISION);
    claims.metadata = None;
    let out = embed_claims(&m, &claims, &kp, &TextCodec).unwrap();
    assert!(matches!(extract_claims(&out, &TextCodec), Err(ErrorKind::InvalidAlgorithm)));
}

#[test]
fn signing_failure_is_reported() {
    let kp = KeyPair::new_account();
    let claims = claims_for(&kp, vec![], WASCAP_INTERNAL_REVISION);
    assert_eq!(embed_claims(&small_module(), &claims, &kp, &BrokenCodec), Err(ErrorKind::Signing));
}

#[test]
fn check_claims_compares_hashes() {
    let kp = KeyPair::new_account();
    let mut claims = claims_for(&kp, vec![], WASCAP_INTERNAL_REVISION);
    claims.metadata.as_mut().unwrap().module_hash = "AB".to_string();
    assert!(check_claims("t".to_string(), claims.clone(), &"AB".to_string()).is_ok());
    assert_eq!(
        check_claims("t".to_string(), claims.clone(), &"CD".to_string()).err(),
        Some(ErrorKind::InvalidModuleHash)
    );
    claims.wascap_revision = None;
    assert!(check_claims("t".to_string(), claims, &"CD".to_string()).is_ok());
}

#[test]
fn days_become_absolute_seconds() {
    assert_eq!(days_from_to_jwt_time(1000, None), None);
    assert_eq!(days_from_to_jwt_time(1000, Some(2)), Some(173800));
    assert_eq!(days_from_to_jwt_time(1000, Some(0)), Some(1000));
    assert_eq!(days_from_to_jwt_time(u64::MAX - 5, Some(1)), Some(u64::MAX));
    assert_eq!(days_from_to_jwt_time(0, Some(u64::MAX)), Some(u64::MAX));
}

#[test]
fn signed_buffer_carries_keys_and_caps() {
    let module_kp = KeyPair::new_module();
    let account_kp = KeyPair::new_account();
    let module_pk = module_kp.public_key();
    let account_pk = account_kp.public_key();
    let out = sign_buffer_with_claims(
        "echo".to_string(),
        &small_module(),
        module_kp,
        account_kp,
        Some(30),
        None,
        vec![MESSAGING.to_string()],
        vec!["tag".to_string()],
        false,
        Some(4),
        Some("1.0".to_string()),
        None,
        &TextCodec,
    )
    .unwrap();
    let token = extract_claims(&out, &TextCodec).unwrap().unwrap();
    assert_eq!(token.claims.issuer, account_pk);
    assert_eq!(token.claims.subject, module_pk);
    let meta = token.claims.metadata.unwrap();
    assert_eq!(meta.name, Some("echo".to_string()));
    assert_eq!(meta.caps, Some(vec![MESSAGING.to_string()]));
    assert_eq!(token.claims.wascap_revision, Some(WASCAP_INTERNAL_REVISION));
}

#[test]
fn decided_outcomes_follow_the_codec_answer() {
    let m = small_module();
    let scan = scan_module(&m);
    let kp = KeyPair::new_account();
    let mut claims = claims_for(&kp, vec![], WASCAP_INTERNAL_REVISION);
    let rejected = check_decoded("t".to_string(), Err("bad".to_string()), &scan);
    assert!(matches!(rejected, Err(ErrorKind::InvalidToken)));
    let stale = check_decoded("t".to_string(), Ok(claims.clone()), &scan);
    assert!(matches!(stale, Err(ErrorKind::InvalidModuleHash)));
    claims.metadata.as_mut().unwrap().module_hash =
        "0004CDF3F55CE49E89D5F990B42F5E478FE4DA7257ABB3CB29E8218DE468E154".to_string();
    let fresh = check_decoded("t".to_string(), Ok(claims), &scan).unwrap().unwrap();
    assert_eq!(fresh.jwt, "t");
    let broken = scan_module(&m[..20]);
    assert!(!broken.complete);
    let mut claims = claims_for(&kp, vec![], WASCAP_INTERNAL_REVISION);
    assert!(matches!(
        check_decoded("t".to_string(), Ok(claims.clone()), &broken),
        Err(ErrorKind::MalformedContainer)
    ));
    claims.metadata = None;
    assert!(matches!(
        check_decoded("t".to_string(), Ok(claims), &broken),
        Err(ErrorKind::InvalidAlgorithm)
    ));
}

/// Like `small_module`, with a second data segment holding `2b`.
fn two_segment_module() -> Vec<u8> {
    let mut m = small_module();
    m.truncate(25);
    m.extend_from_slice(&[0x0b, 0x0d, 0x02]);
    m.extend_from_slice(&[0x00, 0x41, 0x00, 0x0b, 0x01, 0x2a]);
    m.extend_from_slice(&[0x00, 0x41, 0x01, 0x0b, 0x01, 0x2b]);
    m
}

#[test]
fn every_data_segment_is_hashed() {
    let m = two_segment_module();
    assert_eq!(
        compute_hash_without_jwt(&m).unwrap(),
        "CBEFA73080801ED1213BF9C2AF1E31D5B9DCECB09B4DC87BCBFC4CDD646E58BE"
    );
    let kp = KeyPair::new_account();
    let claims = claims_for(&kp, vec![MESSAGING.to_string()], WASCAP_INTERNAL_REVISION);
    let mut out = embed_claims(&m, &claims, &kp, &TextCodec).unwrap();
    assert_eq!(out[39], 0x2b);
    out[39] = 0x2c;
    assert!(matches!(extract_claims(&out, &TextCodec), Err(ErrorKind::InvalidModuleHash)));
}

#[test]
fn embedding_keeps_other_claim_fields() {
    let m = small_module();
    let kp = KeyPair::new_account();
    let mut claims = claims_for(&kp, vec![KEY_VALUE.to_string()], WASCAP_INTERNAL_REVISION);
    claims.expires = Some(77);
    claims.not_before = Some(11);
    let out = embed_claims(&m, &claims, &kp, &TextCodec).unwrap();
    let token = extract_claims(&out, &TextCodec).unwrap().unwrap();
    assert_eq!(token.claims.issuer, claims.issuer);
    assert_eq!(token.claims.subject, claims.subject);
    assert_eq!(token.claims.metadata.unwrap().name, Some("testing".to_string()));
}

fn claim_section_count(m: &[u8]) -> usize {
    let scan = scan_module(m);
    assert!(scan.complete);
    scan.sections
        .iter()
        .filter(|s| match s {
            Section::Custom { name, .. } => name.as_slice() == b"jwt" || name.as_slice() == b"wasmcloud_jwt",
            _ => false,
        })
        .count()
}

#[test]
fn reembedding_replaces_claim_section() {
    let m = small_module();
    let kp = KeyPair::new_account();
    let first = claims_for(&kp, vec!["first".to_string()], WASCAP_INTERNAL_REVISION);
    let second = claims_for(&kp, vec!["second".to_string()], WASCAP_INTERNAL_REVISION);
    let once = embed_claims(&m, &first, &kp, &TextCodec).unwrap();
    let twice = embed_claims(&once, &second, &kp, &TextCodec).unwrap();
    assert_eq!(claim_section_count(&twice), 1);
    assert_eq!(&twice[..m.len()], &m[..]);
    let token = extract_claims(&twice, &TextCodec).unwrap().unwrap();
    assert_eq!(token.claims.metadata.unwrap().caps, Some(vec!["second".to_string()]));
    assert_eq!(twice.len() - m.len(), 1 + 2 + 1 + "wasmcloud_jwt".len() + token.jwt.len());
}

#[test]
fn embedding_drops_legacy_claim_sections() {
    let kp = KeyPair::new_account();
    let stale = TextCodec.encode(&claims_for(&kp, vec!["old".to_string()], 2), &kp).unwrap();
    let mut m = small_module();
    m.extend_from_slice(&custom_section("jwt", stale.as_bytes()));
    m.extend_from_slice(&custom_section("notes", b"kept"));
    let fresh = claims_for(&kp, vec!["new".to_string()], WASCAP_INTERNAL_REVISION);
    let out = embed_claims(&m, &fresh, &kp, &TextCodec).unwrap();
    assert_eq!(claim_section_count(&out), 1);
    let mut expected_prefix = small_module();
    expected_prefix.extend_from_slice(&custom_section("notes", b"kept"));
    assert_eq!(&out[..expected_prefix.len()], &expected_prefix[..]);
    let token = extract_claims(&out, &TextCodec).unwrap().unwrap();
    assert_eq!(token.claims.metadata.unwrap().caps, Some(vec!["new".to_string()]));
}

#[test]
fn finishing_embeds_the_codec_answer() {
    let mut m = small_module();
    m.extend_from_slice(&custom_section("wasmcloud_jwt", b"stale"));
    let scan = scan_module(&m);
    assert_eq!(
        finish_embedding(&m, &scan.sections, Err("no seed".to_string())),
        Err(ErrorKind::Signing)
    );
    let out = finish_embedding(&m, &scan.sections, Ok("fresh".to_string())).unwrap();
    let mut expected = small_module();
    expected.extend_from_slice(&custom_section("wasmcloud_jwt", b"fresh"));
    assert_eq!(out, expected);
}
