use line_webhook::compare::constant_time_eq;
use line_webhook::handler::{
    evaluate_request, hello_response, response_body, response_status, webhook_response,
    VerificationOutcome,
};
use line_webhook::signature::{compute_signature, verify};
use line_webhook::store::SecretStore;
use std::sync::Arc;

const SECRET: &[u8] = b"testsecret";
const BODY: &[u8] = b"hello world";

#[test]
fn signature_deterministic() {
    let first = compute_signature(SECRET, BODY);
    let second = compute_signature(SECRET, BODY);
    assert_eq!(first, second);
}

#[test]
fn signature_known_value() {
    let sig = compute_signature(SECRET, BODY);
    assert_eq!(sig, "ciaAS5ik+JNvpKiq371+qVSXrN5bCTU5bn9OyjdGlqk=");
}

#[test]
fn signature_known_value_rfc4231_case_one() {
    let key = vec![0x0bu8; 20];
    let sig = compute_signature(&key, b"Hi There");
    assert_eq!(sig, "sDRMYdjbOFNcqK/OrwvxK4gdwgDJgz2nJuk3bC4yz/c=");
}

#[test]
fn signature_length_is_44() {
    assert_eq!(compute_signature(SECRET, BODY).len(), 44);
    assert_eq!(compute_signature(SECRET, b"").len(), 44);
}

#[test]
fn signature_body_sensitivity() {
    let base = compute_signature(SECRET, BODY);
    let mut mutated = BODY.to_vec();
    for i in 0..mutated.len() {
        mutated[i] ^= 0x01;
        assert_ne!(base, compute_signature(SECRET, &mutated));
        mutated[i] ^= 0x01;
    }
}

#[test]
fn signature_key_sensitivity() {
    let one = compute_signature(b"testsecret", BODY);
    let other = compute_signature(b"testsecreT", BODY);
    assert_ne!(one, other);
    let third = compute_signature(b"", BODY);
    assert_ne!(one, third);
}

#[test]
fn round_trip_acceptance() {
    let sig = compute_signature(SECRET, BODY);
    assert!(verify(SECRET, BODY, &sig));
    let (status, body) = webhook_response(SECRET, Some(&sig), BODY);
    assert_eq!(status, 200);
    assert_eq!(body, "{\"success\":true}");
}

#[test]
fn tamper_rejection_last_character() {
    let sig = compute_signature(SECRET, BODY);
    let mut tampered: Vec<char> = sig.chars().collect();
    let last = tampered.len() - 1;
    tampered[last] = if tampered[last] == 'A' { 'B' } else { 'A' };
    let tampered: String = tampered.into_iter().collect();
    assert!(!verify(SECRET, BODY, &tampered));
    let (status, body) = webhook_response(SECRET, Some(&tampered), BODY);
    assert_eq!(status, 400);
    assert_eq!(body, "{\"success\":false,\"error\":\"Invalid signature\"}");
}

#[test]
fn empty_body_accepted() {
    let sig = compute_signature(SECRET, b"");
    assert_eq!(sig, "iDoTafqJ28QLMkltvsQXQnb5iZ6Izf2/G2MnwuvH/8s=");
    let (status, body) = webhook_response(SECRET, Some(&sig), b"");
    assert_eq!(status, 200);
    assert_eq!(body, "{\"success\":true}");
}

#[test]
fn missing_header_rejected_before_verification() {
    let out = evaluate_request(SECRET, None, BODY);
    assert_eq!(out, VerificationOutcome::MissingSignature);
    assert_eq!(response_status(out), 400);
    assert_eq!(
        response_body(out),
        "{\"success\":false,\"error\":\"Missing signature header\"}"
    );
}

#[test]
fn mismatch_outcome_and_response() {
    let out = evaluate_request(SECRET, Some("bm90IGEgcmVhbCBzaWduYXR1cmUgYXQgYWxsISEhISEhISE="), BODY);
    assert_eq!(out, VerificationOutcome::InvalidSignature);
    assert_eq!(response_status(out), 400);
}

#[test]
fn hello_route_fixed_response() {
    let (status, body) = hello_response();
    assert_eq!(status, 200);
    assert_eq!(body, "{\"success\":true}");
}

#[test]
fn constant_time_eq_agrees_with_equality() {
    assert!(constant_time_eq(b"", b""));
    assert!(constant_time_eq(b"abc", b"abc"));
    assert!(!constant_time_eq(b"abc", b"ab"));
    // A first-byte difference and a last-byte difference are both plain
    // mismatches; the full input is scanned in either case.
    assert!(!constant_time_eq(b"Xbcdefgh", b"abcdefgh"));
    assert!(!constant_time_eq(b"abcdefgX", b"abcdefgh"));
}

#[test]
fn store_returns_stored_secret() {
    let store = SecretStore::new(b"testsecret".to_vec());
    assert_eq!(store.get(), b"testsecret".to_vec());
    assert_eq!(store.get(), b"testsecret".to_vec());
}

#[test]
fn store_set_replaces_secret() {
    let mut store = SecretStore::new(b"testsecret".to_vec());
    store.set(b"rotated".to_vec());
    assert_eq!(store.get(), b"rotated".to_vec());
}

#[test]
fn store_secret_drives_verification() {
    let store = SecretStore::new(b"testsecret".to_vec());
    let secret = store.get();
    let sig = compute_signature(&secret, BODY);
    assert_eq!(sig, "ciaAS5ik+JNvpKiq371+qVSXrN5bCTU5bn9OyjdGlqk=");
    assert!(verify(&secret, BODY, &sig));
}

#[test]
fn concurrent_reads_match_sequential_results() {
    let store = Arc::new(SecretStore::new(b"testsecret".to_vec()));
    let expected = compute_signature(SECRET, BODY);
    let runtime = tokio::runtime::Builder::new_multi_thread()
        .worker_threads(4)
        .build()
        .expect("runtime");
    runtime.block_on(async {
        let mut tasks = Vec::new();
        for _ in 0..32 {
            let store = store.clone();
            let expected = expected.clone();
            tasks.push(tokio::spawn(async move {
                let secret = store.get();
                let sig = compute_signature(&secret, BODY);
                assert_eq!(sig, expected);
                assert!(verify(&secret, BODY, &sig));
            }));
        }
        for task in tasks {
            task.await.expect("verification task");
        }
    });
}
