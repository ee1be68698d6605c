use manufacturing_cell::gcp_iot::credential::{
    mint, mint_at, Credential, CredentialError, TOKEN_LIFETIME_SECS,
};
use manufacturing_cell::utils::read_clock;

const PROJECT: &str = "your_google_cloud_project_name";

/// A key for these tests alone, made on the spot from the scalar whose bytes
/// count from one to thirty-two: the SEC1 structure around it, in PEM.
fn example_key() -> String {
    let mut der: Vec<u8> = vec![0x30, 0x31, 0x02, 0x01, 0x01, 0x04, 0x20];
    der.extend(1..=32u8);
    der.extend([0xa0, 0x0a, 0x06, 0x08, 0x2a, 0x86, 0x48, 0xce, 0x3d, 0x03, 0x01, 0x07]);
    assert_eq!(der.len(), 51);

    let body = base64::encode(&der);
    let label = ["EC", "PRIVATE", "KEY"].join(" ");
    let dashes = "-".repeat(5);
    let mut pem = format!("{dashes}BEGIN {label}{dashes}\n");
    let mut rest = body.as_str();
    while rest.len() > 64 {
        let (line, tail) = rest.split_at(64);
        pem.push_str(line);
        pem.push('\n');
        rest = tail;
    }
    pem.push_str(rest);
    pem.push('\n');
    pem.push_str(&format!("{dashes}END {label}{dashes}\n"));
    pem
}

fn part(token: &str, index: usize) -> Vec<u8> {
    let parts: Vec<&str> = token.split('.').collect();
    assert_eq!(parts.len(), 3);
    base64::decode_config(parts[index], base64::STANDARD_NO_PAD).unwrap()
}

fn claims(token: &str) -> serde_json::Value {
    serde_json::from_slice(&part(token, 1)).unwrap()
}

#[test]
fn token_is_the_one_that_the_signer_builds() {
    let key = example_key();
    let credential = mint_at(PROJECT, Some(&key), 1642293084).unwrap();
    let token = credential.token();
    assert_eq!(
        String::from_utf8(part(token, 0)).unwrap(),
        r#"{"alg":"ES256","typ":"JWT"}"#
    );
    assert_eq!(
        String::from_utf8(part(token, 1)).unwrap(),
        r#"{"aud":"your_google_cloud_project_name","iat":1642293084,"exp":1642379484}"#
    );
    assert_eq!(part(token, 2).len(), 64);
    assert_eq!(credential.issued_at(), 1642293084);
    assert_eq!(credential.valid_until(), 1642379484);
}

#[test]
fn token_embeds_the_issue_time_and_the_expiry() {
    let key = example_key();
    let credential = mint_at(PROJECT, Some(&key), 1_700_000_000).unwrap();
    assert_eq!(credential.issued_at(), 1_700_000_000);
    assert_eq!(credential.valid_until(), 1_700_000_000 + 86_400);
    assert_eq!(TOKEN_LIFETIME_SECS, 86_400);
    let claims = claims(credential.token());
    assert_eq!(claims["aud"].as_str(), Some(PROJECT));
    assert_eq!(claims["iat"].as_u64(), Some(credential.issued_at()));
    assert_eq!(claims["exp"].as_u64(), Some(credential.valid_until()));
}

#[test]
fn token_at_the_last_issue_time_with_room_for_the_lifetime() {
    let key = example_key();
    let now = u64::MAX - 86_400;
    let credential = mint_at(PROJECT, Some(&key), now).unwrap();
    assert_eq!(credential.issued_at(), now);
    assert_eq!(credential.valid_until(), u64::MAX);
    assert_eq!(claims(credential.token())["exp"].as_u64(), Some(u64::MAX));
}

#[test]
fn later_mint_has_the_later_issue_time() {
    let key = example_key();
    let earlier = mint_at(PROJECT, Some(&key), 1_700_000_000).unwrap();
    let later = mint_at(PROJECT, Some(&key), 1_700_000_001).unwrap();
    assert!(earlier.issued_at() < later.issued_at());
    assert!(earlier.valid_until() < later.valid_until());
    assert_ne!(earlier.token(), later.token());
    assert_eq!(claims(earlier.token())["iat"].as_u64(), Some(1_700_000_000));
    assert_eq!(claims(later.token())["iat"].as_u64(), Some(1_700_000_001));
}

#[test]
fn same_inputs_give_the_same_token() {
    let key = example_key();
    let first = mint_at(PROJECT, Some(&key), 1_700_000_000).unwrap();
    let second = mint_at(PROJECT, Some(&key), 1_700_000_000).unwrap();
    assert_eq!(first.token(), second.token());
}

#[test]
fn another_project_gives_another_token() {
    let key = example_key();
    let first = mint_at(PROJECT, Some(&key), 1_700_000_000).unwrap();
    let second = mint_at("another-project", Some(&key), 1_700_000_000).unwrap();
    assert_ne!(first.token(), second.token());
    assert_eq!(claims(second.token())["aud"].as_str(), Some("another-project"));
}

#[test]
fn missing_key_is_key_unavailable() {
    assert_eq!(
        mint_at(PROJECT, None, 1_700_000_000).err(),
        Some(CredentialError::KeyUnavailable)
    );
    assert_eq!(mint(PROJECT, None).err(), Some(CredentialError::KeyUnavailable));
}

#[test]
fn key_that_is_no_key_is_signing_failed() {
    assert_eq!(
        mint_at(PROJECT, Some("not a key"), 1_700_000_000).err(),
        Some(CredentialError::SigningFailed)
    );
    assert_eq!(
        mint_at(PROJECT, Some(""), 1_700_000_000).err(),
        Some(CredentialError::SigningFailed)
    );
    assert_eq!(
        mint(PROJECT, Some("not a key")).err(),
        Some(CredentialError::SigningFailed)
    );
}

#[test]
fn project_name_out_of_length_is_signing_failed() {
    let key = example_key();
    assert_eq!(
        mint_at("short", Some(&key), 1_700_000_000).err(),
        Some(CredentialError::SigningFailed)
    );
    assert_eq!(
        mint_at(
            "a-project-name-of-more-than-thirty-characters",
            Some(&key),
            1_700_000_000
        )
        .err(),
        Some(CredentialError::SigningFailed)
    );
}

#[test]
fn issue_time_without_room_for_the_lifetime_is_signing_failed() {
    let key = example_key();
    assert_eq!(
        mint_at(PROJECT, Some(&key), u64::MAX).err(),
        Some(CredentialError::SigningFailed)
    );
    assert_eq!(
        mint_at(PROJECT, Some(&key), u64::MAX - 86_399).err(),
        Some(CredentialError::SigningFailed)
    );
    assert!(mint_at(PROJECT, Some(&key), u64::MAX - 86_400).is_ok());
}

#[test]
fn mint_reads_the_clock_at_the_call() {
    let key = example_key();
    let before = read_clock().unwrap().secs;
    let credential = mint(PROJECT, Some(&key)).unwrap();
    let after = read_clock().unwrap().secs;
    assert!(before <= credential.issued_at());
    assert!(credential.issued_at() <= after);
    assert_eq!(
        credential.valid_until(),
        credential.issued_at() + TOKEN_LIFETIME_SECS
    );
    assert_eq!(
        claims(credential.token())["iat"].as_u64(),
        Some(credential.issued_at())
    );
    let again = mint_at(PROJECT, Some(&key), credential.issued_at()).unwrap();
    assert_eq!(again.token(), credential.token());
}

#[test]
fn seal_wraps_a_token_with_its_window() {
    let credential = Credential::seal(Some("a.b.c".to_string()), 100).unwrap();
    assert_eq!(credential.token(), "a.b.c");
    assert_eq!(credential.issued_at(), 100);
    assert_eq!(credential.valid_until(), 86_500);
    assert_eq!(
        Credential::seal(None, 100).err(),
        Some(CredentialError::SigningFailed)
    );
    assert_eq!(
        Credential::seal(Some("a.b.c".to_string()), u64::MAX).err(),
        Some(CredentialError::SigningFailed)
    );
}
