use near_cli::codec::{decode_credential, encode_credential, EncodeError};
use near_cli::store::{credential_location, storage_options, Backend, Credential, CredentialStore};
use near_cli::view::{
    access_key_line, code_hash_message, permission_message, AccessKeyPermissionView,
    BlockIdHeight, CliBlockIdHeight,
};

fn credential(account: &str, public: &str, private: &str) -> Credential {
    Credential {
        account_id: account.to_string(),
        public_key: public.to_string(),
        private_key: private.to_string(),
    }
}

#[test]
fn persist_then_load_round_trips() {
    let mut store = CredentialStore::new();
    let net = "testnet".to_string();
    let acct = "alice.testnet".to_string();
    store.persist(net.clone(), credential("alice.testnet", "ed25519:pub", "ed25519:secret"));
    let c = store.load(&net, &acct).unwrap();
    assert_eq!(c.account_id, "alice.testnet");
    assert_eq!(c.public_key, "ed25519:pub");
    assert_eq!(c.private_key, "ed25519:secret");
    assert!(store.load(&"mainnet".to_string(), &acct).is_none());
}

#[test]
fn second_persist_wins() {
    let mut store = CredentialStore::new();
    let net = "testnet".to_string();
    let acct = "alice.testnet".to_string();
    store.persist(net.clone(), credential("alice.testnet", "ed25519:one", "ed25519:s1"));
    store.persist(net.clone(), credential("bob.testnet", "ed25519:bob", "ed25519:sb"));
    store.persist(net.clone(), credential("alice.testnet", "ed25519:two", "ed25519:s2"));
    let c = store.load(&net, &acct).unwrap();
    assert_eq!(c.public_key, "ed25519:two");
    assert_eq!(c.private_key, "ed25519:s2");
    let b = store.load(&net, &"bob.testnet".to_string()).unwrap();
    assert_eq!(b.public_key, "ed25519:bob");
}

#[test]
fn storage_choices_depend_on_platform() {
    assert_eq!(storage_options(true), vec![Backend::NativeKeychain, Backend::LegacyFile]);
    assert_eq!(storage_options(false), vec![Backend::LegacyFile]);
}

#[test]
fn credential_file_layout() {
    assert_eq!(credential_location("testnet", "alice.testnet"), "testnet/alice.testnet.json");
}

#[test]
fn block_height_arguments() {
    let cli = CliBlockIdHeight { block_id_height: Some(12345) };
    assert_eq!(cli.to_cli_args(), vec!["12345".to_string()]);
    assert!(CliBlockIdHeight::default().to_cli_args().is_empty());
    let resolved = BlockIdHeight::resolve(cli).unwrap();
    assert_eq!(resolved.block_id_height, 12345);
    assert!(BlockIdHeight::resolve(CliBlockIdHeight::default()).is_none());
    let back = CliBlockIdHeight::from(BlockIdHeight { block_id_height: 7 });
    assert_eq!(back.block_id_height, Some(7));
}

#[test]
fn code_hash_messages() {
    assert_eq!(code_hash_message(&[0u8; 32]), "Contract code is not deployed to this account.");
    let mut h = [0u8; 32];
    h[0] = 0xab;
    h[31] = 0x0f;
    let expected = format!("Contract code SHA-256 checksum (hex): ab{}0f", "00".repeat(30));
    assert_eq!(code_hash_message(&h), expected);
}

#[test]
fn permission_messages() {
    assert_eq!(permission_message(&AccessKeyPermissionView::FullAccess, ""), "full access");
    let limited = AccessKeyPermissionView::FunctionCall {
        allowance: Some(5),
        receiver_id: "app.near".to_string(),
        method_names: vec!["a".to_string(), "b".to_string()],
    };
    assert_eq!(
        permission_message(&limited, "5 NEAR"),
        "only do [\"a\", \"b\"] function calls on app.near with an allowance of 5 NEAR"
    );
    let open = AccessKeyPermissionView::FunctionCall {
        allowance: None,
        receiver_id: "app.near".to_string(),
        method_names: vec![],
    };
    assert_eq!(
        permission_message(&open, "ignored"),
        "only do [] function calls on app.near with no limit"
    );
}

#[test]
fn access_key_lines_are_numbered_and_aligned() {
    assert_eq!(
        access_key_line(0, "ed25519:abc", 7, "full access"),
        "   1. ed25519:abc (nonce: 7) is granted to full access"
    );
    assert_eq!(
        access_key_line(12344, "k", 0, "p"),
        "12345. k (nonce: 0) is granted to p"
    );
}

#[test]
fn credential_record_round_trips() {
    let c = credential("alice.testnet", "ed25519:pub", "ed25519:secret");
    let text = encode_credential(&c).unwrap();
    assert_eq!(
        text,
        "{\"account_id\":\"alice.testnet\",\"public_key\":\"ed25519:pub\",\"private_key\":\"ed25519:secret\"}"
    );
    let back = decode_credential(&text).unwrap();
    assert_eq!(back.account_id, "alice.testnet");
    assert_eq!(back.public_key, "ed25519:pub");
    assert_eq!(back.private_key, "ed25519:secret");
    let quoted = credential("a\"b", "k", "s");
    assert_eq!(encode_credential(&quoted).unwrap_err(), EncodeError::UnplainField);
}

#[test]
fn malformed_records_are_rejected() {
    assert!(decode_credential("").is_none());
    assert!(decode_credential("{\"account_id\":\"a\",\"public_key\":\"b\"}").is_none());
    assert!(decode_credential(
        "{\"account_id\":\"a\",\"public_key\":\"b\",\"private_key\":\"c\"} "
    )
    .is_none());
    assert!(decode_credential(
        "{\"account_id\":\"a\\\\\",\"public_key\":\"b\",\"private_key\":\"c\"}"
    )
    .is_none());
    let ok = decode_credential("{\"account_id\":\"\",\"public_key\":\"\",\"private_key\":\"\"}")
        .unwrap();
    assert!(ok.account_id.is_empty() && ok.public_key.is_empty() && ok.private_key.is_empty());
}
