use near_cli::account::AccountId;
use near_cli::action::{ActionPrompt, AddAccessKeyAction, CliAddAccessKeyAction, KeyType, PublicKey};
use near_cli::permission::{
    AccessKeyPermission, CliAccessKeyPermission, CliFullAccessType, CliFunctionCallType,
    PermissionField, PermissionKind,
};

const ZERO_KEY: &str = "ed25519:11111111111111111111111111111111";

#[test]
fn function_call_with_no_methods_stays_function_call() {
    let receiver = AccountId::parse("contract.near").unwrap();
    let partial = CliAccessKeyPermission::FunctionCallAction(CliFunctionCallType {
        allowance: Some(None),
        receiver_id: Some(receiver.clone()),
        method_names: Some(vec![]),
    });
    match AccessKeyPermission::resolve(partial) {
        Ok(AccessKeyPermission::FunctionCallAction(f)) => {
            assert_eq!(f.allowance, None);
            assert_eq!(f.receiver_id, receiver);
            assert!(f.method_names.is_empty());
        }
        other => panic!("unexpected resolution: {:?}", other),
    }
}

#[test]
fn fully_supplied_action_resolves_without_prompts() {
    let key = PublicKey::parse(ZERO_KEY).unwrap();
    let partial = CliAddAccessKeyAction {
        public_key: Some(key),
        nonce: Some(5),
        permission: Some(CliAccessKeyPermission::FullAccessAction(CliFullAccessType {})),
    };
    assert_eq!(partial.next_prompt(), None);
    let action = AddAccessKeyAction::resolve(partial).unwrap();
    assert_eq!(action.public_key.key_type, KeyType::Ed25519);
    assert_eq!(action.public_key.data, vec![0u8; 32]);
    assert_eq!(action.nonce, 5);
    assert!(matches!(action.permission, AccessKeyPermission::FullAccessAction(_)));
}

#[test]
fn malformed_public_key_is_asked_again() {
    let mut partial = CliAddAccessKeyAction::default();
    assert_eq!(partial.next_prompt(), Some(ActionPrompt::PublicKey));
    assert!(!partial.answer_public_key("ed25519:not-base58!"));
    assert!(!partial.answer_public_key("rsa:11111111111111111111111111111111"));
    assert!(partial.public_key.is_none());
    assert_eq!(partial.next_prompt(), Some(ActionPrompt::PublicKey));
    assert!(partial.answer_public_key(ZERO_KEY));
    assert_eq!(partial.next_prompt(), Some(ActionPrompt::Nonce));
}

#[test]
fn prompts_follow_the_missing_fields() {
    let mut partial = CliAddAccessKeyAction::default();
    assert!(partial.answer_public_key(ZERO_KEY));
    partial.answer_nonce(0);
    assert_eq!(partial.next_prompt(), Some(ActionPrompt::Permission));
    partial.answer_permission(0);
    assert_eq!(
        partial.next_prompt(),
        Some(ActionPrompt::PermissionField(PermissionField::ReceiverId))
    );
    let p = partial.permission.as_mut().unwrap();
    assert!(!p.answer_receiver_id("Bad..Id"));
    assert!(p.answer_receiver_id("app.testnet"));
    p.answer_method_names(vec!["ping".to_string()]);
    assert_eq!(
        partial.next_prompt(),
        Some(ActionPrompt::PermissionField(PermissionField::Allowance))
    );
    partial.permission.as_mut().unwrap().answer_allowance(Some(250));
    let action = AddAccessKeyAction::resolve(partial).unwrap();
    match action.permission {
        AccessKeyPermission::FunctionCallAction(f) => {
            assert_eq!(f.allowance, Some(250));
            assert_eq!(f.receiver_id.as_str(), "app.testnet");
            assert_eq!(f.method_names, vec!["ping".to_string()]);
        }
        other => panic!("unexpected permission: {:?}", other),
    }
}

#[test]
fn unresolved_action_names_the_first_missing_field() {
    let partial = CliAddAccessKeyAction {
        public_key: PublicKey::parse(ZERO_KEY),
        nonce: None,
        permission: None,
    };
    assert_eq!(AddAccessKeyAction::resolve(partial).unwrap_err(), ActionPrompt::Nonce);
}

#[test]
fn permission_menu_lists_variants_in_order() {
    let labels = PermissionKind::labels();
    assert_eq!(
        labels,
        vec![
            "A permission with function call".to_string(),
            "A permission with full access".to_string()
        ]
    );
    assert!(matches!(
        AccessKeyPermission::choose_permission(1),
        CliAccessKeyPermission::FullAccessAction(_)
    ));
    match AccessKeyPermission::choose_permission(0) {
        CliAccessKeyPermission::FunctionCallAction(f) => {
            assert!(f.receiver_id.is_none() && f.method_names.is_none() && f.allowance.is_none());
        }
        other => panic!("unexpected choice: {:?}", other),
    }
}

#[test]
fn full_access_ignores_function_call_answers() {
    let mut p = CliAccessKeyPermission::FullAccessAction(CliFullAccessType {});
    assert!(!p.answer_receiver_id("alice.near"));
    p.answer_allowance(Some(1));
    assert!(matches!(
        AccessKeyPermission::resolve(p),
        Ok(AccessKeyPermission::FullAccessAction(_))
    ));
}

#[test]
fn account_id_grammar() {
    assert!(AccountId::parse("alice.near").is_some());
    assert!(AccountId::parse("a-b_c.d0").is_some());
    assert!(AccountId::parse("a").is_none());
    assert!(AccountId::parse("Alice.near").is_none());
    assert!(AccountId::parse("alice..near").is_none());
    assert!(AccountId::parse(".alice").is_none());
    assert!(AccountId::parse("alice.").is_none());
    assert!(AccountId::parse(&"a".repeat(65)).is_none());
    assert!(AccountId::parse(&"a".repeat(64)).is_some());
}
