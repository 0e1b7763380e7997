use near_cli::account::AccountId;
use near_cli::action::PublicKey;
use near_cli::login::{
    authorization_url, Login, LoginAction, LoginEvent, LoginState, NetworkConfig,
    VerificationError,
};
use near_cli::verify::{verify_account_access_key, AccessKeyListAnswer};

#[test]
fn save_anyway_persists_the_typed_account() {
    let id = AccountId::parse("alice.testnet").unwrap();
    let (s, a) = LoginState::start();
    assert_eq!(a, LoginAction::GenerateKey);
    let (s, a) = s.step(LoginEvent::KeyGenerated);
    assert_eq!(a, Some(LoginAction::PresentUrl));
    let (s, a) = s.step(LoginEvent::UrlPresented);
    assert_eq!(a, Some(LoginAction::PromptAccountId));
    let (s, a) = s.step(LoginEvent::AccountIdEntered(id.clone()));
    assert_eq!(a, Some(LoginAction::Verify(id.clone())));
    let (s, a) = s.step(LoginEvent::VerificationFinished(Err(VerificationError::NotFound)));
    assert_eq!(a, Some(LoginAction::OfferReentry));
    let (s, a) = s.step(LoginEvent::ChoseSaveAnyway);
    assert_eq!(a, Some(LoginAction::Persist(id.clone())));
    let (s, a) = s.step(LoginEvent::Stored(Ok("saved".to_string())));
    assert_eq!(a, Some(LoginAction::Finish("saved".to_string())));
    assert_eq!(s, LoginState::Persisted(id));
}

#[test]
fn reentry_then_verified_login() {
    let first = AccountId::parse("wrong.testnet").unwrap();
    let second = AccountId::parse("right.testnet").unwrap();
    let s = LoginState::AwaitingAccountId;
    let (s, _) = s.step(LoginEvent::AccountIdEntered(first));
    let (s, _) = s.step(LoginEvent::VerificationFinished(Err(VerificationError::Transport)));
    let (s, a) = s.step(LoginEvent::ChoseReenter);
    assert_eq!(a, Some(LoginAction::PromptAccountId));
    let (s, _) = s.step(LoginEvent::AccountIdEntered(second.clone()));
    let (s, a) = s.step(LoginEvent::VerificationFinished(Ok(())));
    assert_eq!(a, Some(LoginAction::Persist(second.clone())));
    assert_eq!(s, LoginState::Accepted(second));
}

#[test]
fn failures_abort_and_terminal_states_stay() {
    let (s, a) = LoginState::AwaitingAccountId.step(LoginEvent::InputFailed);
    assert_eq!((s.clone(), a), (LoginState::Aborted, Some(LoginAction::Abort)));
    let (s, a) = s.step(LoginEvent::KeyGenerated);
    assert_eq!((s, a), (LoginState::Aborted, None));
    let id = AccountId::parse("bob.near").unwrap();
    let (s, a) = LoginState::Accepted(id).step(LoginEvent::Stored(Err("disk full".to_string())));
    assert_eq!((s, a), (LoginState::Aborted, Some(LoginAction::Abort)));
}

#[test]
fn unexpected_event_changes_nothing() {
    let (s, a) = LoginState::Start.step(LoginEvent::ChoseSaveAnyway);
    assert_eq!((s, a), (LoginState::Start, None));
}

#[test]
fn authorization_url_carries_title_and_key() {
    let url = authorization_url("https://wallet.testnet.near.org/", "ed25519:1111").unwrap();
    assert_eq!(
        url,
        "https://wallet.testnet.near.org/login/?title=NEAR+CLI&public_key=ed25519%3A1111"
    );
    assert!(authorization_url("not a url", "ed25519:1111").is_none());
}

#[test]
fn registered_key_verifies() {
    let key = PublicKey::parse("ed25519:11111111111111111111111111111111").unwrap();
    let other = PublicKey::parse("ed25519:11111111111111111111111111111112").unwrap();
    let listed = AccessKeyListAnswer::Keys(vec![other.clone(), key.clone()]);
    assert_eq!(verify_account_access_key(&listed, &key), Ok(()));
    let absent = AccessKeyListAnswer::Keys(vec![other]);
    assert_eq!(verify_account_access_key(&absent, &key), Err(VerificationError::NotFound));
    assert_eq!(
        verify_account_access_key(&AccessKeyListAnswer::Keys(vec![]), &key),
        Err(VerificationError::NotFound)
    );
    assert_eq!(
        verify_account_access_key(&AccessKeyListAnswer::UnknownAccount, &key),
        Err(VerificationError::NotFound)
    );
    assert_eq!(
        verify_account_access_key(&AccessKeyListAnswer::Failed, &key),
        Err(VerificationError::Transport)
    );
}

#[test]
fn login_builds_its_network_authorization_url() {
    let login = Login {
        network_config: NetworkConfig {
            network_name: "testnet".to_string(),
            wallet_url: "https://wallet.testnet.near.org".to_string(),
        },
    };
    assert_eq!(
        login.authorization_url("ed25519:abc").unwrap(),
        "https://wallet.testnet.near.org/login/?title=NEAR+CLI&public_key=ed25519%3Aabc"
    );
}
