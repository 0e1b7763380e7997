use vstd::prelude::*;
use crate::account::AccountId;

verus! {

/// Why a key could not be confirmed as an access key of an account.
#[derive(Debug, Clone, Copy, PartialEq, Eq, Structural)]
pub enum VerificationError {
    /// The account does not exist, or the key is not among its access keys.
    NotFound,
    /// The ledger query could not be completed.
    Transport,
}

/// Where a login stands.
#[derive(Debug, Clone, PartialEq, Eq)]
pub enum LoginState {
    Start,
    /// A key pair was generated; the authorization URL is to be shown.
    KeyGenerated,
    /// Waiting for the operator to type an account id.
    AwaitingAccountId,
    /// The key is being looked up among the access keys of this account.
    Verifying(AccountId),
    /// The key could not be confirmed for this account; the operator chooses.
    NotVerifiedPrompt(AccountId),
    /// The credential for this account is being stored.
    Accepted(AccountId),
    /// The credential for this account was stored.
    Persisted(AccountId),
    Aborted,
}

/// What the surrounding program reports back to the login.
#[derive(Debug)]
pub enum LoginEvent {
    KeyGenerated,
    /// The authorization URL was shown (whether or not a browser opened it).
    UrlPresented,
    AccountIdEntered(AccountId),
    VerificationFinished(Result<(), VerificationError>),
    ChoseReenter,
    ChoseSaveAnyway,
    /// The store answered, with its confirmation message or the failure's text.
    Stored(Result<String, String>),
    /// Terminal input or another channel failed.
    InputFailed,
}

/// What the surrounding program is to do next.
#[derive(Debug, Clone, PartialEq, Eq)]
pub enum LoginAction {
    GenerateKey,
    PresentUrl,
    PromptAccountId,
    Verify(AccountId),
    OfferReentry,
    Persist(AccountId),
    /// Print the store's confirmation message; the login is done.
    Finish(String),
    /// Stop and report the failure.
    Abort,
}

/// Whether the login is over.
pub open spec fn is_terminal(s: LoginState) -> bool {
    s is Persisted || s is Aborted
}

/// One transition of the login: the next state and the action to perform. An event
/// that does not fit the state changes nothing and asks for nothing.
pub open spec fn login_step(s: LoginState, e: LoginEvent) -> (LoginState, Option<LoginAction>) {
    match (s, e) {
        (LoginState::Persisted(id), _) => (LoginState::Persisted(id), None),
        (LoginState::Aborted, _) => (LoginState::Aborted, None),
        (_, LoginEvent::InputFailed) => (LoginState::Aborted, Some(LoginAction::Abort)),
        (LoginState::Start, LoginEvent::KeyGenerated) => (
            LoginState::KeyGenerated,
            Some(LoginAction::PresentUrl),
        ),
        (LoginState::KeyGenerated, LoginEvent::UrlPresented) => (
            LoginState::AwaitingAccountId,
            Some(LoginAction::PromptAccountId),
        ),
        (LoginState::AwaitingAccountId, LoginEvent::AccountIdEntered(id)) => (
            LoginState::Verifying(id),
            Some(LoginAction::Verify(id)),
        ),
        (LoginState::Verifying(id), LoginEvent::VerificationFinished(Ok(()))) => (
            LoginState::Accepted(id),
            Some(LoginAction::Persist(id)),
        ),
        (LoginState::Verifying(id), LoginEvent::VerificationFinished(Err(_))) => (
            LoginState::NotVerifiedPrompt(id),
            Some(LoginAction::OfferReentry),
        ),
        (LoginState::NotVerifiedPrompt(_), LoginEvent::ChoseReenter) => (
            LoginState::AwaitingAccountId,
            Some(LoginAction::PromptAccountId),
        ),
        (LoginState::NotVerifiedPrompt(id), LoginEvent::ChoseSaveAnyway) => (
            LoginState::Accepted(id),
            Some(LoginAction::Persist(id)),
        ),
        (LoginState::Accepted(id), LoginEvent::Stored(Ok(msg))) => (
            LoginState::Persisted(id),
            Some(LoginAction::Finish(msg)),
        ),
        (LoginState::Accepted(_), LoginEvent::Stored(Err(_))) => (
            LoginState::Aborted,
            Some(LoginAction::Abort),
        ),
        (s, _) => (s, None),
    }
}

/// The state reached from `s` after the events `es`, in order.
pub open spec fn login_run(s: LoginState, es: Seq<LoginEvent>) -> LoginState
    decreases es.len(),
{
    if es.len() == 0 {
        s
    } else {
        login_run(login_step(s, es[0]).0, es.drop_first())
    }
}

impl LoginState {
    /// The first state and action of a login.
    pub fn start() -> (r: (LoginState, LoginAction))
        ensures
            r == (LoginState::Start, LoginAction::GenerateKey),
    {
        (LoginState::Start, LoginAction::GenerateKey)
    }

    /// Takes the login one step on an event.
    pub fn step(self, e: LoginEvent) -> (r: (LoginState, Option<LoginAction>))
        ensures
            r == login_step(self, e),
    {
        match (self, e) {
            (LoginState::Persisted(id), _) => (LoginState::Persisted(id), None),
            (LoginState::Aborted, _) => (LoginState::Aborted, None),
            (_, LoginEvent::InputFailed) => (LoginState::Aborted, Some(LoginAction::Abort)),
            (LoginState::Start, LoginEvent::KeyGenerated) => (
                LoginState::KeyGenerated,
                Some(LoginAction::PresentUrl),
            ),
            (LoginState::KeyGenerated, LoginEvent::UrlPresented) => (
                LoginState::AwaitingAccountId,
                Some(LoginAction::PromptAccountId),
            ),
            (LoginState::AwaitingAccountId, LoginEvent::AccountIdEntered(id)) => {
                let shown = id.duplicate();
                (LoginState::Verifying(id), Some(LoginAction::Verify(shown)))
            },
            (LoginState::Verifying(id), LoginEvent::VerificationFinished(Ok(()))) => {
                let shown = id.duplicate();
                (LoginState::Accepted(id), Some(LoginAction::Persist(shown)))
            },
            (LoginState::Verifying(id), LoginEvent::VerificationFinished(Err(_))) => (
                LoginState::NotVerifiedPrompt(id),
                Some(LoginAction::OfferReentry),
            ),
            (LoginState::NotVerifiedPrompt(_), LoginEvent::ChoseReenter) => (
                LoginState::AwaitingAccountId,
                Some(LoginAction::PromptAccountId),
            ),
            (LoginState::NotVerifiedPrompt(id), LoginEvent::ChoseSaveAnyway) => {
                let shown = id.duplicate();
                (LoginState::Accepted(id), Some(LoginAction::Persist(shown)))
            },
            (LoginState::Accepted(id), LoginEvent::Stored(Ok(msg))) => (
                LoginState::Persisted(id),
                Some(LoginAction::Finish(msg)),
            ),
            (LoginState::Accepted(_), LoginEvent::Stored(Err(_))) => (
                LoginState::Aborted,
                Some(LoginAction::Abort),
            ),
            (s, _) => (s, None),
        }
    }
}

/// A login whose first verification fails and whose operator then saves anyway
/// stores, and finishes with, the account id that was typed.
pub proof fn lemma_save_anyway_keeps_account_id(id: AccountId, err: VerificationError, msg: String)
    ensures
        login_run(
            LoginState::AwaitingAccountId,
            seq![
                LoginEvent::AccountIdEntered(id),
                LoginEvent::VerificationFinished(Err(err)),
                LoginEvent::ChoseSaveAnyway,
                LoginEvent::Stored(Ok(msg)),
            ],
        ) == LoginState::Persisted(id),
        login_step(LoginState::NotVerifiedPrompt(id), LoginEvent::ChoseSaveAnyway).1
            == Some(LoginAction::Persist(id)),
{
    let es = seq![
        LoginEvent::AccountIdEntered(id),
        LoginEvent::VerificationFinished(Err(err)),
        LoginEvent::ChoseSaveAnyway,
        LoginEvent::Stored(Ok(msg)),
    ];
    assert(es.drop_first().drop_first().drop_first().drop_first().len() == 0);
    reveal_with_fuel(login_run, 5);
}

/// Once a login is over, no event changes its state or asks for anything.
pub proof fn lemma_terminal_is_final(s: LoginState, e: LoginEvent)
    requires
        is_terminal(s),
    ensures
        login_step(s, e) == (s, None::<LoginAction>),
{
}


/// The URL that `url::Url::join` gives for `input` against the base URL `base`,
/// or `None` where the base does not parse or the join fails.
pub uninterp spec fn url_joined(base: Seq<char>, input: Seq<char>) -> Option<Seq<char>>;

/// The URL with the query pair `name=value` appended by the URL's form-urlencoded
/// serializer, or `None` where the URL does not parse.
pub uninterp spec fn url_with_query_pair(url: Seq<char>, name: Seq<char>, value: Seq<char>) -> Option<
    Seq<char>,
>;

/// Relies on `url::Url::join` (with `url::Url::parse` reading the base) to resolve
/// a relative reference against a base URL.
#[verifier::external_body]
fn join_url(base: &str, input: &str) -> (r: Option<String>)
    ensures
        match r {
            Some(u) => url_joined(base@, input@) == Some(u@),
            None => url_joined(base@, input@) is None,
        },
{
    url::Url::parse(base).and_then(|b| b.join(input)).ok().map(|u| u.to_string())
}

/// Relies on `url::form_urlencoded::Serializer::append_pair`, reached through
/// `url::Url::query_pairs_mut`, to append one encoded query pair.
#[verifier::external_body]
fn append_query_pair(url: &str, name: &str, value: &str) -> (r: Option<String>)
    ensures
        match r {
            Some(u) => url_with_query_pair(url@, name@, value@) == Some(u@),
            None => url_with_query_pair(url@, name@, value@) is None,
        },
{
    let mut u = url::Url::parse(url).ok()?;
    u.query_pairs_mut().append_pair(name, value);
    Some(u.to_string())
}

/// The product label sent as the `title` of the authorization page.
pub open spec fn product_title() -> Seq<char> {
    "NEAR CLI"@
}

/// The authorization page for a key: `<wallet>/login/` with the query pairs `title`
/// and `public_key`, in that order.
pub open spec fn authorization_url_spec(wallet_url: Seq<char>, public_key: Seq<char>) -> Option<
    Seq<char>,
> {
    match url_joined(wallet_url, "login/"@) {
        None => None,
        Some(page) => match url_with_query_pair(page, "title"@, product_title()) {
            None => None,
            Some(titled) => url_with_query_pair(titled, "public_key"@, public_key),
        },
    }
}

/// Builds the wallet page on which the operator links `public_key` to an account.
pub fn authorization_url(wallet_url: &str, public_key: &str) -> (r: Option<String>)
    ensures
        match r {
            Some(u) => authorization_url_spec(wallet_url@, public_key@) == Some(u@),
            None => authorization_url_spec(wallet_url@, public_key@) is None,
        },
{
    proof {
        reveal_strlit("login/");
        reveal_strlit("title");
        reveal_strlit("NEAR CLI");
        reveal_strlit("public_key");
    }
    let page = join_url(wallet_url, "login/")?;
    let titled = append_query_pair(page.as_str(), "title", "NEAR CLI")?;
    append_query_pair(titled.as_str(), "public_key", public_key)
}

/// The network a login links a key on: its name, which also names the credentials'
/// directory, and the wallet's base URL.
#[derive(Debug, Clone)]
pub struct NetworkConfig {
    pub network_name: String,
    pub wallet_url: String,
}

/// A login on one network.
#[derive(Debug, Clone)]
pub struct Login {
    pub network_config: NetworkConfig,
}

impl Login {
    /// The wallet page on which the operator links `public_key` on this network.
    pub fn authorization_url(&self, public_key: &str) -> (r: Option<String>)
        ensures
            match r {
                Some(u) => authorization_url_spec(self.network_config.wallet_url@, public_key@)
                    == Some(u@),
                None => authorization_url_spec(self.network_config.wallet_url@, public_key@) is None,
            },
    {
        authorization_url(self.network_config.wallet_url.as_str(), public_key)
    }
}

} // verus!
