use vstd::prelude::*;
use crate::action::PublicKey;
use crate::login::VerificationError;

verus! {

/// The ledger's answer to the query for an account's access keys.
#[derive(Debug, Clone)]
pub enum AccessKeyListAnswer {
    /// The public keys registered as access keys of the account.
    Keys(Vec<PublicKey>),
    /// The account does not exist.
    UnknownAccount,
    /// The query could not be completed.
    Failed,
}

/// Whether `key` is among `keys`.
pub open spec fn key_listed(keys: Seq<PublicKey>, key: PublicKey) -> bool {
    exists|i: int|
        0 <= i < keys.len() && #[trigger] keys[i].key_type == key.key_type && keys[i].data@
            == key.data@
}

/// The verdict on a key for the ledger's answer: success exactly when the key is
/// registered, whatever its permission.
pub open spec fn verdict(answer: AccessKeyListAnswer, key: PublicKey) -> Result<(), VerificationError> {
    match answer {
        AccessKeyListAnswer::Keys(keys) => if key_listed(keys@, key) {
            Ok(())
        } else {
            Err(VerificationError::NotFound)
        },
        AccessKeyListAnswer::UnknownAccount => Err(VerificationError::NotFound),
        AccessKeyListAnswer::Failed => Err(VerificationError::Transport),
    }
}

/// Whether `key` is among `keys`, compared by scheme and bytes.
pub fn contains_key(keys: &Vec<PublicKey>, key: &PublicKey) -> (r: bool)
    ensures
        r == key_listed(keys@, *key),
{
    let mut i: usize = 0;
    while i < keys.len()
        invariant
            i <= keys@.len(),
            forall|j: int|
                0 <= j < i ==> !(#[trigger] keys@[j].key_type == key.key_type && keys@[j].data@
                    == key.data@),
        decreases keys@.len() - i,
    {
        if keys[i].same_key(key) {
            assert(keys@[i as int].key_type == key.key_type);
            return true;
        }
        i = i + 1;
    }
    false
}

/// Decides whether `key` is confirmed as an access key of the queried account.
pub fn verify_account_access_key(answer: &AccessKeyListAnswer, key: &PublicKey) -> (r: Result<
    (),
    VerificationError,
>)
    ensures
        r == verdict(*answer, *key),
{
    match answer {
        AccessKeyListAnswer::Keys(keys) => if contains_key(keys, key) {
            Ok(())
        } else {
            Err(VerificationError::NotFound)
        },
        AccessKeyListAnswer::UnknownAccount => Err(VerificationError::NotFound),
        AccessKeyListAnswer::Failed => Err(VerificationError::Transport),
    }
}

} // verus!
