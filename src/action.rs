use vstd::prelude::*;
use crate::permission::{
    AccessKeyPermission, CliAccessKeyPermission, PermissionField,
    PERMISSION_KIND_COUNT, empty_of_kind, kind_at, missing_field, resolved,
};
use std::str::FromStr;

verus! {

/// The signature scheme of a public key.
#[derive(Debug, Clone, Copy, PartialEq, Eq, Structural)]
pub enum KeyType {
    Ed25519,
    Secp256k1,
    MlDsa65,
}

/// A public key: its scheme and its raw key bytes.
#[derive(Debug, Clone)]
pub struct PublicKey {
    pub key_type: KeyType,
    pub data: Vec<u8>,
}

/// The key that `near_crypto::PublicKey::from_str` reads from a text, as scheme and
/// bytes, or `None` where it rejects the text.
pub uninterp spec fn parsed_public_key(s: Seq<char>) -> Option<(KeyType, Seq<u8>)>;

/// Relies on `near_crypto::PublicKey::from_str` to read a key of the form
/// `<scheme>:<base58 bytes>` and to reject malformed text.
#[verifier::external_body]
fn parse_public_key_text(s: &str) -> (r: Option<PublicKey>)
    ensures
        match r {
            Some(k) => parsed_public_key(s@) == Some((k.key_type, k.data@)),
            None => parsed_public_key(s@) is None,
        },
{
    near_crypto::PublicKey::from_str(s).ok().map(|k| PublicKey {
        key_type: match k.key_type() {
            near_crypto::KeyType::ED25519 => KeyType::Ed25519,
            near_crypto::KeyType::SECP256K1 => KeyType::Secp256k1,
            near_crypto::KeyType::MLDSA65 => KeyType::MlDsa65,
        },
        data: k.key_data().to_vec(),
    })
}

impl PublicKey {
    /// Reads a public key from its canonical text; `None` for malformed text.
    pub fn parse(s: &str) -> (r: Option<PublicKey>)
        ensures
            match r {
                Some(k) => parsed_public_key(s@) == Some((k.key_type, k.data@)),
                None => parsed_public_key(s@) is None,
            },
    {
        parse_public_key_text(s)
    }

    /// Whether two keys are the same key: same scheme and same bytes.
    pub fn same_key(&self, other: &PublicKey) -> (r: bool)
        ensures
            r == (self.key_type == other.key_type && self.data@ == other.data@),
    {
        if self.key_type != other.key_type || self.data.len() != other.data.len() {
            return false;
        }
        let mut i: usize = 0;
        while i < self.data.len()
            invariant
                self.data@.len() == other.data@.len(),
                i <= self.data@.len(),
                forall|j: int| 0 <= j < i ==> self.data@[j] == other.data@[j],
            decreases self.data@.len() - i,
        {
            if self.data[i] != other.data[i] {
                return false;
            }
            i = i + 1;
        }
        assert(self.data@ =~= other.data@);
        true
    }
}

/// An action that adds an access key to an account.
#[derive(Debug, Clone)]
pub struct AddAccessKeyAction {
    pub public_key: PublicKey,
    pub nonce: u64,
    pub permission: AccessKeyPermission,
}

/// A partially supplied add-access-key action: every field may be missing.
#[derive(Debug, Clone, Default)]
pub struct CliAddAccessKeyAction {
    pub public_key: Option<PublicKey>,
    pub nonce: Option<u64>,
    pub permission: Option<CliAccessKeyPermission>,
}

/// What must still be asked for to complete an add-access-key action.
#[derive(Debug, Clone, Copy, PartialEq, Eq, Structural)]
pub enum ActionPrompt {
    PublicKey,
    Nonce,
    /// The menu of permission variants.
    Permission,
    PermissionField(PermissionField),
}

/// The first thing still missing from a partial action, in the order public key,
/// nonce, permission variant, permission fields; `None` once it is complete.
pub open spec fn missing_prompt(item: CliAddAccessKeyAction) -> Option<ActionPrompt> {
    if item.public_key is None {
        Some(ActionPrompt::PublicKey)
    } else if item.nonce is None {
        Some(ActionPrompt::Nonce)
    } else {
        match item.permission {
            None => Some(ActionPrompt::Permission),
            Some(p) => match missing_field(p) {
                Some(f) => Some(ActionPrompt::PermissionField(f)),
                None => None,
            },
        }
    }
}

/// A complete partial action resolves to the action with exactly its fields.
pub open spec fn resolved_action(item: CliAddAccessKeyAction, a: AddAccessKeyAction) -> bool {
    &&& item.public_key == Some(a.public_key)
    &&& item.nonce == Some(a.nonce)
    &&& item.permission matches Some(p) && resolved(p, a.permission)
}

impl CliAddAccessKeyAction {
    /// The next thing to ask for, or `None` when nothing is missing.
    pub fn next_prompt(&self) -> (r: Option<ActionPrompt>)
        ensures
            r == missing_prompt(*self),
    {
        if self.public_key.is_none() {
            Some(ActionPrompt::PublicKey)
        } else if self.nonce.is_none() {
            Some(ActionPrompt::Nonce)
        } else {
            match &self.permission {
                None => Some(ActionPrompt::Permission),
                Some(CliAccessKeyPermission::FunctionCallAction(f)) => {
                    if f.receiver_id.is_none() {
                        Some(ActionPrompt::PermissionField(PermissionField::ReceiverId))
                    } else if f.method_names.is_none() {
                        Some(ActionPrompt::PermissionField(PermissionField::MethodNames))
                    } else if f.allowance.is_none() {
                        Some(ActionPrompt::PermissionField(PermissionField::Allowance))
                    } else {
                        None
                    }
                },
                Some(CliAccessKeyPermission::FullAccessAction(_)) => None,
            }
        }
    }

    /// Takes a typed public key. Malformed text is refused and leaves the action as
    /// it was, so that the key is asked for again.
    pub fn answer_public_key(&mut self, text: &str) -> (accepted: bool)
        ensures
            accepted == (parsed_public_key(text@) is Some),
            accepted ==> (final(self).nonce == old(self).nonce
                && final(self).permission == old(self).permission
                && (final(self).public_key matches Some(k)
                && parsed_public_key(text@) == Some((k.key_type, k.data@)))),
            !accepted ==> *final(self) == *old(self),
    {
        match PublicKey::parse(text) {
            Some(k) => {
                self.public_key = Some(k);
                true
            },
            None => false,
        }
    }

    /// Takes a typed nonce; any value is accepted.
    pub fn answer_nonce(&mut self, nonce: u64)
        ensures
            *final(self) == (CliAddAccessKeyAction { nonce: Some(nonce), ..*old(self) }),
    {
        self.nonce = Some(nonce);
    }

    /// Takes the menu position of the chosen permission variant, whose fields are
    /// then all still to be asked for.
    pub fn answer_permission(&mut self, selection: usize)
        requires
            selection < PERMISSION_KIND_COUNT,
        ensures
            *final(self) == (CliAddAccessKeyAction {
                permission: Some(empty_of_kind(kind_at(selection as int))),
                ..*old(self)
            }),
    {
        self.permission = Some(AccessKeyPermission::choose_permission(selection));
    }
}

impl AddAccessKeyAction {
    /// Resolves a partial action: the action with exactly the supplied fields when
    /// nothing is missing, else the first thing that must still be asked for.
    pub fn resolve(item: CliAddAccessKeyAction) -> (r: Result<AddAccessKeyAction, ActionPrompt>)
        ensures
            match r {
                Ok(a) => missing_prompt(item) is None && resolved_action(item, a),
                Err(p) => missing_prompt(item) == Some(p),
            },
    {
        match item.public_key {
            None => Err(ActionPrompt::PublicKey),
            Some(public_key) => match item.nonce {
                None => Err(ActionPrompt::Nonce),
                Some(nonce) => match item.permission {
                    None => Err(ActionPrompt::Permission),
                    Some(p) => match AccessKeyPermission::resolve(p) {
                        Ok(permission) => Ok(AddAccessKeyAction { public_key, nonce, permission }),
                        Err(f) => Err(ActionPrompt::PermissionField(f)),
                    },
                },
            },
        }
    }
}

} // verus!
