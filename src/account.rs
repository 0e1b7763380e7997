use vstd::prelude::*;
use std::str::FromStr;

verus! {

/// A separator of account-id parts.
pub open spec fn is_separator(c: char) -> bool {
    c == '-' || c == '_' || c == '.'
}

/// A character that may stand in an account id.
pub open spec fn is_account_char(c: char) -> bool {
    ('a' <= c && c <= 'z') || ('0' <= c && c <= '9') || is_separator(c)
}

/// The ledger's account-naming grammar: two to sixty-four lowercase letters, digits
/// and separators, neither starting nor ending with a separator, with no two
/// separators in a row.
pub open spec fn account_id_valid(s: Seq<char>) -> bool {
    &&& 2 <= s.len() <= 64
    &&& forall|i: int| 0 <= i < s.len() ==> is_account_char(#[trigger] s[i])
    &&& !is_separator(s[0])
    &&& !is_separator(s.last())
    &&& forall|i: int|
        0 <= i < s.len() - 1 ==> !(is_separator(#[trigger] s[i]) && is_separator(s[i + 1]))
}

/// Relies on `near_account_id::AccountId::from_str`, which accepts exactly the ids
/// of the ledger's naming grammar.
#[verifier::external_body]
fn account_id_accepted(s: &str) -> (r: bool)
    ensures
        r == account_id_valid(s@),
{
    near_account_id::AccountId::from_str(s).is_ok()
}

/// A ledger account id that follows the naming grammar.
#[derive(Debug, Clone, PartialEq, Eq)]
pub struct AccountId {
    id: String,
}

impl AccountId {
    pub open spec fn view(&self) -> Seq<char> {
        self.spec_text()
    }

    pub closed spec fn spec_text(&self) -> Seq<char> {
        self.id@
    }

    pub closed spec fn wf(&self) -> bool {
        account_id_valid(self.id@)
    }

    /// Reads an account id; `None` where the text breaks the naming grammar.
    pub fn parse(s: &str) -> (r: Option<AccountId>)
        ensures
            match r {
                Some(a) => account_id_valid(s@) && a@ == s@ && a.wf(),
                None => !account_id_valid(s@),
            },
    {
        if account_id_accepted(s) {
            Some(AccountId { id: s.to_owned() })
        } else {
            None
        }
    }

    /// A copy of this id.
    pub fn duplicate(&self) -> (r: AccountId)
        ensures
            r == *self,
    {
        AccountId { id: self.id.clone() }
    }

    /// The id as text.
    pub fn as_str(&self) -> (r: &str)
        ensures
            r@ == self@,
    {
        self.id.as_str()
    }

    /// The id as an owned string.
    pub fn to_text(&self) -> (r: String)
        ensures
            r@ == self@,
    {
        self.id.clone()
    }
}

} // verus!
