use vstd::prelude::*;
use crate::account::{AccountId, account_id_valid};

verus! {

/// A permission that lets the key call only the listed methods of one receiver.
/// An empty `method_names` means any method of the receiver; `allowance: None`
/// means no limit on the fees the key may spend.
#[derive(Debug, Clone)]
pub struct FunctionCallType {
    pub allowance: Option<u128>,
    pub receiver_id: AccountId,
    pub method_names: Vec<String>,
}

/// A permission with full control of the account: it carries no fields.
#[derive(Debug, Clone, Copy, PartialEq, Eq, Structural)]
pub struct FullAccessType {}

/// The permission carried by a new access key: exactly one variant is active.
#[derive(Debug, Clone)]
pub enum AccessKeyPermission {
    FunctionCallAction(FunctionCallType),
    FullAccessAction(FullAccessType),
}

/// A partially supplied function-call permission: every field may be missing.
/// `allowance: Some(None)` is an answered "no limit"; `allowance: None` is unanswered.
#[derive(Debug, Clone, Default)]
pub struct CliFunctionCallType {
    pub allowance: Option<Option<u128>>,
    pub receiver_id: Option<AccountId>,
    pub method_names: Option<Vec<String>>,
}

/// A partially supplied full-access permission (it has nothing to supply).
#[derive(Debug, Clone, Copy, Default, PartialEq, Eq)]
pub struct CliFullAccessType {}

/// A permission whose variant is named, with its fields possibly still missing.
#[derive(Debug, Clone)]
pub enum CliAccessKeyPermission {
    FunctionCallAction(CliFunctionCallType),
    FullAccessAction(CliFullAccessType),
}

/// The discriminant of a permission variant, in the order in which the menu lists them.
#[derive(Debug, Clone, Copy, PartialEq, Eq, Structural)]
pub enum PermissionKind {
    FunctionCall,
    FullAccess,
}

/// A field of a permission that still has to be asked for.
#[derive(Debug, Clone, Copy, PartialEq, Eq, Structural)]
pub enum PermissionField {
    ReceiverId,
    MethodNames,
    Allowance,
}

/// The number of permission variants offered by the menu.
pub const PERMISSION_KIND_COUNT: usize = 2;

/// The variant shown at position `i` of the selection menu.
pub open spec fn kind_at(i: int) -> PermissionKind {
    if i == 0 {
        PermissionKind::FunctionCall
    } else {
        PermissionKind::FullAccess
    }
}

/// The menu label of each permission variant.
pub open spec fn kind_label(k: PermissionKind) -> Seq<char> {
    match k {
        PermissionKind::FunctionCall => "A permission with function call"@,
        PermissionKind::FullAccess => "A permission with full access"@,
    }
}

impl PermissionKind {
    /// The variant listed at position `index` of the menu.
    pub fn at(index: usize) -> (r: PermissionKind)
        requires
            index < PERMISSION_KIND_COUNT,
        ensures
            r == kind_at(index as int),
    {
        if index == 0 {
            PermissionKind::FunctionCall
        } else {
            PermissionKind::FullAccess
        }
    }

    /// The menu label of this variant.
    pub fn label(&self) -> (r: &'static str)
        ensures
            r@ == kind_label(*self),
    {
        match self {
            PermissionKind::FunctionCall => {
                proof {
                    reveal_strlit("A permission with function call");
                }
                "A permission with function call"
            },
            PermissionKind::FullAccess => {
                proof {
                    reveal_strlit("A permission with full access");
                }
                "A permission with full access"
            },
        }
    }

    /// The labels of all variants, in menu order.
    pub fn labels() -> (r: Vec<String>)
        ensures
            r@.len() == PERMISSION_KIND_COUNT,
            forall|i: int| 0 <= i < r@.len() ==> #[trigger] r@[i]@ == kind_label(kind_at(i)),
    {
        let mut r: Vec<String> = Vec::new();
        let mut i: usize = 0;
        while i < PERMISSION_KIND_COUNT
            invariant
                i <= PERMISSION_KIND_COUNT,
                r@.len() == i,
                forall|j: int| 0 <= j < i ==> #[trigger] r@[j]@ == kind_label(kind_at(j)),
            decreases PERMISSION_KIND_COUNT - i,
        {
            let k = PermissionKind::at(i);
            r.push(String::from_str(k.label()));
            i = i + 1;
        }
        r
    }
}

/// The variant that a partial permission names.
pub open spec fn cli_kind(p: CliAccessKeyPermission) -> PermissionKind {
    match p {
        CliAccessKeyPermission::FunctionCallAction(_) => PermissionKind::FunctionCall,
        CliAccessKeyPermission::FullAccessAction(_) => PermissionKind::FullAccess,
    }
}

/// A partial permission of the given variant with no field supplied.
pub open spec fn empty_of_kind(k: PermissionKind) -> CliAccessKeyPermission {
    match k {
        PermissionKind::FunctionCall => CliAccessKeyPermission::FunctionCallAction(
            CliFunctionCallType { allowance: None, receiver_id: None, method_names: None },
        ),
        PermissionKind::FullAccess => CliAccessKeyPermission::FullAccessAction(CliFullAccessType {}),
    }
}

/// The first field of a partial permission that is still missing, in the order
/// receiver, methods, allowance.
pub open spec fn missing_field(p: CliAccessKeyPermission) -> Option<PermissionField> {
    match p {
        CliAccessKeyPermission::FunctionCallAction(f) => {
            if f.receiver_id.is_none() {
                Some(PermissionField::ReceiverId)
            } else if f.method_names.is_none() {
                Some(PermissionField::MethodNames)
            } else if f.allowance.is_none() {
                Some(PermissionField::Allowance)
            } else {
                None
            }
        },
        CliAccessKeyPermission::FullAccessAction(_) => None,
    }
}

/// What a fully supplied partial permission resolves to: each field is taken as given.
pub open spec fn resolved(p: CliAccessKeyPermission, r: AccessKeyPermission) -> bool {
    match p {
        CliAccessKeyPermission::FunctionCallAction(f) => match r {
            AccessKeyPermission::FunctionCallAction(t) => f.receiver_id == Some(t.receiver_id)
                && f.method_names == Some(t.method_names) && f.allowance == Some(t.allowance),
            AccessKeyPermission::FullAccessAction(_) => false,
        },
        CliAccessKeyPermission::FullAccessAction(_) => r is FullAccessAction,
    }
}

impl AccessKeyPermission {
    /// The partial permission for the variant chosen at position `selection` of the menu,
    /// with none of its fields supplied yet.
    pub fn choose_permission(selection: usize) -> (r: CliAccessKeyPermission)
        requires
            selection < PERMISSION_KIND_COUNT,
        ensures
            r == empty_of_kind(kind_at(selection as int)),
    {
        match PermissionKind::at(selection) {
            PermissionKind::FunctionCall => CliAccessKeyPermission::FunctionCallAction(
                CliFunctionCallType { allowance: None, receiver_id: None, method_names: None },
            ),
            PermissionKind::FullAccess => CliAccessKeyPermission::FullAccessAction(
                CliFullAccessType {},
            ),
        }
    }

    /// Resolves a partial permission: the complete permission when every field of the
    /// named variant is supplied, else the first field that must still be asked for.
    pub fn resolve(item: CliAccessKeyPermission) -> (r: Result<AccessKeyPermission, PermissionField>)
        ensures
            match r {
                Ok(p) => missing_field(item) is None && resolved(item, p),
                Err(f) => missing_field(item) == Some(f),
            },
    {
        match item {
            CliAccessKeyPermission::FunctionCallAction(f) => {
                match f.receiver_id {
                    None => Err(PermissionField::ReceiverId),
                    Some(receiver_id) => match f.method_names {
                        None => Err(PermissionField::MethodNames),
                        Some(method_names) => match f.allowance {
                            None => Err(PermissionField::Allowance),
                            Some(allowance) => Ok(
                                AccessKeyPermission::FunctionCallAction(
                                    FunctionCallType { allowance, receiver_id, method_names },
                                ),
                            ),
                        },
                    },
                }
            },
            CliAccessKeyPermission::FullAccessAction(_) => Ok(
                AccessKeyPermission::FullAccessAction(FullAccessType {}),
            ),
        }
    }
}

impl CliAccessKeyPermission {
    /// Takes a typed receiver id for a function-call permission. Text that breaks the
    /// naming grammar is refused and changes nothing, so the id is asked for again.
    pub fn answer_receiver_id(&mut self, text: &str) -> (accepted: bool)
        ensures
            accepted == (account_id_valid(text@) && *old(self) is FunctionCallAction),
            accepted ==> (*final(self) matches CliAccessKeyPermission::FunctionCallAction(f)
                && (*old(self) matches CliAccessKeyPermission::FunctionCallAction(g)
                && f.allowance == g.allowance && f.method_names == g.method_names
                && (f.receiver_id matches Some(a) && a@ == text@))),
            !accepted ==> *final(self) == *old(self),
    {
        match self {
            CliAccessKeyPermission::FunctionCallAction(f) => match AccountId::parse(text) {
                Some(a) => {
                    f.receiver_id = Some(a);
                    true
                },
                None => false,
            },
            CliAccessKeyPermission::FullAccessAction(_) => false,
        }
    }

    /// Takes the method names of a function-call permission; an empty list allows
    /// any method of the receiver.
    pub fn answer_method_names(&mut self, names: Vec<String>)
        ensures
            match *old(self) {
                CliAccessKeyPermission::FunctionCallAction(g) => *final(self)
                    == CliAccessKeyPermission::FunctionCallAction(
                    CliFunctionCallType { method_names: Some(names), ..g },
                ),
                CliAccessKeyPermission::FullAccessAction(_) => *final(self) == *old(self),
            },
    {
        match self {
            CliAccessKeyPermission::FunctionCallAction(f) => {
                f.method_names = Some(names);
            },
            CliAccessKeyPermission::FullAccessAction(_) => {},
        }
    }

    /// Takes the allowance of a function-call permission; `None` means no limit.
    pub fn answer_allowance(&mut self, allowance: Option<u128>)
        ensures
            match *old(self) {
                CliAccessKeyPermission::FunctionCallAction(g) => *final(self)
                    == CliAccessKeyPermission::FunctionCallAction(
                    CliFunctionCallType { allowance: Some(allowance), ..g },
                ),
                CliAccessKeyPermission::FullAccessAction(_) => *final(self) == *old(self),
            },
    {
        match self {
            CliAccessKeyPermission::FunctionCallAction(f) => {
                f.allowance = Some(allowance);
            },
            CliAccessKeyPermission::FullAccessAction(_) => {},
        }
    }
}

} // verus!
