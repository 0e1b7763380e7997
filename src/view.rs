use vstd::prelude::*;
use std::collections::VecDeque;

verus! {

/// The lowercase hexadecimal digit for a value below sixteen.
pub open spec fn hex_digit(v: u8) -> char {
    if v < 10 {
        (v + 48) as char
    } else {
        (v + 87) as char
    }
}

/// Two lowercase hexadecimal digits for each byte, high digit first.
pub open spec fn hex_of(b: Seq<u8>) -> Seq<char>
    decreases b.len(),
{
    if b.len() == 0 {
        Seq::empty()
    } else {
        hex_of(b.drop_last()) + seq![hex_digit(b.last() / 16), hex_digit(b.last() % 16)]
    }
}

/// The decimal digits of `n`, most significant first, with no leading zero.
pub open spec fn decimal(n: nat) -> Seq<char>
    decreases n,
{
    if n < 10 {
        seq![(n + 48) as char]
    } else {
        decimal(n / 10) + seq![((n % 10) + 48) as char]
    }
}

/// Relies on `hex::encode`: two lowercase digits for each byte, in order.
#[verifier::external_body]
fn hex_encode(b: &[u8; 32]) -> (r: String)
    ensures
        r@ == hex_of(b@),
{
    hex::encode(b)
}

/// Relies on `ToString` of `u64`: its decimal digits, with no sign or padding.
#[verifier::external_body]
fn u64_text(n: u64) -> (r: String)
    ensures
        r@ == decimal(n as nat),
{
    n.to_string()
}

/// A block height to look at an account at, possibly still to be asked for.
#[derive(Debug, Clone, Copy, Default, PartialEq, Eq)]
pub struct CliBlockIdHeight {
    pub block_id_height: Option<u64>,
}

/// The block height at which an account is looked at.
#[derive(Debug, Clone, Copy, PartialEq, Eq)]
pub struct BlockIdHeight {
    pub block_id_height: u64,
}

impl CliBlockIdHeight {
    /// The command-line arguments that give this height: its decimal text, if any.
    pub fn to_cli_args(&self) -> (r: VecDeque<String>)
        ensures
            match self.block_id_height {
                Some(h) => r@.len() == 1 && r@[0]@ == decimal(h as nat),
                None => r@.len() == 0,
            },
    {
        let mut args: VecDeque<String> = VecDeque::new();
        if let Some(h) = self.block_id_height {
            args.push_front(u64_text(h));
        }
        args
    }
}

impl From<BlockIdHeight> for CliBlockIdHeight {
    fn from(b: BlockIdHeight) -> (r: CliBlockIdHeight)
        ensures
            r.block_id_height == Some(b.block_id_height),
    {
        CliBlockIdHeight { block_id_height: Some(b.block_id_height) }
    }
}

impl vstd::std_specs::convert::FromSpecImpl<BlockIdHeight> for CliBlockIdHeight {
    open spec fn obeys_from_spec() -> bool {
        true
    }

    open spec fn from_spec(b: BlockIdHeight) -> CliBlockIdHeight {
        CliBlockIdHeight { block_id_height: Some(b.block_id_height) }
    }
}

impl BlockIdHeight {
    /// The height given on the command line, or `None` when it must be asked for.
    pub fn resolve(item: CliBlockIdHeight) -> (r: Option<BlockIdHeight>)
        ensures
            match item.block_id_height {
                Some(h) => r == Some(BlockIdHeight { block_id_height: h }),
                None => r is None,
            },
    {
        match item.block_id_height {
            Some(h) => Some(BlockIdHeight { block_id_height: h }),
            None => None,
        }
    }
}

/// Whether a code hash is the all-zero default hash of an account without contract.
pub open spec fn is_default_hash(h: Seq<u8>) -> bool {
    forall|i: int| 0 <= i < h.len() ==> h[i] == 0
}

/// The line that describes an account's contract code by its hash.
pub open spec fn code_hash_message_spec(h: Seq<u8>) -> Seq<char> {
    if is_default_hash(h) {
        "Contract code is not deployed to this account."@
    } else {
        "Contract code SHA-256 checksum (hex): "@ + hex_of(h)
    }
}

/// Describes an account's contract code: not deployed for the default hash, else
/// the hash in hexadecimal.
pub fn code_hash_message(code_hash: &[u8; 32]) -> (r: String)
    ensures
        r@ == code_hash_message_spec(code_hash@),
{
    let mut i: usize = 0;
    while i < 32
        invariant
            i <= 32,
            code_hash@.len() == 32,
            forall|j: int| 0 <= j < i ==> code_hash@[j] == 0,
        decreases 32 - i,
    {
        if code_hash[i] != 0 {
            proof {
                reveal_strlit("Contract code SHA-256 checksum (hex): ");
            }
            let mut r = String::from_str("Contract code SHA-256 checksum (hex): ");
            let digits = hex_encode(code_hash);
            r.append(digits.as_str());
            return r;
        }
        i = i + 1;
    }
    proof {
        reveal_strlit("Contract code is not deployed to this account.");
    }
    String::from_str("Contract code is not deployed to this account.")
}

/// The permission of a registered access key, as the ledger reports it.
#[derive(Debug, Clone)]
pub enum AccessKeyPermissionView {
    FullAccess,
    FunctionCall { allowance: Option<u128>, receiver_id: String, method_names: Vec<String> },
}

/// The text that `Debug` gives for a list of strings.
pub uninterp spec fn debug_list(names: Seq<Seq<char>>) -> Seq<char>;

/// Relies on the `Debug` impl of `Vec<String>` to render the method names.
#[verifier::external_body]
fn debug_names(names: &Vec<String>) -> (r: String)
    ensures
        r@ == debug_list(names@.map_values(|n: String| n@)),
{
    format!("{:?}", names)
}

/// How an access key's permission is described; `allowance_text` is the formatted
/// allowance, used only when the key has one.
pub open spec fn permission_message_spec(p: AccessKeyPermissionView, allowance_text: Seq<char>) -> Seq<
    char,
> {
    match p {
        AccessKeyPermissionView::FullAccess => "full access"@,
        AccessKeyPermissionView::FunctionCall { allowance, receiver_id, method_names } => "only do "@
            + debug_list(method_names@.map_values(|n: String| n@)) + " function calls on "@
            + receiver_id@ + " "@ + match allowance {
            Some(_) => "with an allowance of "@ + allowance_text,
            None => "with no limit"@,
        },
    }
}

/// Describes what an access key is granted.
pub fn permission_message(p: &AccessKeyPermissionView, allowance_text: &str) -> (r: String)
    ensures
        r@ == permission_message_spec(*p, allowance_text@),
{
    match p {
        AccessKeyPermissionView::FullAccess => {
            proof {
                reveal_strlit("full access");
            }
            String::from_str("full access")
        },
        AccessKeyPermissionView::FunctionCall { allowance, receiver_id, method_names } => {
            proof {
                reveal_strlit("only do ");
                reveal_strlit(" function calls on ");
                reveal_strlit(" ");
                reveal_strlit("with an allowance of ");
                reveal_strlit("with no limit");
            }
            let mut r = String::from_str("only do ");
            let names = debug_names(method_names);
            r.append(names.as_str());
            r.append(" function calls on ");
            r.append(receiver_id.as_str());
            r.append(" ");
            match allowance {
                Some(_) => {
                    r.append("with an allowance of ");
                    r.append(allowance_text);
                },
                None => {
                    r.append("with no limit");
                },
            }
            r
        },
    }
}

/// `s` right-aligned in a field of `width` characters, padded with spaces.
pub open spec fn pad_left(s: Seq<char>, width: nat) -> Seq<char> {
    if s.len() >= width {
        s
    } else {
        Seq::new((width - s.len()) as nat, |i: int| ' ') + s
    }
}

/// The listing line of the access key at zero-based position `index`.
pub open spec fn access_key_line_spec(
    index: nat,
    public_key: Seq<char>,
    nonce: nat,
    permission: Seq<char>,
) -> Seq<char> {
    pad_left(decimal(index + 1), 4) + ". "@ + public_key + " (nonce: "@ + decimal(nonce)
        + ") is granted to "@ + permission
}

/// Formats one line of an account's access-key listing, numbered from one.
pub fn access_key_line(index: u64, public_key: &str, nonce: u64, permission: &str) -> (r: String)
    requires
        index < u64::MAX,
    ensures
        r@ == access_key_line_spec(index as nat, public_key@, nonce as nat, permission@),
{
    proof {
        reveal_strlit(" ");
        reveal_strlit(". ");
        reveal_strlit(" (nonce: ");
        reveal_strlit(") is granted to ");
    }
    let number = u64_text(index + 1);
    let mut r = String::new();
    let mut k: usize = number.as_str().unicode_len();
    while k < 4
        invariant
            number@.len() <= k <= 4 || (k == number@.len() && k >= 4),
            r@ == Seq::new((k - number@.len()) as nat, |i: int| ' '),
        decreases 4 - k,
    {
        proof {
            reveal_strlit(" ");
        }
        r.append(" ");
        k = k + 1;
        assert(r@ =~= Seq::new((k - number@.len()) as nat, |i: int| ' '));
    }
    assert(r@ + number@ =~= pad_left(number@, 4));
    r.append(number.as_str());
    r.append(". ");
    r.append(public_key);
    r.append(" (nonce: ");
    let n = u64_text(nonce);
    r.append(n.as_str());
    r.append(") is granted to ");
    r.append(permission);
    r
}

} // verus!
