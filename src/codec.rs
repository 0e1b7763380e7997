use vstd::prelude::*;
use crate::store::Credential;

verus! {

/// A field that can stand between quotes of the record without escaping.
pub open spec fn plain(s: Seq<char>) -> bool {
    forall|i: int| 0 <= i < s.len() ==> #[trigger] s[i] != '"' && s[i] != '\\'
}

/// What a record starts with, up to the account id.
pub open spec fn open_account() -> Seq<char> {
    "{\"account_id\":\""@
}

/// What stands between the account id and the public key.
pub open spec fn open_public() -> Seq<char> {
    "\",\"public_key\":\""@
}

/// What stands between the public key and the private key.
pub open spec fn open_private() -> Seq<char> {
    "\",\"private_key\":\""@
}

/// What a record ends with, after the private key.
pub open spec fn close_record() -> Seq<char> {
    "\"}"@
}

/// The stored record of a credential: a JSON object with the fields `account_id`,
/// `public_key` and `private_key`, in that order.
pub open spec fn encoded(a: Seq<char>, p: Seq<char>, s: Seq<char>) -> Seq<char> {
    open_account() + a + open_public() + p + open_private() + s + close_record()
}

/// Why a credential could not be written as a record.
#[derive(Debug, Clone, Copy, PartialEq, Eq, Structural)]
pub enum EncodeError {
    /// A field holds a quote or a backslash.
    UnplainField,
}

proof fn lemma_literals()
    ensures
        open_account() == seq!['{', '"', 'a', 'c', 'c', 'o', 'u', 'n', 't', '_', 'i', 'd', '"', ':', '"'],
        open_public() == seq![
            '"', ',', '"', 'p', 'u', 'b', 'l', 'i', 'c', '_', 'k', 'e', 'y', '"', ':', '"',
        ],
        open_private() == seq![
            '"', ',', '"', 'p', 'r', 'i', 'v', 'a', 't', 'e', '_', 'k', 'e', 'y', '"', ':', '"',
        ],
        close_record() == seq!['"', '}'],
{
    reveal_strlit("{\"account_id\":\"");
    reveal_strlit("\",\"public_key\":\"");
    reveal_strlit("\",\"private_key\":\"");
    reveal_strlit("\"}");
}

/// Whether a text has no quote and no backslash.
pub fn is_plain(s: &str) -> (r: bool)
    ensures
        r == plain(s@),
{
    let n = s.unicode_len();
    let mut i: usize = 0;
    while i < n
        invariant
            n == s@.len(),
            i <= n,
            forall|j: int| 0 <= j < i ==> #[trigger] s@[j] != '"' && s@[j] != '\\',
        decreases n - i,
    {
        let c = s.get_char(i);
        if c == '"' || c == '\\' {
            return false;
        }
        i = i + 1;
    }
    true
}

/// Writes a credential as its record; fields with a quote or a backslash are refused.
pub fn encode_credential(c: &Credential) -> (r: Result<String, EncodeError>)
    ensures
        match r {
            Ok(t) => plain(c.account_id@) && plain(c.public_key@) && plain(c.private_key@)
                && t@ == encoded(c.account_id@, c.public_key@, c.private_key@),
            Err(_) => !(plain(c.account_id@) && plain(c.public_key@) && plain(c.private_key@)),
        },
{
    if !is_plain(c.account_id.as_str()) || !is_plain(c.public_key.as_str()) || !is_plain(
        c.private_key.as_str(),
    ) {
        return Err(EncodeError::UnplainField);
    }
    let mut t = String::from_str("{\"account_id\":\"");
    t.append(c.account_id.as_str());
    t.append("\",\"public_key\":\"");
    t.append(c.public_key.as_str());
    t.append("\",\"private_key\":\"");
    t.append(c.private_key.as_str());
    t.append("\"}");
    Ok(t)
}

/// Whether `lit` stands in `text` at position `pos`.
fn literal_at(text: &str, pos: usize, lit: &str) -> (r: bool)
    requires
        pos <= text@.len(),
    ensures
        r == (pos + lit@.len() <= text@.len() && text@.subrange(pos as int, pos + lit@.len())
            == lit@),
{
    let n = text.unicode_len();
    let m = lit.unicode_len();
    if m > n - pos {
        return false;
    }
    let mut i: usize = 0;
    while i < m
        invariant
            n == text@.len(),
            m == lit@.len(),
            pos + m <= n,
            i <= m,
            forall|j: int| 0 <= j < i ==> text@[pos + j] == lit@[j],
        decreases m - i,
    {
        if text.get_char(pos + i) != lit.get_char(i) {
            assert(text@.subrange(pos as int, pos + m)[i as int] != lit@[i as int]);
            return false;
        }
        i = i + 1;
    }
    assert(text@.subrange(pos as int, pos + m) =~= lit@);
    true
}

/// The position of the first quote at or after `from`, or the end of the text.
fn quote_from(text: &str, from: usize) -> (r: usize)
    requires
        from <= text@.len(),
    ensures
        from <= r <= text@.len(),
        forall|j: int| from <= j < r ==> text@[j] != '"',
        r < text@.len() ==> text@[r as int] == '"',
{
    let n = text.unicode_len();
    let mut i: usize = from;
    while i < n
        invariant
            n == text@.len(),
            from <= i <= n,
            forall|j: int| from <= j < i ==> text@[j] != '"',
        decreases n - i,
    {
        if text.get_char(i) == '"' {
            return i;
        }
        i = i + 1;
    }
    i
}

/// In an encoded record, a plain field ends at the first quote after it starts.
proof fn lemma_field_ends(t: Seq<char>, start: int, f: Seq<char>, rest: Seq<char>)
    requires
        plain(f),
        rest.len() > 0,
        rest[0] == '"',
        0 <= start,
        t.len() >= start + f.len() + rest.len(),
        t.subrange(start, start + f.len() + rest.len()) == f + rest,
    ensures
        forall|j: int| start <= j < start + f.len() ==> t[j] != '"',
        t[start + f.len()] == '"',
        t.subrange(start, start + f.len()) == f,
{
    assert forall|j: int| start <= j < start + f.len() implies t[j] != '"' by {
        assert(t.subrange(start, start + f.len() + rest.len())[j - start] == (f + rest)[j - start]);
        assert((f + rest)[j - start] == f[j - start]);
        assert(f[j - start] != '"');
    }
    assert(t.subrange(start, start + f.len() + rest.len())[f.len() as int] == (f + rest)[f.len() as int]);
    assert((f + rest)[f.len() as int] == rest[0]);
    assert(t.subrange(start, start + f.len()) =~= f) by {
        assert forall|j: int| 0 <= j < f.len() implies t.subrange(start, start + f.len())[j] == f[j] by {
            assert(t.subrange(start, start + f.len() + rest.len())[j] == (f + rest)[j]);
        }
    }
}

/// Where the parts of an encoded record stand.
proof fn lemma_shape(a: Seq<char>, p: Seq<char>, s: Seq<char>)
    ensures
        ({
            let t = encoded(a, p, s);
            let b1: int = 15 + (a.len() as int);
            let b2: int = b1 + 16 + (p.len() as int);
            let b3: int = b2 + 17 + (s.len() as int);
            &&& open_account().len() == 15
            &&& open_public().len() == 16
            &&& open_private().len() == 17
            &&& close_record().len() == 2
            &&& open_public()[0] == '"'
            &&& open_private()[0] == '"'
            &&& close_record()[0] == '"'
            &&& t.len() == b3 + 2
            &&& t.subrange(0, 15) == open_account()
            &&& t.subrange(15, b1 + 16) == a + open_public()
            &&& t.subrange(b1, b1 + 16) == open_public()
            &&& t.subrange(b1 + 16, b2 + 17) == p + open_private()
            &&& t.subrange(b2, b2 + 17) == open_private()
            &&& t.subrange(b2 + 17, b3 + 2) == s + close_record()
            &&& t.subrange(b3, b3 + 2) == close_record()
        }),
{
    lemma_literals();
    let t = encoded(a, p, s);
    let b1: int = 15 + (a.len() as int);
    let b2: int = b1 + 16 + (p.len() as int);
    let b3: int = b2 + 17 + (s.len() as int);
    assert(t.subrange(0, 15) =~= open_account());
    assert(t.subrange(15, b1 + 16) =~= a + open_public());
    assert(t.subrange(b1, b1 + 16) =~= open_public());
    assert(t.subrange(b1 + 16, b2 + 17) =~= p + open_private());
    assert(t.subrange(b2, b2 + 17) =~= open_private());
    assert(t.subrange(b2 + 17, b3 + 2) =~= s + close_record());
    assert(t.subrange(b3, b3 + 2) =~= close_record());
}

/// The first quote at or after the start of a plain field ends that field.
proof fn lemma_first_quote(t: Seq<char>, start: int, f: Seq<char>, rest: Seq<char>, e: int)
    requires
        plain(f),
        rest.len() > 0,
        rest[0] == '"',
        0 <= start <= e <= t.len(),
        t.len() >= start + f.len() + rest.len(),
        t.subrange(start, start + f.len() + rest.len()) == f + rest,
        forall|j: int| start <= j < e ==> t[j] != '"',
        e < t.len() ==> t[e] == '"',
    ensures
        e == start + f.len(),
        t.subrange(start, e) == f,
{
    lemma_field_ends(t, start, f, rest);
    if e < start + f.len() {
        assert(t[e] != '"');
    }
    if e > start + f.len() {
        assert(t[start + f.len()] != '"');
    }
}

/// The first quote at or after `from` in `t` is at `e`.
pub open spec fn first_quote_at(t: Seq<char>, from: int, e: int) -> bool {
    &&& from <= e <= t.len()
    &&& forall|j: int| from <= j < e ==> t[j] != '"'
    &&& e < t.len() ==> t[e] == '"'
}

/// `lit` stands in `t` at `pos`.
pub open spec fn literal_in(t: Seq<char>, pos: int, lit: Seq<char>) -> bool {
    pos + lit.len() <= t.len() && t.subrange(pos, pos + lit.len()) == lit
}

/// No plain fields make a record of `t`.
pub open spec fn no_record(t: Seq<char>) -> bool {
    forall|a: Seq<char>, p: Seq<char>, s: Seq<char>|
        plain(a) && plain(p) && plain(s) ==> t != #[trigger] encoded(a, p, s)
}

/// Where a record of plain fields stands, its parts are found by the first quotes.
proof fn lemma_record_parts(
    t: Seq<char>,
    a: Seq<char>,
    p: Seq<char>,
    s: Seq<char>,
    e1: int,
    e2: int,
    e3: int,
)
    requires
        plain(a) && plain(p) && plain(s),
        t == encoded(a, p, s),
    ensures
        literal_in(t, 0, open_account()),
        first_quote_at(t, 15, e1) ==> e1 == 15 + (a.len() as int) && literal_in(t, e1, open_public())
            && t.subrange(15, e1) == a,
        first_quote_at(t, 15, e1) && first_quote_at(t, e1 + 16, e2) ==> e2 == e1 + 16 + (p.len() as int)
            && literal_in(t, e2, open_private()) && t.subrange(e1 + 16, e2) == p,
        first_quote_at(t, 15, e1) && first_quote_at(t, e1 + 16, e2) && first_quote_at(t, e2 + 17, e3)
            ==> e3 == e2 + 17 + (s.len() as int) && literal_in(t, e3, close_record()) && e3 + 2
            == t.len() && t.subrange(e2 + 17, e3) == s,
{
    lemma_shape(a, p, s);
    if first_quote_at(t, 15, e1) {
        lemma_first_quote(t, 15, a, open_public(), e1);
        if first_quote_at(t, e1 + 16, e2) {
            lemma_first_quote(t, e1 + 16, p, open_private(), e2);
            if first_quote_at(t, e2 + 17, e3) {
                lemma_first_quote(t, e2 + 17, s, close_record(), e3);
            }
        }
    }
}

/// A text with the literals of a record around its fields is the record of those fields.
proof fn lemma_is_record(t: Seq<char>, e1: int, e2: int, e3: int)
    requires
        literal_in(t, 0, open_account()),
        15 <= e1,
        literal_in(t, e1, open_public()),
        e1 + 16 <= e2,
        literal_in(t, e2, open_private()),
        e2 + 17 <= e3,
        literal_in(t, e3, close_record()),
        e3 + 2 == t.len(),
    ensures
        t == encoded(t.subrange(15, e1), t.subrange(e1 + 16, e2), t.subrange(e2 + 17, e3)),
{
    lemma_literals();
    let a = t.subrange(15, e1);
    let p = t.subrange(e1 + 16, e2);
    let s = t.subrange(e2 + 17, e3);
    assert(t =~= open_account() + a + open_public() + p + open_private() + s + close_record()) by {
        assert forall|j: int| 0 <= j < t.len() implies t[j] == (open_account() + a + open_public() + p
            + open_private() + s + close_record())[j] by {
            if j < 15 {
                assert(t.subrange(0, 15)[j] == t[j]);
            } else if j < e1 {
            } else if j < e1 + 16 {
                assert(t.subrange(e1, e1 + 16)[j - e1] == t[j]);
            } else if j < e2 {
            } else if j < e2 + 17 {
                assert(t.subrange(e2, e2 + 17)[j - e2] == t[j]);
            } else if j < e3 {
            } else {
                assert(t.subrange(e3, e3 + 2)[j - e3] == t[j]);
            }
        }
    }
}

/// Reads a credential back from its record; `None` for any text that is not the
/// record of a credential with plain fields.
pub fn decode_credential(text: &str) -> (r: Option<Credential>)
    ensures
        match r {
            Some(c) => plain(c.account_id@) && plain(c.public_key@) && plain(c.private_key@)
                && text@ == encoded(c.account_id@, c.public_key@, c.private_key@),
            None => no_record(text@),
        },
{
    let ghost t = text@;
    proof {
        lemma_literals();
    }
    let n = text.unicode_len();
    if !literal_at(text, 0, "{\"account_id\":\"") {
        proof {
            assert forall|a: Seq<char>, p: Seq<char>, s: Seq<char>|
                plain(a) && plain(p) && plain(s) implies t != #[trigger] encoded(a, p, s) by {
                if t == encoded(a, p, s) {
                    lemma_record_parts(t, a, p, s, 0, 0, 0);
                }
            }
        }
        return None;
    }
    let s1: usize = 15;
    let e1 = quote_from(text, s1);
    if !literal_at(text, e1, "\",\"public_key\":\"") {
        proof {
            assert forall|a: Seq<char>, p: Seq<char>, s: Seq<char>|
                plain(a) && plain(p) && plain(s) implies t != #[trigger] encoded(a, p, s) by {
                if t == encoded(a, p, s) {
                    lemma_record_parts(t, a, p, s, e1 as int, 0, 0);
                }
            }
        }
        return None;
    }
    let s2: usize = e1 + 16;
    let e2 = quote_from(text, s2);
    if !literal_at(text, e2, "\",\"private_key\":\"") {
        proof {
            assert forall|a: Seq<char>, p: Seq<char>, s: Seq<char>|
                plain(a) && plain(p) && plain(s) implies t != #[trigger] encoded(a, p, s) by {
                if t == encoded(a, p, s) {
                    lemma_record_parts(t, a, p, s, e1 as int, e2 as int, 0);
                }
            }
        }
        return None;
    }
    let s3: usize = e2 + 17;
    let e3 = quote_from(text, s3);
    if !literal_at(text, e3, "\"}") || e3 + 2 != n {
        proof {
            assert forall|a: Seq<char>, p: Seq<char>, s: Seq<char>|
                plain(a) && plain(p) && plain(s) implies t != #[trigger] encoded(a, p, s) by {
                if t == encoded(a, p, s) {
                    lemma_record_parts(t, a, p, s, e1 as int, e2 as int, e3 as int);
                }
            }
        }
        return None;
    }
    let a = text.substring_char(s1, e1);
    let p = text.substring_char(s2, e2);
    let s = text.substring_char(s3, e3);
    if !is_plain(a) || !is_plain(p) || !is_plain(s) {
        proof {
            assert forall|a2: Seq<char>, p2: Seq<char>, s2x: Seq<char>|
                plain(a2) && plain(p2) && plain(s2x) implies t != #[trigger] encoded(a2, p2, s2x) by {
                if t == encoded(a2, p2, s2x) {
                    lemma_record_parts(t, a2, p2, s2x, e1 as int, e2 as int, e3 as int);
                }
            }
        }
        return None;
    }
    proof {
        lemma_is_record(t, e1 as int, e2 as int, e3 as int);
    }
    Some(Credential { account_id: a.to_owned(), public_key: p.to_owned(), private_key: s.to_owned() })
}

/// Reading back the record written for a credential gives that credential's account
/// id, public key and private key, exactly: two credentials with plain fields that
/// have the same record are the same credential. With the contracts of
/// `encode_credential` and `decode_credential`, decoding an encoded record returns
/// the fields that were encoded.
pub proof fn lemma_record_round_trip(a: Seq<char>, p: Seq<char>, s: Seq<char>, a2: Seq<char>, p2: Seq<char>, s2: Seq<char>)
    requires
        plain(a) && plain(p) && plain(s),
        plain(a2) && plain(p2) && plain(s2),
        encoded(a, p, s) == encoded(a2, p2, s2),
    ensures
        a == a2 && p == p2 && s == s2,
{
    let t = encoded(a, p, s);
    lemma_shape(a, p, s);
    lemma_shape(a2, p2, s2);
    lemma_field_ends(t, 15, a, open_public());
    lemma_first_quote(t, 15, a2, open_public(), 15 + (a.len() as int));
    lemma_field_ends(t, 15 + (a.len() as int) + 16, p, open_private());
    lemma_first_quote(t, 15 + (a.len() as int) + 16, p2, open_private(), 15 + (a.len() as int) + 16 + (p.len() as int));
    lemma_field_ends(t, 15 + (a.len() as int) + 16 + (p.len() as int) + 17, s, close_record());
    lemma_first_quote(t, 15 + (a.len() as int) + 16 + (p.len() as int) + 17, s2, close_record(), 15 + (a.len() as int) + 16 + (p.len() as int) + 17 + (s.len() as int));
}

} // verus!
