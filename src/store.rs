use vstd::prelude::*;

verus! {

/// A stored credential: the account, and the key pair in canonical text.
#[derive(Debug, Clone)]
pub struct Credential {
    pub account_id: String,
    pub public_key: String,
    pub private_key: String,
}

/// Where a credential lives: its network and its account.
pub type Location = (Seq<char>, Seq<char>);

/// What a credential holds: account id, public key, private key.
pub type Triple = (Seq<char>, Seq<char>, Seq<char>);

impl Credential {
    pub open spec fn triple(&self) -> Triple {
        (self.account_id@, self.public_key@, self.private_key@)
    }

    /// A copy of this credential.
    pub fn duplicate(&self) -> (r: Credential)
        ensures
            r == *self,
    {
        Credential {
            account_id: self.account_id.clone(),
            public_key: self.public_key.clone(),
            private_key: self.private_key.clone(),
        }
    }
}

/// The backends a credential can be stored in.
#[derive(Debug, Clone, Copy, PartialEq, Eq, Structural)]
pub enum Backend {
    /// The host's native secure credential facility.
    NativeKeychain,
    /// One file per network and account under the credentials directory.
    LegacyFile,
}

/// The backends to offer, in menu order: both where the host has a native facility,
/// else the file store alone, which is then used without asking.
pub fn storage_options(native_available: bool) -> (r: Vec<Backend>)
    ensures
        native_available ==> r@ == seq![Backend::NativeKeychain, Backend::LegacyFile],
        !native_available ==> r@ == seq![Backend::LegacyFile],
{
    let mut r: Vec<Backend> = Vec::new();
    if native_available {
        r.push(Backend::NativeKeychain);
    }
    r.push(Backend::LegacyFile);
    r
}

/// The file of a credential relative to the credentials directory:
/// `<network>/<account_id>.json`.
pub fn credential_location(network: &str, account_id: &str) -> (r: String)
    ensures
        r@ == network@ + "/"@ + account_id@ + ".json"@,
{
    proof {
        reveal_strlit("/");
        reveal_strlit(".json");
    }
    let mut r = String::from_str(network);
    r.append("/");
    r.append(account_id);
    r.append(".json");
    r
}

/// The credentials kept by one store, one record for each network and account.
pub struct CredentialStore {
    records: Vec<(String, Credential)>,
    contents: Ghost<Map<Location, Triple>>,
}

impl CredentialStore {
    /// What the store holds: the triple stored for each network and account.
    pub closed spec fn view(&self) -> Map<Location, Triple> {
        self.contents@
    }

    /// The records match the contents, one record for each location.
    pub closed spec fn wf(&self) -> bool {
        &&& forall|i: int|
            0 <= i < self.records@.len() ==> {
                let (n, c) = #[trigger] self.records@[i];
                &&& self.contents@.contains_key((n@, c.account_id@))
                &&& self.contents@[(n@, c.account_id@)] == c.triple()
            }
        &&& forall|i: int, j: int|
            0 <= i < j < self.records@.len() ==> (#[trigger] self.records@[i].0@,
            self.records@[i].1.account_id@) != (#[trigger] self.records@[j].0@,
            self.records@[j].1.account_id@)
        &&& forall|k: Location|
            #[trigger] self.contents@.contains_key(k) ==> exists|i: int|
                0 <= i < self.records@.len() && (#[trigger] self.records@[i].0@,
                self.records@[i].1.account_id@) == k
    }

    /// An empty store.
    pub fn new() -> (r: CredentialStore)
        ensures
            r.wf(),
            r@ == Map::<Location, Triple>::empty(),
    {
        CredentialStore { records: Vec::new(), contents: Ghost(Map::empty()) }
    }

    /// The index of the record for a network and account, if there is one.
    fn position(&self, network: &String, account_id: &String) -> (r: Option<usize>)
        requires
            self.wf(),
        ensures
            match r {
                Some(i) => i < self.records@.len() && self.records@[i as int].0@ == network@
                    && self.records@[i as int].1.account_id@ == account_id@,
                None => !self@.contains_key((network@, account_id@)),
            },
    {
        let mut i: usize = 0;
        while i < self.records.len()
            invariant
                self.wf(),
                i <= self.records@.len(),
                forall|j: int|
                    0 <= j < i ==> (#[trigger] self.records@[j].0@, self.records@[j].1.account_id@)
                        != (network@, account_id@),
            decreases self.records@.len() - i,
        {
            if self.records[i].0 == *network && self.records[i].1.account_id == *account_id {
                return Some(i);
            }
            i = i + 1;
        }
        None
    }

    /// The credential stored for a network and account.
    pub fn load(&self, network: &String, account_id: &String) -> (r: Option<Credential>)
        requires
            self.wf(),
        ensures
            match r {
                Some(c) => self@.contains_key((network@, account_id@)) && self@[(
                    network@,
                    account_id@,
                )] == c.triple(),
                None => !self@.contains_key((network@, account_id@)),
            },
    {
        match self.position(network, account_id) {
            Some(i) => Some(self.records[i].1.duplicate()),
            None => None,
        }
    }

    /// Stores a credential for a network, replacing any earlier one for the same
    /// account on that network.
    pub fn persist(&mut self, network: String, credential: Credential)
        requires
            old(self).wf(),
        ensures
            final(self).wf(),
            final(self)@ == old(self)@.insert((network@, credential.account_id@), credential.triple()),
    {
        let ghost k = (network@, credential.account_id@);
        let ghost v = credential.triple();
        let ghost idx: int;
        match self.position(&network, &credential.account_id) {
            Some(i) => {
                self.records.set(i, (network, credential));
                proof {
                    idx = i as int;
                }
            },
            None => {
                self.records.push((network, credential));
                proof {
                    idx = self.records@.len() - 1;
                }
            },
        }
        self.contents = Ghost(self.contents@.insert(k, v));
        assert(0 <= idx < self.records@.len());
        assert((self.records@[idx].0@, self.records@[idx].1.account_id@) == k);
        assert forall|k2: Location| #[trigger] self.contents@.contains_key(k2) implies exists|
            i: int,
        |
            0 <= i < self.records@.len() && (#[trigger] self.records@[i].0@,
            self.records@[i].1.account_id@) == k2 by {
            if k2 != k {
                let i = choose|i: int|
                    0 <= i < old(self).records@.len() && (#[trigger] old(self).records@[i].0@,
                    old(self).records@[i].1.account_id@) == k2;
                assert(i != idx);
                assert(self.records@[i] == old(self).records@[i]);
            } else {
                assert((self.records@[idx].0@, self.records@[idx].1.account_id@) == k2);
            }
        }
    }
}

/// A store read right after a credential was persisted gives back exactly the
/// account id, public key and private key that were written.
pub proof fn lemma_persist_then_load(before: Map<Location, Triple>, loc: Location, t: Triple)
    ensures
        before.insert(loc, t).contains_key(loc),
        before.insert(loc, t)[loc] == t,
{
}

/// Persisting twice at one network and account leaves the store as if only the
/// second credential had been persisted: one record, the second one.
pub proof fn lemma_last_write_wins(
    before: Map<Location, Triple>,
    loc: Location,
    first: Triple,
    second: Triple,
)
    ensures
        before.insert(loc, first).insert(loc, second) == before.insert(loc, second),
        before.insert(loc, first).insert(loc, second).dom() == before.insert(loc, first).dom(),
        before.insert(loc, first).insert(loc, second)[loc] == second,
{
    assert(before.insert(loc, first).insert(loc, second) =~= before.insert(loc, second));
    assert(before.insert(loc, first).insert(loc, second).dom() =~= before.insert(loc, first).dom());
}

} // verus!
