use vstd::prelude::*;
use vstd::string::*;
use crate::store::kv::KeyRequest;

verus! {

/// The identifiers the application keeps in its key-value store.
#[derive(Debug, Clone, Copy, PartialEq, Eq, Structural)]
pub enum IdentifierKey {
    /// Renewed at every start.
    SessionId,
    /// Kept across starts.
    SystemId,
    /// Kept across starts.
    InstallationId,
}

/// The stored name of an identifier key (snake case).
pub open spec fn key_name(k: IdentifierKey) -> Seq<char> {
    match k {
        IdentifierKey::SessionId => "session_id"@,
        IdentifierKey::SystemId => "system_id"@,
        IdentifierKey::InstallationId => "installation_id"@,
    }
}

/// Whether an identifier is renewed at every start.
pub open spec fn key_forced(k: IdentifierKey) -> bool {
    k == IdentifierKey::SessionId
}

impl IdentifierKey {
    /// The stored name of the key.
    pub fn as_str(&self) -> (s: &'static str)
        ensures
            s@ == key_name(*self),
    {
        match self {
            IdentifierKey::SessionId => "session_id",
            IdentifierKey::SystemId => "system_id",
            IdentifierKey::InstallationId => "installation_id",
        }
    }

    /// Whether the identifier is renewed at every start.
    pub fn force(&self) -> (b: bool)
        ensures
            b == key_forced(*self),
    {
        match self {
            IdentifierKey::SessionId => true,
            _ => false,
        }
    }

    /// All identifier keys, in declaration order.
    pub fn all() -> (v: Vec<IdentifierKey>)
        ensures
            v@ == seq![
                IdentifierKey::SessionId,
                IdentifierKey::SystemId,
                IdentifierKey::InstallationId,
            ],
    {
        let mut v = Vec::new();
        v.push(IdentifierKey::SessionId);
        v.push(IdentifierKey::SystemId);
        v.push(IdentifierKey::InstallationId);
        v
    }

    /// The store request for the key.
    pub fn to_key_request(&self) -> (r: KeyRequest)
        ensures
            r.key@ == key_name(*self),
            r.force == key_forced(*self),
    {
        KeyRequest { key: self.as_str().to_string(), force: self.force() }
    }
}

/// The store requests for all identifier keys, in declaration order.
pub fn identifier_key_requests() -> (v: Vec<KeyRequest>)
    ensures
        v@.len() == 3,
        forall|i: int|
            0 <= i < 3 ==> (#[trigger] v@[i]).key@ == key_name(
                seq![
                    IdentifierKey::SessionId,
                    IdentifierKey::SystemId,
                    IdentifierKey::InstallationId,
                ][i],
            ) && v@[i].force == key_forced(
                seq![
                    IdentifierKey::SessionId,
                    IdentifierKey::SystemId,
                    IdentifierKey::InstallationId,
                ][i],
            ),
{
    let keys = IdentifierKey::all();
    let mut v: Vec<KeyRequest> = Vec::new();
    let mut i: usize = 0;
    while i < keys.len()
        invariant
            i <= keys@.len(),
            keys@ == seq![
                IdentifierKey::SessionId,
                IdentifierKey::SystemId,
                IdentifierKey::InstallationId,
            ],
            v@.len() == i,
            forall|j: int|
                0 <= j < i ==> (#[trigger] v@[j]).key@ == key_name(keys@[j]) && v@[j].force
                    == key_forced(keys@[j]),
        decreases keys@.len() - i,
    {
        v.push(keys[i].to_key_request());
        i = i + 1;
    }
    v
}

/// The stored names of the identifier keys are pairwise distinct, so each
/// key has its own entry in the store.
pub proof fn lemma_key_names_distinct(a: IdentifierKey, b: IdentifierKey)
    requires
        a != b,
    ensures
        key_name(a) != key_name(b),
{
    reveal_strlit("session_id");
    reveal_strlit("system_id");
    reveal_strlit("installation_id");
    if key_name(a) == key_name(b) {
        assert(key_name(a).len() == key_name(b).len());
        assert(key_name(a)[1] == key_name(b)[1]);
    }
}

} // verus!
