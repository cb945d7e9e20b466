//! User use cases: resolving a login email, refusing a second account for an email, and
//! resolving a presented access token.

use vstd::prelude::*;

use crate::authorization_service::TokenScope;
use crate::concurrency::SaveOutcome;
use crate::text::{chars_of, chars_equal};

verus! {

/// What the email questions read of a user: its id number, whether it may log in, and its
/// email.
#[derive(Clone, Debug)]
pub struct UserEntry {
    pub number: u64,
    pub active: bool,
    pub email: Option<String>,
}

/// Whether `user` has the email `email`.
pub open spec fn has_email(user: UserEntry, email: Seq<char>) -> bool {
    user.email matches Some(e) && e@ == email
}

fn email_is(user: &UserEntry, email: &Vec<char>) -> (r: bool)
    ensures
        r == has_email(*user, email@),
{
    match &user.email {
        None => false,
        Some(e) => {
            let ev = chars_of(e.as_str());
            chars_equal(&ev, email)
        },
    }
}

/// The position of the user a login email resolves to: the first that has the email
/// and is active. Pending (invited, unverified) and deactivated users cannot
/// authenticate, so they resolve to nothing.
pub fn find_by_email(users: &Vec<UserEntry>, email: &str) -> (r: Option<usize>)
    ensures
        match r {
            None => forall|i: int| 0 <= i < users@.len() ==> !((#[trigger] users@[i]).active && has_email(users@[i], email@)),
            Some(i) => {
                &&& i < users@.len()
                &&& users@[i as int].active && has_email(users@[i as int], email@)
                &&& forall|j: int| 0 <= j < i ==> !((#[trigger] users@[j]).active && has_email(users@[j], email@))
            },
        },
{
    let wanted = chars_of(email);
    let mut i: usize = 0;
    while i < users.len()
        invariant
            i <= users@.len(),
            wanted@ == email@,
            forall|j: int| 0 <= j < i ==> !((#[trigger] users@[j]).active && has_email(users@[j], email@)),
        decreases users@.len() - i,
    {
        if users[i].active && email_is(&users[i], &wanted) {
            return Some(i);
        }
        i = i + 1;
    }
    None
}

/// Whether some user, in any state, already has the email `email`: a pending user is
/// refused then.
pub fn email_taken(users: &Vec<UserEntry>, email: &str) -> (r: bool)
    ensures
        r == exists|i: int| 0 <= i < users@.len() && has_email(#[trigger] users@[i], email@),
{
    let wanted = chars_of(email);
    let mut i: usize = 0;
    while i < users.len()
        invariant
            i <= users@.len(),
            wanted@ == email@,
            forall|j: int| 0 <= j < i ==> !has_email(#[trigger] users@[j], email@),
        decreases users@.len() - i,
    {
        if email_is(&users[i], &wanted) {
            assert(has_email(users@[i as int], email@));
            return true;
        }
        i = i + 1;
    }
    false
}

/// `"a user with that email already exists"`.
pub fn email_taken_message() -> (m: String)
    ensures
        m@ == "a user with that email already exists"@,
{
    String::from_str("a user with that email already exists")
}

/// What resolving a token reads of a user: its id number and the hashes of its tokens.
#[derive(Clone, Debug)]
pub struct TokenHolder {
    pub number: u64,
    pub token_hashes: Vec<String>,
}

/// Whether `user` holds a token whose hash is `hash`.
pub open spec fn holds_hash(user: TokenHolder, hash: Seq<char>) -> bool {
    exists|k: int| 0 <= k < user.token_hashes@.len() && (#[trigger] user.token_hashes@[k])@ == hash
}

fn holds(user: &TokenHolder, hash: &Vec<char>) -> (r: bool)
    ensures
        r == holds_hash(*user, hash@),
{
    let mut k: usize = 0;
    while k < user.token_hashes.len()
        invariant
            k <= user.token_hashes@.len(),
            forall|j: int| 0 <= j < k ==> (#[trigger] user.token_hashes@[j])@ != hash@,
        decreases user.token_hashes@.len() - k,
    {
        let hv = chars_of(user.token_hashes[k].as_str());
        if chars_equal(&hv, hash) {
            assert(user.token_hashes@[k as int]@ == hash@);
            return true;
        }
        k = k + 1;
    }
    false
}

/// The id number of the first user in `users` holding a token whose hash is `hash`, or
/// `None` when nobody does.
pub open spec fn first_holder(users: Seq<TokenHolder>, hash: Seq<char>) -> Option<u64>
    decreases users.len(),
{
    if users.len() == 0 {
        None
    } else if holds_hash(users[0], hash) {
        Some(users[0].number)
    } else {
        first_holder(users.drop_first(), hash)
    }
}

/// Skipping users that hold no token with `hash` does not change the first holder.
proof fn lemma_first_holder_skip(users: Seq<TokenHolder>, hash: Seq<char>, i: int)
    requires
        0 <= i <= users.len(),
        forall|j: int| 0 <= j < i ==> !holds_hash(#[trigger] users[j], hash),
    ensures
        first_holder(users, hash) == first_holder(users.subrange(i, users.len() as int), hash),
    decreases i,
{
    if i > 0 {
        assert(!holds_hash(users[0], hash));
        let rest = users.drop_first();
        assert forall|j: int| 0 <= j < i - 1 implies !holds_hash(#[trigger] rest[j], hash) by {
            assert(rest[j] == users[j + 1]);
        }
        lemma_first_holder_skip(rest, hash, i - 1);
        assert(rest.subrange(i - 1, rest.len() as int) =~= users.subrange(i, users.len() as int));
    } else {
        assert(users.subrange(0, users.len() as int) =~= users);
    }
}

/// A token found at `k` on user `i`, when no user before `i` holds one with that hash,
/// makes user `i` the first holder.
pub proof fn lemma_holder_found(users: Seq<TokenHolder>, hash: Seq<char>, i: int, k: int)
    requires
        0 <= i < users.len(),
        0 <= k < users[i].token_hashes@.len(),
        users[i].token_hashes@[k]@ == hash,
        forall|j: int| 0 <= j < i ==> !holds_hash(#[trigger] users[j], hash),
    ensures
        first_holder(users, hash) == Some(users[i].number),
{
    lemma_first_holder_skip(users, hash, i);
    let rest = users.subrange(i, users.len() as int);
    assert(rest[0] == users[i]);
    assert(holds_hash(rest[0], hash));
}

/// No user holding a token with `hash` leaves no first holder.
pub proof fn lemma_no_holder(users: Seq<TokenHolder>, hash: Seq<char>)
    requires
        forall|i: int, k: int|
            0 <= i < users.len() && 0 <= k < users[i].token_hashes@.len() ==> (#[trigger] users[i].token_hashes@[k])@ != hash,
    ensures
        first_holder(users, hash) is None,
{
    assert forall|j: int| 0 <= j < users.len() implies !holds_hash(#[trigger] users[j], hash) by {
        if holds_hash(users[j], hash) {
            let k = choose|k: int| 0 <= k < users[j].token_hashes@.len() && (#[trigger] users[j].token_hashes@[k])@ == hash;
            assert(users[j].token_hashes@[k]@ != hash);
        }
    }
    lemma_first_holder_skip(users, hash, users.len() as int);
}

/// The id number of the user a token hash belongs to: the first user holding a token with
/// that hash, or `None` when nobody does.
pub fn token_owner(users: &Vec<TokenHolder>, hash: &str) -> (r: Option<u64>)
    ensures
        r == first_holder(users@, hash@),
        match r {
            None => forall|i: int| 0 <= i < users@.len() ==> !holds_hash(#[trigger] users@[i], hash@),
            Some(n) => exists|i: int| {
                &&& 0 <= i < users@.len()
                &&& (#[trigger] users@[i]).number == n
                &&& holds_hash(users@[i], hash@)
                &&& forall|j: int| 0 <= j < i ==> !holds_hash(#[trigger] users@[j], hash@)
            },
        },
{
    let wanted = chars_of(hash);
    let mut i: usize = 0;
    while i < users.len()
        invariant
            i <= users@.len(),
            wanted@ == hash@,
            forall|j: int| 0 <= j < i ==> !holds_hash(#[trigger] users@[j], hash@),
        decreases users@.len() - i,
    {
        if holds(&users[i], &wanted) {
            proof {
                lemma_first_holder_skip(users@, hash@, i as int);
                assert(users@.subrange(i as int, users@.len() as int)[0] == users@[i as int]);
            }
            return Some(users[i].number);
        }
        i = i + 1;
    }
    proof {
        lemma_first_holder_skip(users@, hash@, users@.len() as int);
    }
    None
}

/// The presented token as found on its user, freshly loaded: whether it has expired by
/// now, and its scope.
#[derive(Debug)]
pub struct PresentedToken {
    pub expired: bool,
    pub scope: TokenScope,
}

/// Where resolving a token stands.
#[derive(Debug)]
pub enum ResolveStage {
    /// Waiting for the users, to find the token's owner.
    AwaitingUsers,
    /// Waiting for user `number` to be loaded.
    AwaitingUser { number: u64 },
    /// Waiting for the use of the token to be saved; then answer with `number` and `scope`.
    AwaitingSave { number: u64, scope: TokenScope },
    /// Done.
    Finished,
}

/// What the service reports back.
#[derive(Debug)]
pub enum ResolveEvent {
    /// The users were listed.
    UsersListed { users: Vec<TokenHolder> },
    /// The owner was loaded (`None`: the user, or the token on it, is gone).
    UserLoaded { token: Option<PresentedToken> },
    /// The user, with the token marked used now, was saved with this outcome.
    Saved { outcome: SaveOutcome },
}

/// What the flow asks the service to do next.
#[derive(Debug)]
pub enum ResolveAction {
    /// List the users.
    ListUsers,
    /// Load user `number` with its version.
    LoadUser { number: u64 },
    /// Mark the token used now and save the user against the loaded version.
    MarkUsedAndSave,
    /// Stop, answering with the owner and the token's scope (`None`: it does not resolve).
    Finish { resolved: Option<(u64, TokenScope)> },
    /// Stop, failing with the store's message.
    Fail { message: String },
}

/// Resolving a presented token, by the hash of its plaintext, to its owner and scope,
/// recording the use.
#[derive(Debug)]
pub struct ResolveTokenFlow {
    pub hash: String,
    pub stage: ResolveStage,
}

/// Whether the flow can take `event` in the stage it is in.
pub open spec fn resolve_takes(stage: ResolveStage, event: ResolveEvent) -> bool {
    match (stage, event) {
        (ResolveStage::AwaitingUsers, ResolveEvent::UsersListed { .. }) => true,
        (ResolveStage::AwaitingUser { .. }, ResolveEvent::UserLoaded { .. }) => true,
        (ResolveStage::AwaitingSave { .. }, ResolveEvent::Saved { .. }) => true,
        _ => false,
    }
}

impl ResolveTokenFlow {
    /// Starts resolving the token whose plaintext hashes to `hash`: the users are listed
    /// first.
    pub fn begin(hash: &str) -> (r: (ResolveTokenFlow, ResolveAction))
        ensures
            r.0.hash@ == hash@,
            r.0.stage is AwaitingUsers,
            r.1 is ListUsers,
    {
        (ResolveTokenFlow { hash: String::from_str(hash), stage: ResolveStage::AwaitingUsers }, ResolveAction::ListUsers)
    }

    /// Takes the outcome of the last request and says what to do next:
    /// - with the users: when nobody holds the hash the token does not resolve; otherwise
    ///   its owner, the first user holding it (`first_holder`, `token_owner`), is loaded;
    /// - with the owner: a token that is gone or expired does not resolve; otherwise its
    ///   use is recorded;
    /// - once saved: the token resolves to its owner and scope; on a conflict the owner is
    ///   loaded again; a store failure fails.
    pub fn step(self, event: ResolveEvent) -> (r: (ResolveTokenFlow, ResolveAction))
        requires
            resolve_takes(self.stage, event),
        ensures
            r.0.hash == self.hash,
            match (self.stage, event) {
                (ResolveStage::AwaitingUsers, ResolveEvent::UsersListed { users }) => match first_holder(users@, self.hash@) {
                    None => r.0.stage is Finished && r.1 matches ResolveAction::Finish { resolved: None },
                    Some(number) => r.0.stage == (ResolveStage::AwaitingUser { number }) && r.1 == (ResolveAction::LoadUser {
                        number,
                    }),
                },
                (ResolveStage::AwaitingUser { number }, ResolveEvent::UserLoaded { token }) => match token {
                    None => r.0.stage is Finished && r.1 matches ResolveAction::Finish { resolved: None },
                    Some(t) => if t.expired {
                        r.0.stage is Finished && r.1 matches ResolveAction::Finish { resolved: None }
                    } else {
                        r.0.stage == (ResolveStage::AwaitingSave { number, scope: t.scope }) && r.1 is MarkUsedAndSave
                    },
                },
                (ResolveStage::AwaitingSave { number, scope }, ResolveEvent::Saved { outcome }) => match outcome {
                    SaveOutcome::Saved => r.0.stage is Finished && r.1 == (ResolveAction::Finish { resolved: Some((number, scope)) }),
                    SaveOutcome::Conflict => r.0.stage == (ResolveStage::AwaitingUser { number }) && r.1 == (ResolveAction::LoadUser { number }),
                    SaveOutcome::Backend(message) => r.0.stage is Finished && r.1 == (ResolveAction::Fail { message }),
                },
                _ => false,
            },
    {
        let ResolveTokenFlow { hash, stage } = self;
        match (stage, event) {
            (ResolveStage::AwaitingUsers, ResolveEvent::UsersListed { users }) => match token_owner(&users, hash.as_str()) {
                None => (ResolveTokenFlow { hash, stage: ResolveStage::Finished }, ResolveAction::Finish { resolved: None }),
                Some(number) => (ResolveTokenFlow { hash, stage: ResolveStage::AwaitingUser { number } }, ResolveAction::LoadUser { number }),
            },
            (ResolveStage::AwaitingUser { number }, ResolveEvent::UserLoaded { token }) => match token {
                None => (ResolveTokenFlow { hash, stage: ResolveStage::Finished }, ResolveAction::Finish { resolved: None }),
                Some(t) => if t.expired {
                    (ResolveTokenFlow { hash, stage: ResolveStage::Finished }, ResolveAction::Finish { resolved: None })
                } else {
                    (ResolveTokenFlow { hash, stage: ResolveStage::AwaitingSave { number, scope: t.scope } }, ResolveAction::MarkUsedAndSave)
                },
            },
            (ResolveStage::AwaitingSave { number, scope }, ResolveEvent::Saved { outcome }) => match outcome {
                SaveOutcome::Saved => (ResolveTokenFlow { hash, stage: ResolveStage::Finished }, ResolveAction::Finish { resolved: Some((number, scope)) }),
                SaveOutcome::Conflict => (ResolveTokenFlow { hash, stage: ResolveStage::AwaitingUser { number } }, ResolveAction::LoadUser { number }),
                SaveOutcome::Backend(message) => (ResolveTokenFlow { hash, stage: ResolveStage::Finished }, ResolveAction::Fail { message }),
            },
            _ => {
                assert(false);
                (ResolveTokenFlow { hash, stage: ResolveStage::Finished }, ResolveAction::ListUsers)
            },
        }
    }
}

} // verus!
