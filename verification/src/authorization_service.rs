//! Access decisions: the role a user holds on an organization, whether a user owns
//! anything, and how the token a request came with caps the role it acts with.

use vstd::prelude::*;

verus! {

/// A role, from least to most powerful.
#[derive(Clone, Copy, Debug, PartialEq, Eq, Structural)]
pub enum Role {
    Read,
    Write,
    Admin,
    Owner,
}

/// Where a role lies in the order `Read < Write < Admin < Owner`.
pub open spec fn rank(r: Role) -> nat {
    match r {
        Role::Read => 0,
        Role::Write => 1,
        Role::Admin => 2,
        Role::Owner => 3,
    }
}

pub fn role_rank(r: Role) -> (n: u8)
    ensures
        n as nat == rank(r),
{
    match r {
        Role::Read => 0,
        Role::Write => 1,
        Role::Admin => 2,
        Role::Owner => 3,
    }
}

/// What a grant applies to, by id number.
#[derive(Clone, Copy, Debug, PartialEq, Eq, Structural)]
pub enum Scope {
    Org(u64),
    Project(u64),
    Repo(u64),
}

/// A role granted to a user on a scope; `number` is the grant's own id number.
#[derive(Clone, Copy, Debug, PartialEq, Eq, Structural)]
pub struct RoleAssignment {
    pub number: u64,
    pub user: u64,
    pub scope: Scope,
    pub role: Role,
}

/// Whether grant `a` gives `user` a role on exactly the organization `org`.
pub open spec fn grants_on_org(a: RoleAssignment, user: u64, org: u64) -> bool {
    a.user == user && a.scope == Scope::Org(org)
}

/// The highest role `user` holds through grants scoped to the organization `org` itself,
/// or `None` when it holds none there. Grants on the organization's projects and repos
/// do not count.
pub fn org_role(assignments: &Vec<RoleAssignment>, user: u64, org: u64) -> (r: Option<Role>)
    ensures
        match r {
            None => forall|i: int| 0 <= i < assignments@.len() ==> !grants_on_org(#[trigger] assignments@[i], user, org),
            Some(role) => {
                &&& exists|i: int| 0 <= i < assignments@.len() && grants_on_org(#[trigger] assignments@[i], user, org)
                    && assignments@[i].role == role
                &&& forall|i: int|
                    0 <= i < assignments@.len() && grants_on_org(#[trigger] assignments@[i], user, org) ==> rank(
                        assignments@[i].role,
                    ) <= rank(role)
            },
        },
{
    let mut best: Option<Role> = None;
    let mut i: usize = 0;
    while i < assignments.len()
        invariant
            i <= assignments@.len(),
            match best {
                None => forall|j: int| 0 <= j < i ==> !grants_on_org(#[trigger] assignments@[j], user, org),
                Some(role) => {
                    &&& exists|j: int| 0 <= j < i && grants_on_org(#[trigger] assignments@[j], user, org)
                        && assignments@[j].role == role
                    &&& forall|j: int|
                        0 <= j < i && grants_on_org(#[trigger] assignments@[j], user, org) ==> rank(
                            assignments@[j].role,
                        ) <= rank(role)
                },
            },
        decreases assignments@.len() - i,
    {
        let a = assignments[i];
        if a.user == user && a.scope == Scope::Org(org) {
            match best {
                None => {
                    best = Some(a.role);
                    assert(grants_on_org(assignments@[i as int], user, org));
                },
                Some(role) => {
                    if role_rank(a.role) > role_rank(role) {
                        best = Some(a.role);
                        assert(grants_on_org(assignments@[i as int], user, org));
                    }
                },
            }
        }
        i = i + 1;
    }
    best
}

/// Whether `user` holds the Owner role anywhere — the bar for managing users and grants.
pub fn is_owner(assignments: &Vec<RoleAssignment>, user: u64) -> (r: bool)
    ensures
        r == exists|i: int|
            0 <= i < assignments@.len() && (#[trigger] assignments@[i]).user == user
                && assignments@[i].role == Role::Owner,
{
    let mut i: usize = 0;
    while i < assignments.len()
        invariant
            i <= assignments@.len(),
            forall|j: int|
                0 <= j < i ==> !((#[trigger] assignments@[j]).user == user && assignments@[j].role
                    == Role::Owner),
        decreases assignments@.len() - i,
    {
        if assignments[i].user == user && assignments[i].role == Role::Owner {
            assert(assignments@[i as int].user == user);
            return true;
        }
        i = i + 1;
    }
    assert(!exists|j: int|
        0 <= j < assignments@.len() && (#[trigger] assignments@[j]).user == user
            && assignments@[j].role == Role::Owner);
    false
}

/// The scope of an access token: whether it only reads, and the repos and organizations it
/// is limited to (`None`: all of them).
#[derive(Debug)]
pub struct TokenScope {
    pub read_only: bool,
    pub repos: Option<Vec<u64>>,
    pub orgs: Option<Vec<u64>>,
}

/// Whether a token limited to `limit` reaches id number `id`.
pub open spec fn reaches(limit: Option<Vec<u64>>, id: u64) -> bool {
    match limit {
        None => true,
        Some(ids) => ids@.contains(id),
    }
}

fn reaches_exec(limit: &Option<Vec<u64>>, id: u64) -> (r: bool)
    ensures
        r == reaches(*limit, id),
{
    match limit {
        None => true,
        Some(ids) => {
            let mut i: usize = 0;
            while i < ids.len()
                invariant
                    i <= ids@.len(),
                    reaches(*limit, id) == ids@.contains(id),
                    forall|j: int| 0 <= j < i ==> ids@[j] != id,
                decreases ids@.len() - i,
            {
                if ids[i] == id {
                    assert(ids@[i as int] == id);
                    assert(ids@.contains(id));
                    return true;
                }
                i = i + 1;
            }
            false
        },
    }
}

/// The role a request acts with on repo `repo` of organization `org`, given the role
/// `base` its user holds there: with no token (SSH), the role itself; with a token that
/// does not reach the repo or the organization, none; with a read-only token, at most
/// Read; with another token, the role itself.
pub open spec fn spec_acting_role(base: Option<Role>, token: Option<TokenScope>, org: u64, repo: u64) -> Option<Role> {
    match base {
        None => None,
        Some(role) => match token {
            None => Some(role),
            Some(scope) => if !reaches(scope.repos, repo) || !reaches(scope.orgs, org) {
                None
            } else if scope.read_only {
                Some(Role::Read)
            } else {
                Some(role)
            },
        },
    }
}

/// The role a request acts with on repo `repo` of organization `org`: the effective role
/// `base` of its user, capped by the token it authenticated with (`None` for SSH key
/// authentication). `None` when it may do nothing there.
pub fn acting_role(base: Option<Role>, token: Option<&TokenScope>, org: u64, repo: u64) -> (r: Option<Role>)
    ensures
        r == spec_acting_role(
            base,
            match token {
                None => None,
                Some(t) => Some(*t),
            },
            org,
            repo,
        ),
{
    match base {
        None => None,
        Some(role) => match token {
            None => Some(role),
            Some(scope) => {
                if !reaches_exec(&scope.repos, repo) || !reaches_exec(&scope.orgs, org) {
                    None
                } else if scope.read_only {
                    Some(Role::Read)
                } else {
                    Some(role)
                }
            },
        },
    }
}


/// Law of token scoping: a token never raises the role a request acts with above its
/// user's own; without a token the user's role stands; a read-only token leaves at most
/// Read.
pub proof fn lemma_tokens_only_lower_roles(base: Option<Role>, token: Option<TokenScope>, org: u64, repo: u64)
    ensures
        spec_acting_role(base, token, org, repo) matches Some(r) ==> base matches Some(b) && rank(r) <= rank(b),
        token is None ==> spec_acting_role(base, token, org, repo) == base,
        token matches Some(t) && t.read_only ==> (spec_acting_role(base, token, org, repo) is None
            || spec_acting_role(base, token, org, repo) == Some(Role::Read)),
{
}

/// The role that decides a request on repo `repo`: none when the repo's chain up to its
/// organization is missing (`chain_org` is `None`); otherwise the user's effective role
/// `base` there, capped by the request's token.
pub open spec fn spec_authorizing_role(chain_org: Option<u64>, base: Option<Role>, token: Option<TokenScope>, repo: u64) -> Option<Role> {
    match chain_org {
        None => None,
        Some(org) => spec_acting_role(base, token, org, repo),
    }
}

/// Whether a request on repo `repo` is authorized, `allows` telling which roles allow the
/// operation it asks for: the deciding role must exist and allow it.
pub open spec fn spec_authorized(
    chain_org: Option<u64>,
    base: Option<Role>,
    token: Option<TokenScope>,
    repo: u64,
    allows: spec_fn(Role) -> bool,
) -> bool {
    match spec_authorizing_role(chain_org, base, token, repo) {
        None => false,
        Some(role) => allows(role),
    }
}

/// The role that decides whether a user may perform an operation on repo `repo`: the
/// request is authorized exactly when this is some role that allows the operation.
/// `chain_org` is the organization of the repo's project (`None` when the repo or its
/// project is missing), `base` the user's effective role on the repo, and `token` the
/// scope of the access token the request came with (`None` for SSH key authentication).
pub fn authorizing_role(chain_org: Option<u64>, base: Option<Role>, token: Option<&TokenScope>, repo: u64) -> (r: Option<Role>)
    ensures
        r == spec_authorizing_role(
            chain_org,
            base,
            match token {
                None => None,
                Some(t) => Some(*t),
            },
            repo,
        ),
{
    match chain_org {
        None => None,
        Some(org) => acting_role(base, token, org, repo),
    }
}

/// Law of authorization, for any rule `allows` of which roles allow an operation:
/// - without a token a request is authorized exactly when the repo's chain exists and
///   the user's effective role allows the operation;
/// - a missing chain, or no effective role, is never authorized;
/// - a token that does not reach the repo or its organization is never authorized;
/// - when the roles allowing the operation are closed upwards (a stronger role allows
///   whatever a weaker one does), a token only narrows access: what a request with a
///   token may do, the same request without one may do too.
pub proof fn lemma_authorization(
    chain_org: Option<u64>,
    base: Option<Role>,
    token: Option<TokenScope>,
    repo: u64,
    allows: spec_fn(Role) -> bool,
)
    ensures
        spec_authorized(chain_org, base, None, repo, allows) == (chain_org is Some && (base matches Some(b)
            && allows(b))),
        chain_org is None ==> !spec_authorized(chain_org, base, token, repo, allows),
        base is None ==> !spec_authorized(chain_org, base, token, repo, allows),
        token matches Some(s) && chain_org matches Some(org) && (!reaches(s.repos, repo) || !reaches(s.orgs, org))
            ==> !spec_authorized(chain_org, base, token, repo, allows),
        (forall|a: Role, b: Role| #[trigger] allows(a) && rank(a) <= rank(b) ==> #[trigger] allows(b))
            ==> (spec_authorized(chain_org, base, token, repo, allows) ==> spec_authorized(chain_org, base, None, repo, allows)),
{
    if let Some(org) = chain_org {
        lemma_tokens_only_lower_roles(base, token, org, repo);
    }
}

/// Law of token capping, over the token's own fields: a request's role is its user's role
/// as it is when there is no token, or when the token is writable and reaches both the
/// repo and the organization; it is Read when such a token is read-only; and it is none
/// when the token misses the repo or the organization, or when the user has no role.
pub proof fn lemma_token_caps_exactly(base: Option<Role>, token: Option<TokenScope>, org: u64, repo: u64)
    ensures
        ({
            let acting = spec_acting_role(base, token, org, repo);
            let reach = match token {
                None => true,
                Some(t) => (t.repos is None || t.repos.unwrap()@.contains(repo)) && (t.orgs is None
                    || t.orgs.unwrap()@.contains(org)),
            };
            &&& base is None ==> acting is None
            &&& token is None ==> acting == base
            &&& !reach ==> acting is None
            &&& (base is Some && token is Some && reach && !token.unwrap().read_only) ==> acting == base
            &&& (base is Some && token is Some && reach && token.unwrap().read_only) ==> acting == Some(Role::Read)
        }),
{
}

} // verus!
