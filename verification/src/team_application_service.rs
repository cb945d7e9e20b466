//! Team use cases: creating a team under existing parents, starting it with a sandbox
//! told about its own work, and stopping it.

use vstd::prelude::*;

use crate::text::{chars_of, string_of};
use crate::team_requests::CreateTeamRequest;
use crate::vm_requests::ProvisionVmRequest;

verus! {

/// A team, as its snapshot reads.
#[derive(Clone, Debug, PartialEq, Eq)]
pub struct TeamSnapshot {
    pub id: String,
    pub organization_id: String,
    pub name: String,
    pub description: String,
    pub board_id: String,
    pub repo_id: String,
    pub user_id: String,
    pub vm_template: String,
    pub state: String,
    pub vm_id: Option<String>,
}

/// `s` without its trailing slashes, as `str::trim_end_matches('/')` leaves it.
pub open spec fn without_trailing_slashes(s: Seq<char>) -> Seq<char>
    decreases s.len(),
{
    if s.len() > 0 && s.last() == '/' {
        without_trailing_slashes(s.drop_last())
    } else {
        s
    }
}

/// The views of environment entries.
pub open spec fn env_views(env: Seq<(String, String)>) -> Seq<(Seq<char>, Seq<char>)> {
    env.map_values(|e: (String, String)| (e.0@, e.1@))
}

/// The environment a team's container is started with: the backend's URL (without
/// trailing slashes), the team's id, the board it polls, the clone URL of its repo (the
/// same `<api>/repos/<repo id>.git` the git transport serves), and the access token minted
/// for this container.
pub open spec fn spec_worker_env(team: TeamSnapshot, api_url: Seq<char>, token: Seq<char>) -> Seq<(Seq<char>, Seq<char>)> {
    let url = without_trailing_slashes(api_url);
    seq![
        ("WIAB_TEAM_API_URL"@, url),
        ("WIAB_TEAM_TEAM_ID"@, team.id@),
        ("WIAB_TEAM_BOARD_ID"@, team.board_id@),
        ("WIAB_TEAM_REPO_REMOTE"@, url + "/repos/"@ + team.repo_id@ + ".git"@),
        ("WIAB_TEAM_API_TOKEN"@, token),
    ]
}

/// `api_url` without its trailing slashes.
fn trim_trailing_slashes(api_url: &str) -> (r: String)
    ensures
        r@ == without_trailing_slashes(api_url@),
{
    let v = chars_of(api_url);
    let mut end = v.len();
    assert(v@.subrange(0, end as int) =~= v@);
    while end > 0 && v[end - 1] == '/'
        invariant
            end <= v@.len(),
            v@ == api_url@,
            without_trailing_slashes(v@) == without_trailing_slashes(v@.subrange(0, end as int)),
        decreases end,
    {
        assert(v@.subrange(0, end as int).drop_last() =~= v@.subrange(0, end - 1));
        end = end - 1;
    }
    string_of(&v, 0, end)
}

/// Everything the team's container needs to find its own work. The token is minted fresh
/// for this container and never stored, so a credential lives only as long as the
/// container it was issued to.
pub fn worker_env(team: &TeamSnapshot, api_url: &str, token: &str) -> (env: Vec<(String, String)>)
    ensures
        env_views(env@) == spec_worker_env(*team, api_url@, token@),
{
    let url = trim_trailing_slashes(api_url);
    let remote = url.clone().concat("/repos/").concat(team.repo_id.as_str()).concat(".git");
    let mut env: Vec<(String, String)> = Vec::new();
    env.push((String::from_str("WIAB_TEAM_API_URL"), url));
    env.push((String::from_str("WIAB_TEAM_TEAM_ID"), team.id.clone()));
    env.push((String::from_str("WIAB_TEAM_BOARD_ID"), team.board_id.clone()));
    env.push((String::from_str("WIAB_TEAM_REPO_REMOTE"), remote));
    env.push((String::from_str("WIAB_TEAM_API_TOKEN"), String::from_str(token)));
    assert(env_views(env@) =~= spec_worker_env(*team, api_url@, token@));
    env
}

/// What starting a team asks the VM port for: a sandbox of the team's template, with the
/// default resources, told where its work is through `worker_env`.
pub fn team_sandbox_request(team: &TeamSnapshot, api_url: &str, token: &str) -> (r: ProvisionVmRequest)
    ensures
        r.template@ == team.vm_template@,
        r.vcpus is None,
        r.mem_mib is None,
        env_views(r.env@) == spec_worker_env(*team, api_url@, token@),
{
    ProvisionVmRequest {
        template: team.vm_template.clone(),
        vcpus: None,
        mem_mib: None,
        env: worker_env(team, api_url, token),
    }
}


/// Law of the worker environment: the backend URL handed to a team never ends with a
/// slash, so the clone URL built on it has exactly one slash before `repos`; and it is
/// the configured URL up to its trailing slashes.
pub proof fn lemma_api_url_has_no_trailing_slash(api_url: Seq<char>)
    ensures
        without_trailing_slashes(api_url).len() == 0 || without_trailing_slashes(api_url).last() != '/',
        without_trailing_slashes(api_url).len() <= api_url.len(),
        without_trailing_slashes(api_url) == api_url.take(without_trailing_slashes(api_url).len() as int),
        forall|j: int| without_trailing_slashes(api_url).len() <= j < api_url.len() ==> #[trigger] api_url[j] == '/',
    decreases api_url.len(),
{
    if api_url.len() > 0 && api_url.last() == '/' {
        lemma_api_url_has_no_trailing_slash(api_url.drop_last());
        let r = without_trailing_slashes(api_url.drop_last());
        assert(api_url.drop_last().take(r.len() as int) =~= api_url.take(r.len() as int));
        assert forall|j: int| r.len() <= j < api_url.len() implies #[trigger] api_url[j] == '/' by {
            if j < api_url.len() - 1 {
                assert(api_url[j] == api_url.drop_last()[j]);
            }
        }
    } else {
        assert(api_url.take(api_url.len() as int) =~= api_url);
    }
}


/// What came of asking the VM port for a team's sandbox.
#[derive(Clone, Debug, PartialEq, Eq)]
pub enum SandboxOutcome {
    /// A sandbox runs, as this VM.
    Provisioned { vm_id: String },
    /// The port provisioned nothing (the organization was not found).
    NotProvisioned,
    /// The port failed, with this message.
    Failed { message: String },
}

/// What starting a team does once its sandbox request is answered.
#[derive(Clone, Debug, PartialEq, Eq)]
pub enum StartStep {
    /// Record the VM and leave the team idle.
    MarkIdle { vm_id: String },
    /// Leave the team failed (not stopped: the runtime may have half-booted a container)
    /// and fail with `message`.
    MarkFailed { message: String },
}

/// What starting team `team_id` does with the answer to its sandbox request: a running
/// sandbox leaves the team idle on it; otherwise the team is left failed, with the port's
/// own error or, when it provisioned nothing, `could not provision a sandbox for team
/// <id>`.
pub fn after_provision(team_id: &str, outcome: SandboxOutcome) -> (step: StartStep)
    ensures
        match outcome {
            SandboxOutcome::Provisioned { vm_id } => step == StartStep::MarkIdle { vm_id },
            SandboxOutcome::Failed { message } => step == StartStep::MarkFailed { message },
            SandboxOutcome::NotProvisioned => step matches StartStep::MarkFailed { message }
                && message@ == "could not provision a sandbox for team "@ + team_id@,
        },
{
    match outcome {
        SandboxOutcome::Provisioned { vm_id } => StartStep::MarkIdle { vm_id },
        SandboxOutcome::Failed { message } => StartStep::MarkFailed { message },
        SandboxOutcome::NotProvisioned => StartStep::MarkFailed {
            message: String::from_str("could not provision a sandbox for team ").concat(team_id),
        },
    }
}


/// Where starting a team stands, waiting for the outcome of what it last asked for.
#[derive(Debug)]
pub enum StartTeamStage {
    /// Waiting for the team to be marked starting and saved.
    AwaitingStarting,
    /// Waiting for the access token minted for this start.
    AwaitingToken { team: TeamSnapshot },
    /// Waiting for the answer to the sandbox request.
    AwaitingSandbox,
    /// Waiting for the failure to be recorded on the team; then fail with `message`.
    AwaitingFailureRecord { message: String },
    /// Waiting for the team to be recorded idle on its sandbox.
    AwaitingIdleRecord,
    /// Done.
    Finished,
}

/// What the service reports back after doing what the flow asked.
#[derive(Debug)]
pub enum StartTeamEvent {
    /// The team was marked starting and saved (`None`: there is no such team).
    MarkedStarting { team: Option<TeamSnapshot> },
    /// The token minted for this start.
    TokenIssued { token: String },
    /// The VM port answered the sandbox request.
    SandboxAnswered { outcome: SandboxOutcome },
    /// The team was saved failed.
    FailureRecorded,
    /// The team was saved idle (`None`: it vanished meanwhile).
    IdleRecorded { team: Option<TeamSnapshot> },
    /// What was asked failed, with this message: the team's state refused the start (or
    /// the idle or failed mark), an id did not parse, the token could not be minted, or
    /// the store failed.
    Refused { message: String },
}

/// What the flow asks the service to do next.
#[derive(Debug)]
pub enum StartTeamAction {
    /// Mark the team starting and save it. Persisting this before provisioning means a
    /// concurrent start is refused by the team rather than booting a second container.
    MarkStarting,
    /// Mint a fresh access token for the team's user on its organization.
    IssueToken { user_id: String, organization_id: String },
    /// Ask the VM port for a sandbox, for the team's organization, owned by the team.
    Provision { organization_id: String, owner_id: String, request: ProvisionVmRequest },
    /// Record the sandbox on the team and leave it idle.
    MarkIdle { vm_id: String },
    /// Leave the team failed.
    MarkFailed,
    /// Stop, answering with this.
    Finish { result: Result<Option<TeamSnapshot>, String> },
}

/// Starting one team.
#[derive(Debug)]
pub struct StartTeamFlow {
    pub team_id: String,
    pub api_url: String,
    pub stage: StartTeamStage,
}

/// Whether the flow can take `event` in the stage it is in.
pub open spec fn start_takes(stage: StartTeamStage, event: StartTeamEvent) -> bool {
    match (stage, event) {
        (StartTeamStage::AwaitingStarting, StartTeamEvent::MarkedStarting { .. }) => true,
        (StartTeamStage::AwaitingToken { .. }, StartTeamEvent::TokenIssued { .. }) => true,
        (StartTeamStage::AwaitingSandbox, StartTeamEvent::SandboxAnswered { .. }) => true,
        (StartTeamStage::AwaitingFailureRecord { .. }, StartTeamEvent::FailureRecorded) => true,
        (StartTeamStage::AwaitingIdleRecord, StartTeamEvent::IdleRecorded { .. }) => true,
        (StartTeamStage::AwaitingStarting, StartTeamEvent::Refused { .. }) => true,
        (StartTeamStage::AwaitingToken { .. }, StartTeamEvent::Refused { .. }) => true,
        (StartTeamStage::AwaitingFailureRecord { .. }, StartTeamEvent::Refused { .. }) => true,
        (StartTeamStage::AwaitingIdleRecord, StartTeamEvent::Refused { .. }) => true,
        _ => false,
    }
}

impl StartTeamFlow {
    /// Starts starting team `team_id`, whose container reaches the backend at `api_url`:
    /// the team is first marked starting.
    pub fn begin(team_id: &str, api_url: &str) -> (r: (StartTeamFlow, StartTeamAction))
        ensures
            r.0.team_id@ == team_id@,
            r.0.api_url@ == api_url@,
            r.0.stage is AwaitingStarting,
            r.1 is MarkStarting,
    {
        (
            StartTeamFlow {
                team_id: String::from_str(team_id),
                api_url: String::from_str(api_url),
                stage: StartTeamStage::AwaitingStarting,
            },
            StartTeamAction::MarkStarting,
        )
    }

    /// Takes the outcome of the last request and says what to do next:
    /// - once marked starting: no team finishes with nothing; otherwise a fresh token is
    ///   minted for the team's user on its organization;
    /// - with the token: the sandbox is requested, of the team's template, told where its
    ///   work is (`worker_env`, with this token);
    /// - with the answer: a running sandbox is recorded and the team left idle; otherwise
    ///   the team is left failed (`after_provision`), then the flow fails;
    /// - once recorded: finish with the idle team, or with the failure;
    /// - a refusal (a start the team's state refuses among them) fails with its message.
    ///   The sandbox's own failure is not one: it leaves the team failed, as above.
    pub fn step(self, event: StartTeamEvent) -> (r: (StartTeamFlow, StartTeamAction))
        requires
            start_takes(self.stage, event),
        ensures
            r.0.team_id == self.team_id,
            r.0.api_url == self.api_url,
            match (self.stage, event) {
                (StartTeamStage::AwaitingStarting, StartTeamEvent::MarkedStarting { team }) => match team {
                    None => r.0.stage is Finished && r.1 == (StartTeamAction::Finish { result: Ok(None) }),
                    Some(t) => r.0.stage == (StartTeamStage::AwaitingToken { team: t }) && (r.1 matches StartTeamAction::IssueToken {
                        user_id,
                        organization_id,
                    } && user_id@ == t.user_id@ && organization_id@ == t.organization_id@),
                },
                (StartTeamStage::AwaitingToken { team }, StartTeamEvent::TokenIssued { token }) => {
                    &&& r.0.stage is AwaitingSandbox
                    &&& r.1 matches StartTeamAction::Provision { organization_id, owner_id, request }
                    &&& organization_id@ == team.organization_id@
                    &&& owner_id@ == self.team_id@
                    &&& request.template@ == team.vm_template@
                    &&& request.vcpus is None
                    &&& request.mem_mib is None
                    &&& env_views(request.env@) == spec_worker_env(team, self.api_url@, token@)
                },
                (StartTeamStage::AwaitingSandbox, StartTeamEvent::SandboxAnswered { outcome }) => match outcome {
                    SandboxOutcome::Provisioned { vm_id } => r.0.stage is AwaitingIdleRecord && r.1 == (StartTeamAction::MarkIdle { vm_id }),
                    SandboxOutcome::Failed { message } => r.0.stage == (StartTeamStage::AwaitingFailureRecord { message }) && r.1 is MarkFailed,
                    SandboxOutcome::NotProvisioned => r.1 is MarkFailed && (r.0.stage matches StartTeamStage::AwaitingFailureRecord { message }
                        && message@ == "could not provision a sandbox for team "@ + self.team_id@),
                },
                (StartTeamStage::AwaitingFailureRecord { message }, StartTeamEvent::FailureRecorded) => r.0.stage is Finished && r.1
                    == (StartTeamAction::Finish { result: Err(message) }),
                (StartTeamStage::AwaitingIdleRecord, StartTeamEvent::IdleRecorded { team }) => r.0.stage is Finished && r.1
                    == (StartTeamAction::Finish { result: Ok(team) }),
                (_, StartTeamEvent::Refused { message }) => r.0.stage is Finished && r.1 == (StartTeamAction::Finish {
                    result: Err(message),
                }),
                _ => false,
            },
    {
        let StartTeamFlow { team_id, api_url, stage } = self;
        match (stage, event) {
            (StartTeamStage::AwaitingStarting, StartTeamEvent::MarkedStarting { team }) => match team {
                None => (StartTeamFlow { team_id, api_url, stage: StartTeamStage::Finished }, StartTeamAction::Finish { result: Ok(None) }),
                Some(t) => {
                    let action = StartTeamAction::IssueToken { user_id: t.user_id.clone(), organization_id: t.organization_id.clone() };
                    (StartTeamFlow { team_id, api_url, stage: StartTeamStage::AwaitingToken { team: t } }, action)
                },
            },
            (StartTeamStage::AwaitingToken { team }, StartTeamEvent::TokenIssued { token }) => {
                let request = team_sandbox_request(&team, api_url.as_str(), token.as_str());
                let action = StartTeamAction::Provision {
                    organization_id: team.organization_id.clone(),
                    owner_id: team_id.clone(),
                    request,
                };
                (StartTeamFlow { team_id, api_url, stage: StartTeamStage::AwaitingSandbox }, action)
            },
            (StartTeamStage::AwaitingSandbox, StartTeamEvent::SandboxAnswered { outcome }) => {
                match after_provision(team_id.as_str(), outcome) {
                    StartStep::MarkIdle { vm_id } => (StartTeamFlow { team_id, api_url, stage: StartTeamStage::AwaitingIdleRecord }, StartTeamAction::MarkIdle { vm_id }),
                    StartStep::MarkFailed { message } => (StartTeamFlow { team_id, api_url, stage: StartTeamStage::AwaitingFailureRecord { message } }, StartTeamAction::MarkFailed),
                }
            },
            (StartTeamStage::AwaitingFailureRecord { message }, StartTeamEvent::FailureRecorded) => {
                (StartTeamFlow { team_id, api_url, stage: StartTeamStage::Finished }, StartTeamAction::Finish { result: Err(message) })
            },
            (StartTeamStage::AwaitingIdleRecord, StartTeamEvent::IdleRecorded { team }) => {
                (StartTeamFlow { team_id, api_url, stage: StartTeamStage::Finished }, StartTeamAction::Finish { result: Ok(team) })
            },
            (_, StartTeamEvent::Refused { message }) => {
                (StartTeamFlow { team_id, api_url, stage: StartTeamStage::Finished }, StartTeamAction::Finish { result: Err(message) })
            },
            _ => {
                assert(false);
                (StartTeamFlow { team_id, api_url, stage: StartTeamStage::Finished }, StartTeamAction::MarkFailed)
            },
        }
    }
}

/// Where creating a team stands.
#[derive(Debug)]
pub enum CreateTeamStage {
    /// Waiting to learn whether the organization, the board and the repo exist.
    AwaitingParents,
    /// Waiting for the team's number and identity.
    AwaitingIdentity,
    /// Waiting for the team to be saved.
    AwaitingSave,
    /// Done.
    Finished,
}

/// What the service reports back after doing what the flow asked.
#[derive(Debug)]
pub enum CreateTeamEvent {
    /// Whether the organization, the board and the repo exist.
    ParentsChecked { organization: bool, board: bool, repo: bool },
    /// The VM type was accepted, the team numbered `team_id`, and its user `user_id`
    /// provisioned.
    IdentityProvisioned { team_id: String, user_id: String },
    /// The team was created and saved.
    TeamSaved { team: TeamSnapshot },
    /// What was asked failed, with this message: an id did not parse, the VM type or the
    /// team was refused, the identity could not be provisioned, or the store failed.
    Refused { message: String },
}

/// What the flow asks the service to do next.
#[derive(Debug)]
pub enum CreateTeamAction {
    /// Look up the organization, the board and the repo.
    CheckParents { organization_id: String, board_id: String, repo_id: String },
    /// Accept the VM type `vm_type`, number the team, and provision its user, named
    /// `name`, in the organization. The identity comes first, so a team is never saved
    /// without the user it acts as.
    ProvisionIdentity { vm_type: String, name: String, organization_id: String },
    /// Create the team with these fields and save it as new.
    SaveTeam {
        team_id: String,
        organization_id: String,
        name: String,
        description: String,
        board_id: String,
        repo_id: String,
        user_id: String,
        vm_type: String,
    },
    /// Stop, answering with the new team, or with nothing when a parent does not exist.
    Finish { team: Option<TeamSnapshot> },
    /// Stop, failing with this message.
    Fail { message: String },
}

/// Creating one team in an organization, as a request asks.
#[derive(Debug)]
pub struct CreateTeamFlow {
    pub organization_id: String,
    pub request: CreateTeamRequest,
    pub stage: CreateTeamStage,
}

/// Whether the flow can take `event` in the stage it is in.
pub open spec fn create_takes(stage: CreateTeamStage, event: CreateTeamEvent) -> bool {
    match (stage, event) {
        (CreateTeamStage::AwaitingParents, CreateTeamEvent::ParentsChecked { .. }) => true,
        (CreateTeamStage::AwaitingIdentity, CreateTeamEvent::IdentityProvisioned { .. }) => true,
        (CreateTeamStage::AwaitingSave, CreateTeamEvent::TeamSaved { .. }) => true,
        (CreateTeamStage::Finished, _) => false,
        (_, CreateTeamEvent::Refused { .. }) => true,
        _ => false,
    }
}

impl CreateTeamFlow {
    /// Starts creating a team in organization `organization_id` as `request` asks: its
    /// parents are looked up first.
    pub fn begin(organization_id: &str, request: CreateTeamRequest) -> (r: (CreateTeamFlow, CreateTeamAction))
        ensures
            r.0.organization_id@ == organization_id@,
            r.0.request == request,
            r.0.stage is AwaitingParents,
            r.1 matches CreateTeamAction::CheckParents { organization_id: o, board_id, repo_id }
                && o@ == organization_id@ && board_id@ == request.board_id@ && repo_id@ == request.repo_id@,
    {
        let action = CreateTeamAction::CheckParents {
            organization_id: String::from_str(organization_id),
            board_id: request.board_id.clone(),
            repo_id: request.repo_id.clone(),
        };
        (CreateTeamFlow { organization_id: String::from_str(organization_id), request, stage: CreateTeamStage::AwaitingParents }, action)
    }

    /// Takes the outcome of the last request and says what to do next:
    /// - with the parents: when the organization, the board or the repo is missing, finish
    ///   with nothing; otherwise the team's identity is provisioned under the requested
    ///   name;
    /// - with the identity: the team is created from the request, under its number and
    ///   user, and saved;
    /// - once saved: finish with the team;
    /// - a refusal at any point fails with its message.
    pub fn step(self, event: CreateTeamEvent) -> (r: (CreateTeamFlow, CreateTeamAction))
        requires
            create_takes(self.stage, event),
        ensures
            r.0.organization_id == self.organization_id,
            r.0.request == self.request,
            match (self.stage, event) {
                (CreateTeamStage::AwaitingParents, CreateTeamEvent::ParentsChecked { organization, board, repo }) =>
                    if organization && board && repo {
                        r.0.stage is AwaitingIdentity && r.1 == (CreateTeamAction::ProvisionIdentity {
                            vm_type: self.request.vm_type,
                            name: self.request.name,
                            organization_id: self.organization_id,
                        })
                    } else {
                        r.0.stage is Finished && r.1 == (CreateTeamAction::Finish { team: None })
                    },
                (CreateTeamStage::AwaitingIdentity, CreateTeamEvent::IdentityProvisioned { team_id, user_id }) =>
                    r.0.stage is AwaitingSave && r.1 == (CreateTeamAction::SaveTeam {
                        team_id,
                        organization_id: self.organization_id,
                        name: self.request.name,
                        description: self.request.description,
                        board_id: self.request.board_id,
                        repo_id: self.request.repo_id,
                        user_id,
                        vm_type: self.request.vm_type,
                    }),
                (CreateTeamStage::AwaitingSave, CreateTeamEvent::TeamSaved { team }) => r.0.stage is Finished && r.1 == (
                CreateTeamAction::Finish { team: Some(team) }),
                (_, CreateTeamEvent::Refused { message }) => r.0.stage is Finished && r.1 == (CreateTeamAction::Fail { message }),
                _ => false,
            },
    {
        let CreateTeamFlow { organization_id, request, stage } = self;
        match (stage, event) {
            (CreateTeamStage::AwaitingParents, CreateTeamEvent::ParentsChecked { organization, board, repo }) => {
                if organization && board && repo {
                    let action = CreateTeamAction::ProvisionIdentity {
                        vm_type: request.vm_type.clone(),
                        name: request.name.clone(),
                        organization_id: organization_id.clone(),
                    };
                    (CreateTeamFlow { organization_id, request, stage: CreateTeamStage::AwaitingIdentity }, action)
                } else {
                    (CreateTeamFlow { organization_id, request, stage: CreateTeamStage::Finished }, CreateTeamAction::Finish { team: None })
                }
            },
            (CreateTeamStage::AwaitingIdentity, CreateTeamEvent::IdentityProvisioned { team_id, user_id }) => {
                let action = CreateTeamAction::SaveTeam {
                    team_id,
                    organization_id: organization_id.clone(),
                    name: request.name.clone(),
                    description: request.description.clone(),
                    board_id: request.board_id.clone(),
                    repo_id: request.repo_id.clone(),
                    user_id,
                    vm_type: request.vm_type.clone(),
                };
                (CreateTeamFlow { organization_id, request, stage: CreateTeamStage::AwaitingSave }, action)
            },
            (CreateTeamStage::AwaitingSave, CreateTeamEvent::TeamSaved { team }) => {
                (CreateTeamFlow { organization_id, request, stage: CreateTeamStage::Finished }, CreateTeamAction::Finish { team: Some(team) })
            },
            (_, CreateTeamEvent::Refused { message }) => {
                (CreateTeamFlow { organization_id, request, stage: CreateTeamStage::Finished }, CreateTeamAction::Fail { message })
            },
            _ => {
                assert(false);
                (CreateTeamFlow { organization_id, request, stage: CreateTeamStage::Finished }, CreateTeamAction::Fail { message: String::new() })
            },
        }
    }
}

/// A team about to be stopped, as stopping reads it: the VM it runs on, if any.
#[derive(Debug)]
pub struct StoppingTeam {
    pub vm_id: Option<String>,
}

/// Where stopping a team stands.
#[derive(Debug)]
pub enum StopTeamStage {
    /// Waiting for the team.
    AwaitingTeam,
    /// Waiting for its VM to be stopped.
    AwaitingVmStop,
    /// Waiting for the team to be marked stopped and saved.
    AwaitingStopRecord,
    /// Done.
    Finished,
}

/// What the service reports back after doing what the flow asked.
#[derive(Debug)]
pub enum StopTeamEvent {
    /// The team was loaded (`None`: there is no such team).
    TeamLoaded { team: Option<StoppingTeam> },
    /// The VM port stopped the team's VM.
    VmStopped,
    /// The team was marked stopped and saved (`None`: it vanished meanwhile).
    StopRecorded { team: Option<TeamSnapshot> },
    /// What was asked failed, with this message: an id did not parse, the VM port
    /// failed, or the store failed.
    Refused { message: String },
}

/// What the flow asks the service to do next.
#[derive(Debug)]
pub enum StopTeamAction {
    /// Load the team.
    LoadTeam,
    /// Have the VM port stop VM `vm_id`.
    StopVm { vm_id: String },
    /// Mark the team stopped and save it, retrying on a conflicting writer.
    MarkStopped,
    /// Stop, answering with this.
    Finish { result: Result<Option<TeamSnapshot>, String> },
}

/// Stopping one team: its VM, if it has one, is torn down before the team is marked
/// stopped.
#[derive(Debug)]
pub struct StopTeamFlow {
    pub stage: StopTeamStage,
}

/// Whether the flow can take `event` in the stage it is in.
pub open spec fn stop_takes(stage: StopTeamStage, event: StopTeamEvent) -> bool {
    match (stage, event) {
        (StopTeamStage::AwaitingTeam, StopTeamEvent::TeamLoaded { .. }) => true,
        (StopTeamStage::AwaitingVmStop, StopTeamEvent::VmStopped) => true,
        (StopTeamStage::AwaitingStopRecord, StopTeamEvent::StopRecorded { .. }) => true,
        (StopTeamStage::Finished, _) => false,
        (_, StopTeamEvent::Refused { .. }) => true,
        _ => false,
    }
}

impl StopTeamFlow {
    /// Starts stopping a team: it is loaded first.
    pub fn begin() -> (r: (StopTeamFlow, StopTeamAction))
        ensures
            r.0.stage is AwaitingTeam,
            r.1 is LoadTeam,
    {
        (StopTeamFlow { stage: StopTeamStage::AwaitingTeam }, StopTeamAction::LoadTeam)
    }

    /// Takes the outcome of the last request and says what to do next:
    /// - with the team: none finishes with nothing; a team on a VM has that VM stopped
    ///   first; one without is marked stopped at once;
    /// - once the VM is stopped: the team is marked stopped;
    /// - once recorded: finish with the stopped team (or nothing, if it vanished);
    /// - a refusal at any point fails with its message.
    pub fn step(self, event: StopTeamEvent) -> (r: (StopTeamFlow, StopTeamAction))
        requires
            stop_takes(self.stage, event),
        ensures
            match (self.stage, event) {
                (StopTeamStage::AwaitingTeam, StopTeamEvent::TeamLoaded { team }) => match team {
                    None => r.0.stage is Finished && r.1 == (StopTeamAction::Finish { result: Ok(None) }),
                    Some(t) => match t.vm_id {
                        Some(vm_id) => r.0.stage is AwaitingVmStop && r.1 == (StopTeamAction::StopVm { vm_id }),
                        None => r.0.stage is AwaitingStopRecord && r.1 is MarkStopped,
                    },
                },
                (StopTeamStage::AwaitingVmStop, StopTeamEvent::VmStopped) => r.0.stage is AwaitingStopRecord && r.1 is MarkStopped,
                (StopTeamStage::AwaitingStopRecord, StopTeamEvent::StopRecorded { team }) => r.0.stage is Finished && r.1 == (
                StopTeamAction::Finish { result: Ok(team) }),
                (_, StopTeamEvent::Refused { message }) => r.0.stage is Finished && r.1 == (StopTeamAction::Finish {
                    result: Err(message),
                }),
                _ => false,
            },
    {
        match (self.stage, event) {
            (StopTeamStage::AwaitingTeam, StopTeamEvent::TeamLoaded { team }) => match team {
                None => (StopTeamFlow { stage: StopTeamStage::Finished }, StopTeamAction::Finish { result: Ok(None) }),
                Some(t) => match t.vm_id {
                    Some(vm_id) => (StopTeamFlow { stage: StopTeamStage::AwaitingVmStop }, StopTeamAction::StopVm { vm_id }),
                    None => (StopTeamFlow { stage: StopTeamStage::AwaitingStopRecord }, StopTeamAction::MarkStopped),
                },
            },
            (StopTeamStage::AwaitingVmStop, StopTeamEvent::VmStopped) => {
                (StopTeamFlow { stage: StopTeamStage::AwaitingStopRecord }, StopTeamAction::MarkStopped)
            },
            (StopTeamStage::AwaitingStopRecord, StopTeamEvent::StopRecorded { team }) => {
                (StopTeamFlow { stage: StopTeamStage::Finished }, StopTeamAction::Finish { result: Ok(team) })
            },
            (_, StopTeamEvent::Refused { message }) => {
                (StopTeamFlow { stage: StopTeamStage::Finished }, StopTeamAction::Finish { result: Err(message) })
            },
            _ => {
                assert(false);
                (StopTeamFlow { stage: StopTeamStage::Finished }, StopTeamAction::LoadTeam)
            },
        }
    }
}

} // verus!
