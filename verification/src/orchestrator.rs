//! The deployment pipeline, sequenced as an explicit state machine.
//!
//! One deployment attempt runs the ordered pipeline: validate credentials,
//! build and submit the provisioning request, poll until the instance is
//! ready, wait through the timed agent-bootstrap sub-steps, re-fetch the
//! final instance state, and emit the completion record — or a single
//! terminal error as soon as a step fails.  The machine owns every
//! decision; the caller only performs the outside work each returned
//! action names and feeds the outcome back as the next event.

use vstd::prelude::*;
use vstd::string::StringExecFns;
use crate::models::Droplet;
use crate::models::DropletModel;
use crate::models::DropletRequest;
use crate::models::DropletRequestModel;
use crate::models::RegionOption;
use crate::models::is_default_request;
use crate::poll::FetchOutcome;
use crate::poll::FetchModel;
use crate::poll::DecisionModel;
use crate::poll::MAX_POLL_ATTEMPTS;
use crate::poll::POLL_INTERVAL_SECS;
use crate::poll::check_fetch;
use crate::poll::fetch_views;
use crate::poll::decide;
use crate::progress::DeploymentMessage;
use crate::progress::MessageModel;
use crate::progress::msg_views;
use crate::progress::lemma_msg_views_concat;
use crate::progress::is_terminal;
use crate::progress::trace_wf;
use crate::progress::ServerInfo;
use crate::progress::ServerInfoModel;
use crate::script::build_cloud_init_script;
use crate::script::script_of;

verus! {

/// Number of timed agent-bootstrap sub-steps.
pub const INSTALL_SUBSTEPS: u64 = 7;

/// Seconds slept after the last bootstrap status line.
pub const INSTALL_FINAL_WAIT_SECS: u64 = 5;

/// The fixed monthly cost estimate reported for the deployed server.
pub const SERVER_COST: &'static str = "$4/month";

// ---------------------------------------------------------------------------
// Pipeline vocabulary
// ---------------------------------------------------------------------------

/// Where the pipeline stands.  The attempt counters count undecided
/// readiness attempts; `finalizing` tells the re-fetch of the final
/// instance state apart from the first readiness wait.
#[derive(Clone, Copy)]
pub enum Phase {
    Validating,
    Creating,
    AwaitingReady { droplet_id: u64, attempts: u64, finalizing: bool },
    Sleeping { droplet_id: u64, attempts: u64, finalizing: bool },
    Installing { droplet_id: u64, substep: u64 },
    Done,
    Failed,
}

/// The outcome of the outside work an action asked for.
pub enum ProviderEvent {
    Validated { ok: bool },
    Created { result: Result<Droplet, String> },
    Fetched { outcome: FetchOutcome },
    Slept,
}

/// Mathematical view of a `ProviderEvent`.
#[verifier::ext_equal]
pub enum EventModel {
    Validated { ok: bool },
    Created { result: Result<DropletModel, Seq<char>> },
    Fetched { outcome: FetchModel },
    Slept,
}

impl View for ProviderEvent {
    type V = EventModel;

    open spec fn view(&self) -> EventModel {
        match self {
            ProviderEvent::Validated { ok } => EventModel::Validated { ok: *ok },
            ProviderEvent::Created { result } => EventModel::Created {
                result: match result {
                    Ok(d) => Ok(d@),
                    Err(e) => Err(e@),
                },
            },
            ProviderEvent::Fetched { outcome } => EventModel::Fetched { outcome: outcome@ },
            ProviderEvent::Slept => EventModel::Slept,
        }
    }
}

/// The outside work the caller must perform next.
pub enum Action {
    Validate,
    Create { request: DropletRequest, user_data: Vec<char> },
    Fetch { droplet_id: u64 },
    Sleep { secs: u64 },
    Halt,
}

/// Mathematical view of an `Action`.
#[verifier::ext_equal]
pub enum ActionModel {
    Validate,
    Create { request: DropletRequestModel, user_data: Seq<char> },
    Fetch { droplet_id: u64 },
    Sleep { secs: u64 },
    Halt,
}

impl View for Action {
    type V = ActionModel;

    open spec fn view(&self) -> ActionModel {
        match self {
            Action::Validate => ActionModel::Validate,
            Action::Create { request, user_data } => ActionModel::Create {
                request: request@,
                user_data: user_data@,
            },
            Action::Fetch { droplet_id } => ActionModel::Fetch { droplet_id: *droplet_id },
            Action::Sleep { secs } => ActionModel::Sleep { secs: *secs },
            Action::Halt => ActionModel::Halt,
        }
    }
}

// ---------------------------------------------------------------------------
// Fixed texts of the pipeline
// ---------------------------------------------------------------------------

/// The status line of agent-bootstrap sub-step `i`.
pub open spec fn install_message(i: int) -> Seq<char> {
    if i == 0 {
        "Downloading and installing Tailscale..."@
    } else if i == 1 {
        "Configuring IP forwarding..."@
    } else if i == 2 {
        "Starting Tailscale daemon..."@
    } else if i == 3 {
        "Connecting to your Tailnet..."@
    } else if i == 4 {
        "Enabling SSH access..."@
    } else if i == 5 {
        "Configuring as exit node..."@
    } else {
        "Finalizing setup..."@
    }
}

/// The seconds slept during agent-bootstrap sub-step `i`.
pub open spec fn install_wait(i: int) -> u64 {
    if i == 0 {
        15
    } else if i == 1 {
        5
    } else if i == 2 {
        10
    } else if i == 3 {
        15
    } else if i == 4 {
        5
    } else if i == 5 {
        5
    } else {
        10
    }
}

/// The status line of agent-bootstrap sub-step `i`.
fn install_step_message(i: u64) -> (m: String)
    ensures
        m@ == install_message(i as int),
{
    if i == 0 {
        "Downloading and installing Tailscale...".to_owned()
    } else if i == 1 {
        "Configuring IP forwarding...".to_owned()
    } else if i == 2 {
        "Starting Tailscale daemon...".to_owned()
    } else if i == 3 {
        "Connecting to your Tailnet...".to_owned()
    } else if i == 4 {
        "Enabling SSH access...".to_owned()
    } else if i == 5 {
        "Configuring as exit node...".to_owned()
    } else {
        "Finalizing setup...".to_owned()
    }
}

/// The seconds slept during agent-bootstrap sub-step `i`.
fn install_step_wait(i: u64) -> (w: u64)
    ensures
        w == install_wait(i as int),
{
    if i == 0 {
        15
    } else if i == 1 {
        5
    } else if i == 2 {
        10
    } else if i == 3 {
        15
    } else if i == 4 {
        5
    } else if i == 5 {
        5
    } else {
        10
    }
}

/// A progress message for the given pipeline step.
fn progress_message(step: usize, text: &str) -> (m: DeploymentMessage)
    ensures
        m@ == (MessageModel::Progress { step: step as nat, status: text@ }),
{
    DeploymentMessage::Progress { step, status: text.to_owned() }
}

/// A terminal error message with the given cause.
fn error_message(text: &str) -> (m: DeploymentMessage)
    ensures
        m@ == (MessageModel::Error { message: text@ }),
{
    DeploymentMessage::Error { message: text.to_owned() }
}

// ---------------------------------------------------------------------------
// The transition relation
// ---------------------------------------------------------------------------

/// The pipeline's state between events: where it stands, the join key it
/// embeds into the bootstrap script, and the region it deploys to.
pub struct Orchestrator {
    pub phase: Phase,
    pub auth_key: Vec<char>,
    pub region_slug: String,
}

/// Mathematical view of an `Orchestrator`.
#[verifier::ext_equal]
pub struct OrchModel {
    pub phase: Phase,
    pub auth_key: Seq<char>,
    pub region_slug: Seq<char>,
}

impl View for Orchestrator {
    type V = OrchModel;

    open spec fn view(&self) -> OrchModel {
        OrchModel {
            phase: self.phase,
            auth_key: self.auth_key@,
            region_slug: self.region_slug@,
        }
    }
}

/// The counters stay within their budgets.
pub open spec fn phase_wf(p: Phase) -> bool {
    match p {
        Phase::AwaitingReady { attempts, .. } => attempts < MAX_POLL_ATTEMPTS,
        Phase::Sleeping { attempts, .. } => attempts < MAX_POLL_ATTEMPTS,
        Phase::Installing { substep, .. } => substep <= INSTALL_SUBSTEPS,
        _ => true,
    }
}

/// Which event kind a phase waits for.
pub open spec fn expects(p: Phase, e: EventModel) -> bool {
    match p {
        Phase::Validating => e is Validated,
        Phase::Creating => e is Created,
        Phase::AwaitingReady { .. } => e is Fetched,
        Phase::Sleeping { .. } => e is Slept,
        Phase::Installing { .. } => e is Slept,
        Phase::Done => false,
        Phase::Failed => false,
    }
}

/// The phase the pipeline moves to on an event.
pub open spec fn next_phase(p: Phase, e: EventModel) -> Phase {
    match (p, e) {
        (Phase::Validating, EventModel::Validated { ok }) => {
            if ok {
                Phase::Creating
            } else {
                Phase::Failed
            }
        },
        (Phase::Creating, EventModel::Created { result }) => {
            match result {
                Ok(d) => Phase::AwaitingReady { droplet_id: d.id, attempts: 0, finalizing: false },
                Err(_) => Phase::Failed,
            }
        },
        (Phase::AwaitingReady { droplet_id, attempts, finalizing }, EventModel::Fetched {
            outcome,
        }) => {
            match decide(outcome) {
                DecisionModel::Ready { .. } => {
                    if finalizing {
                        Phase::Done
                    } else {
                        Phase::Installing { droplet_id, substep: 0 }
                    }
                },
                DecisionModel::MissingIp => Phase::Failed,
                DecisionModel::NotReady => {
                    if attempts + 1 >= MAX_POLL_ATTEMPTS {
                        Phase::Failed
                    } else {
                        Phase::Sleeping {
                            droplet_id,
                            attempts: (attempts + 1) as u64,
                            finalizing,
                        }
                    }
                },
            }
        },
        (Phase::Sleeping { droplet_id, attempts, finalizing }, EventModel::Slept) => {
            Phase::AwaitingReady { droplet_id, attempts, finalizing }
        },
        (Phase::Installing { droplet_id, substep }, EventModel::Slept) => {
            if substep < INSTALL_SUBSTEPS - 1 {
                Phase::Installing { droplet_id, substep: (substep + 1) as u64 }
            } else if substep == INSTALL_SUBSTEPS - 1 {
                Phase::Installing { droplet_id, substep: INSTALL_SUBSTEPS }
            } else {
                Phase::AwaitingReady { droplet_id, attempts: 0, finalizing: true }
            }
        },
        _ => p,
    }
}

/// The messages the pipeline emits on an event, in emission order.
pub open spec fn emitted(p: Phase, e: EventModel) -> Seq<MessageModel> {
    match (p, e) {
        (Phase::Validating, EventModel::Validated { ok }) => {
            if ok {
                seq![MessageModel::Progress { step: 2nat, status: "Creating server..."@ }]
            } else {
                seq![
                    MessageModel::Error {
                        message: "Invalid credentials: Invalid token or insufficient permissions"@,
                    },
                ]
            }
        },
        (Phase::Creating, EventModel::Created { result }) => {
            match result {
                Ok(_) => seq![
                    MessageModel::Progress {
                        step: 3nat,
                        status: "Waiting for server to be ready..."@,
                    },
                ],
                Err(e) => seq![
                    MessageModel::Error { message: "Failed to create server: "@ + e },
                ],
            }
        },
        (Phase::AwaitingReady { attempts, finalizing, .. }, EventModel::Fetched { outcome }) => {
            match decide(outcome) {
                DecisionModel::Ready { name, ip } => {
                    if finalizing {
                        seq![
                            MessageModel::Complete {
                                server_info: ServerInfoModel { name, ip, cost: SERVER_COST@ },
                            },
                        ]
                    } else {
                        seq![
                            MessageModel::Progress {
                                step: 4nat,
                                status: "Installing and configuring Tailscale..."@,
                            },
                            MessageModel::Progress { step: 4nat, status: install_message(0) },
                        ]
                    }
                },
                DecisionModel::MissingIp => seq![
                    MessageModel::Error { message: "No public IP found"@ },
                ],
                DecisionModel::NotReady => {
                    if attempts + 1 >= MAX_POLL_ATTEMPTS {
                        seq![
                            MessageModel::Error {
                                message: "Timeout waiting for droplet to be ready"@,
                            },
                        ]
                    } else {
                        Seq::empty()
                    }
                },
            }
        },
        (Phase::Installing { substep, .. }, EventModel::Slept) => {
            if substep < INSTALL_SUBSTEPS - 1 {
                seq![
                    MessageModel::Progress { step: 4nat, status: install_message(substep + 1) },
                ]
            } else if substep == INSTALL_SUBSTEPS - 1 {
                seq![
                    MessageModel::Progress {
                        step: 4nat,
                        status: "Tailscale setup completed successfully!"@,
                    },
                ]
            } else {
                seq![
                    MessageModel::Progress { step: 5nat, status: "Finalizing server setup..."@ },
                ]
            }
        },
        _ => Seq::empty(),
    }
}

/// Whether `a` is the action the pipeline asks for when it stands at the
/// (already advanced) phase `p`.  The provisioning request's generated name
/// carries a random suffix, so the request is pinned up to that suffix.
pub open spec fn action_ok(a: ActionModel, o: OrchModel, p: Phase) -> bool {
    match p {
        Phase::Validating => a is Validate,
        Phase::Creating => match a {
            ActionModel::Create { request, user_data } => {
                &&& is_default_request(request, o.region_slug)
                &&& user_data == script_of(o.auth_key)
            },
            _ => false,
        },
        Phase::AwaitingReady { droplet_id, .. } => a == (ActionModel::Fetch { droplet_id }),
        Phase::Sleeping { .. } => a == (ActionModel::Sleep { secs: POLL_INTERVAL_SECS }),
        Phase::Installing { substep, .. } => a == (ActionModel::Sleep {
            secs: if substep < INSTALL_SUBSTEPS {
                install_wait(substep as int)
            } else {
                INSTALL_FINAL_WAIT_SECS
            },
        }),
        Phase::Done => a is Halt,
        Phase::Failed => a is Halt,
    }
}

impl Orchestrator {
    /// Starts one deployment attempt with the captured join key and the
    /// selected region (the default region when none was selected).  The
    /// first progress report goes out at once; the first outside work is
    /// the credential check.
    pub fn start(auth_key: Vec<char>, region: Option<RegionOption>) -> (r: (
        Orchestrator,
        Vec<DeploymentMessage>,
        Action,
    ))
        ensures
            r.0@.phase is Validating,
            phase_wf(r.0@.phase),
            r.0@.auth_key == auth_key@,
            r.0@.region_slug == match region {
                Some(reg) => reg@.slug,
                None => "nyc1"@,
            },
            msg_views(r.1@) =~= seq![
                MessageModel::Progress { step: 1nat, status: "Validating credentials..."@ },
            ],
            r.2@ is Validate,
    {
        let region_slug: String = match region {
            Some(reg) => reg.slug,
            None => "nyc1".to_owned(),
        };
        let orch = Orchestrator { phase: Phase::Validating, auth_key, region_slug };
        let mut msgs: Vec<DeploymentMessage> = Vec::new();
        msgs.push(progress_message(1, "Validating credentials..."));
        (orch, msgs, Action::Validate)
    }

    /// Feeds the outcome of the last action into the pipeline: the phase
    /// advances, the listed messages are emitted in order, and the returned
    /// action names the next outside work.
    pub fn step(&mut self, event: ProviderEvent) -> (r: (Vec<DeploymentMessage>, Action))
        requires
            phase_wf(old(self).phase),
            expects(old(self).phase, event@),
        ensures
            final(self).phase == next_phase(old(self).phase, event@),
            phase_wf(final(self).phase),
            final(self)@.auth_key == old(self)@.auth_key,
            final(self)@.region_slug == old(self)@.region_slug,
            msg_views(r.0@) =~= emitted(old(self).phase, event@),
            action_ok(r.1@, old(self)@, final(self).phase),
    {
        let mut msgs: Vec<DeploymentMessage> = Vec::new();
        let ph = self.phase;
        match (ph, event) {
            (Phase::Validating, ProviderEvent::Validated { ok }) => {
                if ok {
                    self.phase = Phase::Creating;
                    msgs.push(progress_message(2, "Creating server..."));
                    let user_data = build_cloud_init_script(&self.auth_key);
                    let request = DropletRequest::for_region(&self.region_slug);
                    (msgs, Action::Create { request, user_data })
                } else {
                    self.phase = Phase::Failed;
                    msgs.push(
                        error_message(
                            "Invalid credentials: Invalid token or insufficient permissions",
                        ),
                    );
                    (msgs, Action::Halt)
                }
            },
            (Phase::Creating, ProviderEvent::Created { result }) => {
                match result {
                    Ok(droplet) => {
                        let droplet_id = droplet.id;
                        self.phase = Phase::AwaitingReady {
                            droplet_id,
                            attempts: 0,
                            finalizing: false,
                        };
                        msgs.push(progress_message(3, "Waiting for server to be ready..."));
                        (msgs, Action::Fetch { droplet_id })
                    },
                    Err(e) => {
                        self.phase = Phase::Failed;
                        let text = String::from_str("Failed to create server: ").concat(
                            e.as_str(),
                        );
                        msgs.push(DeploymentMessage::Error { message: text });
                        (msgs, Action::Halt)
                    },
                }
            },
            (
                Phase::AwaitingReady { droplet_id, attempts, finalizing },
                ProviderEvent::Fetched { outcome },
            ) => {
                match check_fetch(&outcome) {
                    crate::poll::FetchDecision::Ready { info } => {
                        if finalizing {
                            self.phase = Phase::Done;
                            msgs.push(
                                DeploymentMessage::Complete {
                                    server_info: ServerInfo {
                                        name: info.name,
                                        ip: info.ip,
                                        cost: SERVER_COST.to_owned(),
                                    },
                                },
                            );
                            (msgs, Action::Halt)
                        } else {
                            self.phase = Phase::Installing { droplet_id, substep: 0 };
                            msgs.push(
                                progress_message(4, "Installing and configuring Tailscale..."),
                            );
                            msgs.push(
                                DeploymentMessage::Progress {
                                    step: 4,
                                    status: install_step_message(0),
                                },
                            );
                            (msgs, Action::Sleep { secs: install_step_wait(0) })
                        }
                    },
                    crate::poll::FetchDecision::MissingIp => {
                        self.phase = Phase::Failed;
                        msgs.push(error_message("No public IP found"));
                        (msgs, Action::Halt)
                    },
                    crate::poll::FetchDecision::NotReady => {
                        if attempts + 1 >= MAX_POLL_ATTEMPTS {
                            self.phase = Phase::Failed;
                            msgs.push(error_message("Timeout waiting for droplet to be ready"));
                            (msgs, Action::Halt)
                        } else {
                            self.phase = Phase::Sleeping {
                                droplet_id,
                                attempts: attempts + 1,
                                finalizing,
                            };
                            (msgs, Action::Sleep { secs: POLL_INTERVAL_SECS })
                        }
                    },
                }
            },
            (Phase::Sleeping { droplet_id, attempts, finalizing }, ProviderEvent::Slept) => {
                self.phase = Phase::AwaitingReady { droplet_id, attempts, finalizing };
                (msgs, Action::Fetch { droplet_id })
            },
            (Phase::Installing { droplet_id, substep }, ProviderEvent::Slept) => {
                if substep < INSTALL_SUBSTEPS - 1 {
                    let next = substep + 1;
                    self.phase = Phase::Installing { droplet_id, substep: next };
                    msgs.push(
                        DeploymentMessage::Progress {
                            step: 4,
                            status: install_step_message(next),
                        },
                    );
                    (msgs, Action::Sleep { secs: install_step_wait(next) })
                } else if substep == INSTALL_SUBSTEPS - 1 {
                    self.phase = Phase::Installing { droplet_id, substep: INSTALL_SUBSTEPS };
                    msgs.push(progress_message(4, "Tailscale setup completed successfully!"));
                    (msgs, Action::Sleep { secs: INSTALL_FINAL_WAIT_SECS })
                } else {
                    self.phase = Phase::AwaitingReady {
                        droplet_id,
                        attempts: 0,
                        finalizing: true,
                    };
                    msgs.push(progress_message(5, "Finalizing server setup..."));
                    (msgs, Action::Fetch { droplet_id })
                }
            },
            _ => {
                proof {
                    assert(false);
                }
                (msgs, Action::Halt)
            },
        }
    }
}

// ---------------------------------------------------------------------------
// Driving one readiness-poll phase
// ---------------------------------------------------------------------------

/// The number of attempts, counted from `start` and capped at `max`, that
/// the readiness poll makes before one decides it; `None` when none of the
/// first `max` attempts decides.
pub open spec fn first_decisive(fs: Seq<FetchModel>, start: int, max: int) -> Option<int>
    decreases max,
{
    if max <= 0 {
        None
    } else if !(crate::poll::decision_at(fs, start) is NotReady) {
        Some(0)
    } else {
        match first_decisive(fs, start + 1, max - 1) {
            Some(n) => Some(n + 1),
            None => None,
        }
    }
}

proof fn lemma_first_decisive_found(fs: Seq<FetchModel>, start: int, max: int, k: int)
    requires
        0 <= k < max,
        forall|j: int|
            0 <= j < k ==> #[trigger] crate::poll::decision_at(fs, start + j) is NotReady,
        !(crate::poll::decision_at(fs, start + k) is NotReady),
    ensures
        first_decisive(fs, start, max) == Some(k),
    decreases k,
{
    if k == 0 {
    } else {
        assert(crate::poll::decision_at(fs, start + 0) is NotReady);
        assert forall|j: int|
            0 <= j < k - 1 implies #[trigger] crate::poll::decision_at(
            fs,
            start + 1 + j,
        ) is NotReady by {
            assert(crate::poll::decision_at(fs, start + (j + 1)) is NotReady);
        }
        assert(start + 1 + (k - 1) == start + k);
        lemma_first_decisive_found(fs, start + 1, max - 1, k - 1);
    }
}

proof fn lemma_first_decisive_none(fs: Seq<FetchModel>, start: int, max: int)
    requires
        forall|j: int|
            0 <= j < max ==> #[trigger] crate::poll::decision_at(fs, start + j) is NotReady,
    ensures
        first_decisive(fs, start, max) == None::<int>,
    decreases max,
{
    if max <= 0 {
    } else {
        assert(crate::poll::decision_at(fs, start + 0) is NotReady);
        assert forall|j: int|
            0 <= j < max - 1 implies #[trigger] crate::poll::decision_at(
            fs,
            start + 1 + j,
        ) is NotReady by {
            assert(crate::poll::decision_at(fs, start + (j + 1)) is NotReady);
        }
        lemma_first_decisive_none(fs, start + 1, max - 1);
    }
}

// ---------------------------------------------------------------------------
// The pipeline's emissions, named
// ---------------------------------------------------------------------------

/// The opening progress report of every attempt.
pub open spec fn validating_msg() -> MessageModel {
    MessageModel::Progress { step: 1nat, status: "Validating credentials..."@ }
}

/// The progress report before the provisioning request is submitted.
pub open spec fn creating_msg() -> MessageModel {
    MessageModel::Progress { step: 2nat, status: "Creating server..."@ }
}

/// The progress report before the readiness poll.
pub open spec fn waiting_msg() -> MessageModel {
    MessageModel::Progress { step: 3nat, status: "Waiting for server to be ready..."@ }
}

/// The terminal error of a failed credential check.
pub open spec fn invalid_credentials_msg() -> MessageModel {
    MessageModel::Error {
        message: "Invalid credentials: Invalid token or insufficient permissions"@,
    }
}

/// The terminal error of a rejected provisioning request, carrying the
/// provider's own words.
pub open spec fn create_failed_msg(e: Seq<char>) -> MessageModel {
    MessageModel::Error { message: "Failed to create server: "@ + e }
}

/// The terminal error of an exhausted readiness poll.
pub open spec fn timeout_msg() -> MessageModel {
    MessageModel::Error { message: "Timeout waiting for droplet to be ready"@ }
}

/// The terminal error of a ready instance without a public address.
pub open spec fn no_ip_msg() -> MessageModel {
    MessageModel::Error { message: "No public IP found"@ }
}

/// The terminal completion record.
pub open spec fn complete_msg(name: Seq<char>, ip: Seq<char>) -> MessageModel {
    MessageModel::Complete { server_info: ServerInfoModel { name, ip, cost: SERVER_COST@ } }
}

/// Every progress report of the agent-bootstrap wait, in emission order.
pub open spec fn install_phase_msgs() -> Seq<MessageModel> {
    seq![
        MessageModel::Progress { step: 4nat, status: "Installing and configuring Tailscale..."@ },
        MessageModel::Progress { step: 4nat, status: install_message(0) },
        MessageModel::Progress { step: 4nat, status: install_message(1) },
        MessageModel::Progress { step: 4nat, status: install_message(2) },
        MessageModel::Progress { step: 4nat, status: install_message(3) },
        MessageModel::Progress { step: 4nat, status: install_message(4) },
        MessageModel::Progress { step: 4nat, status: install_message(5) },
        MessageModel::Progress { step: 4nat, status: install_message(6) },
        MessageModel::Progress { step: 4nat, status: "Tailscale setup completed successfully!"@ },
        MessageModel::Progress { step: 5nat, status: "Finalizing server setup..."@ },
    ]
}

/// The seconds the agent-bootstrap wait consumes in all.
pub open spec fn install_phase_wait() -> int {
    install_wait(0) + install_wait(1) + install_wait(2) + install_wait(3) + install_wait(4)
        + install_wait(5) + install_wait(6) + INSTALL_FINAL_WAIT_SECS
}

/// Whether `first_decisive` found a decisive attempt, what it decided and
/// that nothing before it decided.
pub proof fn lemma_first_decisive_range(fs: Seq<FetchModel>, start: int, max: int)
    ensures
        match first_decisive(fs, start, max) {
            Some(n) => {
                &&& 0 <= n < max
                &&& !(crate::poll::decision_at(fs, start + n) is NotReady)
                &&& forall|j: int|
                    0 <= j < n ==> #[trigger] crate::poll::decision_at(fs, start + j) is NotReady
            },
            None => forall|j: int|
                0 <= j < max ==> #[trigger] crate::poll::decision_at(fs, start + j) is NotReady,
        },
    decreases max,
{
    if max <= 0 {
    } else if !(crate::poll::decision_at(fs, start) is NotReady) {
    } else {
        lemma_first_decisive_range(fs, start + 1, max - 1);
        match first_decisive(fs, start + 1, max - 1) {
            Some(n) => {
                assert forall|j: int|
                    0 <= j < n + 1 implies #[trigger] crate::poll::decision_at(
                    fs,
                    start + j,
                ) is NotReady by {
                    if j > 0 {
                        assert(crate::poll::decision_at(fs, start + 1 + (j - 1)) is NotReady);
                    }
                }
            },
            None => {
                assert forall|j: int|
                    0 <= j < max implies #[trigger] crate::poll::decision_at(
                    fs,
                    start + j,
                ) is NotReady by {
                    if j > 0 {
                        assert(crate::poll::decision_at(fs, start + 1 + (j - 1)) is NotReady);
                    }
                }
            },
        }
    }
}

/// The pipeline's polling phases and the standalone bounded poll agree on
/// when a poll is exhausted: no decisive attempt within the budget is
/// exactly an undecided budget.
pub proof fn lemma_first_decisive_exhausted(fs: Seq<FetchModel>, start: int, max: int)
    requires
        max >= 0,
    ensures
        (first_decisive(fs, start, max) is None) == crate::poll::undecided_before(fs, start, max),
{
    lemma_first_decisive_range(fs, start, max);
    match first_decisive(fs, start, max) {
        Some(n) => {
            assert(crate::poll::decision_at(fs, start + n) is NotReady == false);
        },
        None => {},
    }
}

/// Drives the pipeline through one whole readiness-poll phase, feeding it
/// the recorded fetch outcomes in order from `start` and sleeping
/// virtually between attempts.  Returns the messages the phase emitted,
/// the number of fetches made, and the seconds the sleeps consumed.
fn drive_poll(orch: &mut Orchestrator, fetches: &Vec<FetchOutcome>, start: usize) -> (r: (
    Vec<DeploymentMessage>,
    u64,
    u64,
))
    requires
        start + MAX_POLL_ATTEMPTS <= usize::MAX,
        match old(orch).phase {
            Phase::AwaitingReady { attempts, .. } => attempts == 0,
            _ => false,
        },
    ensures
        final(orch)@.auth_key == old(orch)@.auth_key,
        final(orch)@.region_slug == old(orch)@.region_slug,
        ({
            let models = fetch_views(fetches@);
            let fd = first_decisive(models, start as int, MAX_POLL_ATTEMPTS as int);
            match old(orch).phase {
                Phase::AwaitingReady { droplet_id, finalizing, .. } => {
                    match fd {
                        None => {
                            &&& final(orch).phase is Failed
                            &&& msg_views(r.0@) =~= seq![
                                MessageModel::Error {
                                    message: "Timeout waiting for droplet to be ready"@,
                                },
                            ]
                            &&& r.1 == MAX_POLL_ATTEMPTS
                            &&& r.2 == (MAX_POLL_ATTEMPTS - 1) * POLL_INTERVAL_SECS
                        },
                        Some(n) => {
                            &&& r.1 == n + 1
                            &&& r.2 == n * POLL_INTERVAL_SECS
                            &&& match crate::poll::decision_at(models, start + n) {
                                DecisionModel::Ready { name, ip } => {
                                    if finalizing {
                                        &&& final(orch).phase is Done
                                        &&& msg_views(r.0@) =~= seq![
                                            MessageModel::Complete {
                                                server_info: ServerInfoModel {
                                                    name,
                                                    ip,
                                                    cost: SERVER_COST@,
                                                },
                                            },
                                        ]
                                    } else {
                                        &&& final(orch).phase == (Phase::Installing {
                                            droplet_id,
                                            substep: 0,
                                        })
                                        &&& msg_views(r.0@) =~= seq![
                                            MessageModel::Progress {
                                                step: 4nat,
                                                status:
                                                "Installing and configuring Tailscale..."@,
                                            },
                                            MessageModel::Progress {
                                                step: 4nat,
                                                status: install_message(0),
                                            },
                                        ]
                                    }
                                },
                                DecisionModel::MissingIp => {
                                    &&& final(orch).phase is Failed
                                    &&& msg_views(r.0@) =~= seq![
                                        MessageModel::Error { message: "No public IP found"@ },
                                    ]
                                },
                                DecisionModel::NotReady => false,
                            }
                        },
                    }
                },
                _ => true,
            }
        }),
{
    let ghost models = fetch_views(fetches@);
    let failed_outcome = FetchOutcome::FetchFailed;
    let mut elapsed: u64 = 0;
    let mut k: u64 = 0;
    loop
        invariant
            start + MAX_POLL_ATTEMPTS <= usize::MAX,
            k < MAX_POLL_ATTEMPTS,
            elapsed == k * POLL_INTERVAL_SECS,
            failed_outcome@ == FetchModel::Failed,
            models == fetch_views(fetches@),
            orch@.auth_key == old(orch)@.auth_key,
            orch@.region_slug == old(orch)@.region_slug,
            orch.phase == match old(orch).phase {
                Phase::AwaitingReady { droplet_id, finalizing, .. } => Phase::AwaitingReady {
                    droplet_id,
                    attempts: k,
                    finalizing,
                },
                _ => old(orch).phase,
            },
            old(orch).phase matches Phase::AwaitingReady { attempts, .. } && attempts == 0,
            forall|j: int|
                0 <= j < k ==> #[trigger] crate::poll::decision_at(
                    models,
                    start + j,
                ) is NotReady,
        decreases MAX_POLL_ATTEMPTS - k,
    {
        let j: usize = start + (k as usize);
        proof {
            assert(models.len() == fetches@.len());
        }
        let outcome_ref: &FetchOutcome;
        if j < fetches.len() {
            outcome_ref = &fetches[j];
            proof {
                assert(models[j as int] == fetches@[j as int]@);
            }
        } else {
            outcome_ref = &failed_outcome;
        }
        proof {
            assert(outcome_ref@ == crate::poll::outcome_at(models, j as int));
        }
        let ghost d = crate::poll::decision_at(models, j as int);
        let event = ProviderEvent::Fetched { outcome: outcome_ref.duplicate() };
        proof {
            assert(event@ == (EventModel::Fetched {
                outcome: crate::poll::outcome_at(models, j as int),
            }));
        }
        let (msgs, _action) = orch.step(event);
        match orch.phase {
            Phase::Installing { .. } => {
                proof {
                    lemma_first_decisive_found(
                        models,
                        start as int,
                        MAX_POLL_ATTEMPTS as int,
                        k as int,
                    );
                }
                return (msgs, k + 1, elapsed);
            },
            Phase::Done => {
                proof {
                    lemma_first_decisive_found(
                        models,
                        start as int,
                        MAX_POLL_ATTEMPTS as int,
                        k as int,
                    );
                }
                return (msgs, k + 1, elapsed);
            },
            Phase::Failed => {
                proof {
                    if d is NotReady {
                        assert(k + 1 == MAX_POLL_ATTEMPTS);
                        assert forall|j2: int|
                            0 <= j2 < MAX_POLL_ATTEMPTS implies #[trigger] crate::poll::decision_at(
                            models,
                            start + j2,
                        ) is NotReady by {
                            if j2 == k {
                                assert(crate::poll::decision_at(models, start + j2) == d);
                            }
                        }
                        lemma_first_decisive_none(
                            models,
                            start as int,
                            MAX_POLL_ATTEMPTS as int,
                        );
                    } else {
                        lemma_first_decisive_found(
                            models,
                            start as int,
                            MAX_POLL_ATTEMPTS as int,
                            k as int,
                        );
                    }
                }
                return (msgs, k + 1, elapsed);
            },
            _ => {
                // the poll stays undecided: sleep and retry
                proof {
                    assert(d is NotReady);
                    assert((k + 1) * POLL_INTERVAL_SECS == k * POLL_INTERVAL_SECS
                        + POLL_INTERVAL_SECS) by (nonlinear_arith);
                    assert((k + 1) * POLL_INTERVAL_SECS <= MAX_POLL_ATTEMPTS
                        * POLL_INTERVAL_SECS) by (nonlinear_arith)
                        requires
                            k + 1 <= MAX_POLL_ATTEMPTS,
                    ;
                }
                elapsed = elapsed + POLL_INTERVAL_SECS;
                let (_empty, _a2) = orch.step(ProviderEvent::Slept);
                k = k + 1;
            },
        }
    }
}

/// Moves all of `src` onto the end of `dst`.
fn push_all(dst: &mut Vec<DeploymentMessage>, src: Vec<DeploymentMessage>)
    ensures
        msg_views(final(dst)@) == msg_views(old(dst)@) + msg_views(src@),
{
    let mut src = src;
    let ghost base = dst@;
    let ghost add = src@;
    dst.append(&mut src);
    proof {
        lemma_msg_views_concat(base, add);
    }
}

// ---------------------------------------------------------------------------
// Running one whole attempt against recorded provider behaviour
// ---------------------------------------------------------------------------

/// A provider's scripted behaviour for one deployment attempt: whether the
/// credential check passes, how the creation call answers, and the status
/// fetches in the order the poll reads them.  Attempts beyond the recorded
/// fetches count as failed (transient) fetches.
pub struct ProviderScript {
    pub validate_ok: bool,
    pub create_result: Result<Droplet, String>,
    pub fetch_outcomes: Vec<FetchOutcome>,
}

/// What one simulated attempt produced: the full message trace, the
/// simulated seconds the sleeps consumed, and how often the creation and
/// fetch endpoints were called.
pub struct SimOutcome {
    pub messages: Vec<DeploymentMessage>,
    pub elapsed_secs: u64,
    pub create_calls: u64,
    pub fetch_calls: u64,
}

/// Runs one whole deployment attempt against the scripted provider,
/// sleeping virtually.  The contract pins the message trace, the simulated
/// time and the call counts for every script: a failed credential check
/// ends the attempt before any creation call, a rejected creation before
/// any fetch, and the two readiness polls read the fetch outcomes in
/// order, the second starting where the first left off.
pub fn run_to_completion(
    auth_key: Vec<char>,
    region: Option<RegionOption>,
    script: ProviderScript,
) -> (r: SimOutcome)
    ensures
        ({
            let ms = msg_views(r.messages@);
            let models = fetch_views(script.fetch_outcomes@);
            let fd1 = first_decisive(models, 0, MAX_POLL_ATTEMPTS as int);
            &&& trace_wf(ms)
            &&& ms.len() >= 2
            &&& is_terminal(ms.last())
            &&& (!script.validate_ok ==> {
                &&& ms == seq![validating_msg(), invalid_credentials_msg()]
                &&& r.elapsed_secs == 0
                &&& r.create_calls == 0
                &&& r.fetch_calls == 0
            })
            &&& (script.validate_ok ==> match script.create_result {
                Err(e) => {
                    &&& ms == seq![validating_msg(), creating_msg(), create_failed_msg(e@)]
                    &&& r.elapsed_secs == 0
                    &&& r.create_calls == 1
                    &&& r.fetch_calls == 0
                },
                Ok(_) => {
                    &&& r.create_calls == 1
                    &&& match fd1 {
                        None => {
                            &&& ms == seq![
                                validating_msg(),
                                creating_msg(),
                                waiting_msg(),
                                timeout_msg(),
                            ]
                            &&& r.fetch_calls == MAX_POLL_ATTEMPTS
                            &&& r.elapsed_secs == (MAX_POLL_ATTEMPTS - 1) * POLL_INTERVAL_SECS
                        },
                        Some(n) => match crate::poll::decision_at(models, n) {
                            DecisionModel::MissingIp => {
                                &&& ms == seq![
                                    validating_msg(),
                                    creating_msg(),
                                    waiting_msg(),
                                    no_ip_msg(),
                                ]
                                &&& r.fetch_calls == n + 1
                                &&& r.elapsed_secs == n * POLL_INTERVAL_SECS
                            },
                            DecisionModel::Ready { .. } => {
                                let fd2 = first_decisive(
                                    models,
                                    n + 1,
                                    MAX_POLL_ATTEMPTS as int,
                                );
                                match fd2 {
                                    None => {
                                        &&& ms == seq![
                                            validating_msg(),
                                            creating_msg(),
                                            waiting_msg(),
                                        ] + install_phase_msgs() + seq![timeout_msg()]
                                        &&& r.fetch_calls == n + 1 + MAX_POLL_ATTEMPTS
                                        &&& r.elapsed_secs == n * POLL_INTERVAL_SECS
                                            + install_phase_wait() + (MAX_POLL_ATTEMPTS - 1)
                                            * POLL_INTERVAL_SECS
                                    },
                                    Some(m2) => match crate::poll::decision_at(
                                        models,
                                        n + 1 + m2,
                                    ) {
                                        DecisionModel::MissingIp => {
                                            &&& ms == seq![
                                                validating_msg(),
                                                creating_msg(),
                                                waiting_msg(),
                                            ] + install_phase_msgs() + seq![no_ip_msg()]
                                            &&& r.fetch_calls == n + 1 + m2 + 1
                                            &&& r.elapsed_secs == n * POLL_INTERVAL_SECS
                                                + install_phase_wait() + m2 * POLL_INTERVAL_SECS
                                        },
                                        DecisionModel::Ready { name, ip } => {
                                            &&& ms == seq![
                                                validating_msg(),
                                                creating_msg(),
                                                waiting_msg(),
                                            ] + install_phase_msgs() + seq![
                                                complete_msg(name, ip),
                                            ]
                                            &&& r.fetch_calls == n + 1 + m2 + 1
                                            &&& r.elapsed_secs == n * POLL_INTERVAL_SECS
                                                + install_phase_wait() + m2 * POLL_INTERVAL_SECS
                                        },
                                        DecisionModel::NotReady => false,
                                    },
                                }
                            },
                            DecisionModel::NotReady => false,
                        },
                    }
                },
            })
        }),
{
    let ProviderScript { validate_ok, create_result, fetch_outcomes } = script;
    let ghost models = fetch_views(fetch_outcomes@);
    let (mut orch, mut messages, _action) = Orchestrator::start(auth_key, region);
    let mut elapsed_secs: u64 = 0;
    let mut create_calls: u64 = 0;
    let mut fetch_calls: u64 = 0;

    let (m1, _a1) = orch.step(ProviderEvent::Validated { ok: validate_ok });
    push_all(&mut messages, m1);
    if !validate_ok {
        proof {
            assert(msg_views(messages@) =~= seq![
                validating_msg(),
                invalid_credentials_msg(),
            ]);
        }
        return SimOutcome { messages, elapsed_secs, create_calls, fetch_calls };
    }
    proof {
        assert(msg_views(messages@) =~= seq![
            validating_msg(),
            creating_msg(),
        ]);
    }

    create_calls = 1;
    let ghost created_err = create_result is Err;
    let (m2, _a2) = orch.step(ProviderEvent::Created { result: create_result });
    push_all(&mut messages, m2);
    match orch.phase {
        Phase::Failed => {
            proof {
                assert(msg_views(messages@) =~= seq![
                    validating_msg(),
                    creating_msg(),
                    create_failed_msg(match script.create_result {
                        Err(e) => e@,
                        Ok(_) => Seq::empty(),
                    }),
                ]);
            }
            return SimOutcome { messages, elapsed_secs, create_calls, fetch_calls };
        },
        _ => {},
    }
    proof {
        assert(msg_views(messages@) =~= seq![
            validating_msg(),
            creating_msg(),
            waiting_msg(),
        ]);
        lemma_first_decisive_range(models, 0, MAX_POLL_ATTEMPTS as int);
    }
    let ghost pre3 = seq![validating_msg(), creating_msg(), waiting_msg()];

    // first readiness poll
    let (p1, attempts1, el1) = drive_poll(&mut orch, &fetch_outcomes, 0);
    let ghost p1v = msg_views(p1@);
    push_all(&mut messages, p1);
    fetch_calls = attempts1;
    elapsed_secs = el1;
    match orch.phase {
        Phase::Failed => {
            proof {
                assert(msg_views(messages@) =~= pre3 + p1v);
            }
            return SimOutcome { messages, elapsed_secs, create_calls, fetch_calls };
        },
        _ => {},
    }
    proof {
        assert(msg_views(messages@) =~= pre3 + seq![
            install_phase_msgs()[0],
            install_phase_msgs()[1],
        ]);
    }

    // the timed agent-bootstrap sub-steps, slept through virtually
    let ghost n1 = first_decisive(models, 0, MAX_POLL_ATTEMPTS as int)->0;
    proof {
        assert(n1 < MAX_POLL_ATTEMPTS);
        assert(el1 == n1 * POLL_INTERVAL_SECS);
        assert(n1 * POLL_INTERVAL_SECS <= (MAX_POLL_ATTEMPTS - 1) * POLL_INTERVAL_SECS)
            by (nonlinear_arith)
            requires
                0 <= n1 <= MAX_POLL_ATTEMPTS - 1,
        ;
    }
    elapsed_secs = elapsed_secs + install_step_wait(0);
    let (i1, _) = orch.step(ProviderEvent::Slept);
    push_all(&mut messages, i1);
    elapsed_secs = elapsed_secs + install_step_wait(1);
    let (i2, _) = orch.step(ProviderEvent::Slept);
    push_all(&mut messages, i2);
    elapsed_secs = elapsed_secs + install_step_wait(2);
    let (i3, _) = orch.step(ProviderEvent::Slept);
    push_all(&mut messages, i3);
    elapsed_secs = elapsed_secs + install_step_wait(3);
    let (i4, _) = orch.step(ProviderEvent::Slept);
    push_all(&mut messages, i4);
    elapsed_secs = elapsed_secs + install_step_wait(4);
    let (i5, _) = orch.step(ProviderEvent::Slept);
    push_all(&mut messages, i5);
    elapsed_secs = elapsed_secs + install_step_wait(5);
    let (i6, _) = orch.step(ProviderEvent::Slept);
    push_all(&mut messages, i6);
    elapsed_secs = elapsed_secs + install_step_wait(6);
    let (i7, _) = orch.step(ProviderEvent::Slept);
    push_all(&mut messages, i7);
    elapsed_secs = elapsed_secs + INSTALL_FINAL_WAIT_SECS;
    let (i8, _) = orch.step(ProviderEvent::Slept);
    push_all(&mut messages, i8);
    proof {
        assert(msg_views(messages@) =~= pre3 + install_phase_msgs());
        assert(elapsed_secs == n1 * POLL_INTERVAL_SECS + install_phase_wait());
    }

    // final re-fetch of the instance state
    let start2: usize = attempts1 as usize;
    proof {
        lemma_first_decisive_range(models, n1 + 1, MAX_POLL_ATTEMPTS as int);
    }
    let (p2, attempts2, el2) = drive_poll(&mut orch, &fetch_outcomes, start2);
    let ghost p2v = msg_views(p2@);
    proof {
        let fd2 = first_decisive(models, n1 + 1, MAX_POLL_ATTEMPTS as int);
        if fd2 is Some {
            let m2i = fd2->0;
            assert(el2 == m2i * POLL_INTERVAL_SECS);
            assert(m2i * POLL_INTERVAL_SECS <= (MAX_POLL_ATTEMPTS - 1) * POLL_INTERVAL_SECS)
                by (nonlinear_arith)
                requires
                    0 <= m2i <= MAX_POLL_ATTEMPTS - 1,
            ;
        }
    }
    push_all(&mut messages, p2);
    fetch_calls = fetch_calls + attempts2;
    elapsed_secs = elapsed_secs + el2;
    proof {
        assert(msg_views(messages@) =~= pre3 + install_phase_msgs() + p2v);
    }
    SimOutcome { messages, elapsed_secs, create_calls, fetch_calls }
}

} // verus!
