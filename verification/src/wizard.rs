//! The wizard's interactive state machine: it buffers and validates user
//! text input, advances through the credential, region and join-key steps,
//! hands the captured inputs to the deployment pipeline on the final
//! confirmation, and folds received progress messages into its displayed
//! state once per tick.

use vstd::prelude::*;
use vstd::string::StringExecFns;
use crate::models::REGION_COUNT;
use crate::models::RegionModel;
use crate::models::RegionOption;
use crate::models::region_model;
use crate::progress::DeployProgress;
use crate::progress::DeployProgressModel;
use crate::progress::DeploymentMessage;
use crate::progress::MessageModel;
use crate::progress::ServerInfo;
use crate::progress::ServerInfoModel;
use crate::progress::TOTAL_DEPLOY_STEPS;
use crate::progress::trace_wf;
use crate::text::copy_chars;

verus! {

// ---------------------------------------------------------------------------
// State
// ---------------------------------------------------------------------------

/// The wizard's displayed state: exactly one variant is active at a time,
/// and transitions move forward through the wizard sequence or jump to
/// Error or back to Welcome, never skipping a required step.
pub enum AppState {
    Welcome,
    Auth { token: Vec<char>, cursor: usize },
    RegionSelect { selected_index: usize },
    TailscaleAuth { auth_key: Vec<char>, cursor: usize },
    Loading { message: String },
    Deploy { progress: DeployProgress },
    Complete { server_info: ServerInfo },
    Error { message: String },
}

/// Mathematical view of an `AppState`.
#[verifier::ext_equal]
pub enum StateModel {
    Welcome,
    Auth { token: Seq<char>, cursor: nat },
    RegionSelect { selected_index: nat },
    TailscaleAuth { auth_key: Seq<char>, cursor: nat },
    Loading { message: Seq<char> },
    Deploy { progress: DeployProgressModel },
    Complete { server_info: ServerInfoModel },
    Error { message: Seq<char> },
}

impl View for AppState {
    type V = StateModel;

    open spec fn view(&self) -> StateModel {
        match self {
            AppState::Welcome => StateModel::Welcome,
            AppState::Auth { token, cursor } => StateModel::Auth {
                token: token@,
                cursor: *cursor as nat,
            },
            AppState::RegionSelect { selected_index } => StateModel::RegionSelect {
                selected_index: *selected_index as nat,
            },
            AppState::TailscaleAuth { auth_key, cursor } => StateModel::TailscaleAuth {
                auth_key: auth_key@,
                cursor: *cursor as nat,
            },
            AppState::Loading { message } => StateModel::Loading { message: message@ },
            AppState::Deploy { progress } => StateModel::Deploy { progress: progress@ },
            AppState::Complete { server_info } => StateModel::Complete {
                server_info: server_info@,
            },
            AppState::Error { message } => StateModel::Error { message: message@ },
        }
    }
}

/// Every text cursor stays within its buffer and every selection index
/// stays within the region catalog.
pub open spec fn state_wf(s: StateModel) -> bool {
    match s {
        StateModel::Auth { token, cursor } => cursor <= token.len(),
        StateModel::TailscaleAuth { auth_key, cursor } => cursor <= auth_key.len(),
        StateModel::RegionSelect { selected_index } => selected_index < REGION_COUNT,
        _ => true,
    }
}

/// The instruction to launch the deployment pipeline, carrying the
/// captured credential, the selected region and the join key.
pub struct StartCommand {
    pub api_token: Vec<char>,
    pub auth_key: Vec<char>,
    pub region: Option<RegionOption>,
}

/// Mathematical view of a `StartCommand`.
#[verifier::ext_equal]
pub struct StartCommandModel {
    pub api_token: Seq<char>,
    pub auth_key: Seq<char>,
    pub region: Option<RegionModel>,
}

impl View for StartCommand {
    type V = StartCommandModel;

    open spec fn view(&self) -> StartCommandModel {
        StartCommandModel {
            api_token: self.api_token@,
            auth_key: self.auth_key@,
            region: match &self.region {
                Some(r) => Some(r@),
                None => None,
            },
        }
    }
}

/// The interactive session: the displayed state, the captured inputs, and
/// whether a deployment is running with its receiving channel end attached.
pub struct App {
    pub state: AppState,
    pub should_quit: bool,
    pub api_token: Option<Vec<char>>,
    pub tailscale_auth_key: Option<Vec<char>>,
    pub selected_region: Option<RegionOption>,
    pub deployment_active: bool,
}

/// Mathematical view of an `App`.
#[verifier::ext_equal]
pub struct AppModel {
    pub state: StateModel,
    pub should_quit: bool,
    pub api_token: Option<Seq<char>>,
    pub tailscale_auth_key: Option<Seq<char>>,
    pub selected_region: Option<RegionModel>,
    pub deployment_active: bool,
}

impl View for App {
    type V = AppModel;

    open spec fn view(&self) -> AppModel {
        AppModel {
            state: self.state@,
            should_quit: self.should_quit,
            api_token: match &self.api_token {
                Some(t) => Some(t@),
                None => None,
            },
            tailscale_auth_key: match &self.tailscale_auth_key {
                Some(k) => Some(k@),
                None => None,
            },
            selected_region: match &self.selected_region {
                Some(r) => Some(r@),
                None => None,
            },
            deployment_active: self.deployment_active,
        }
    }
}

/// The session invariant: the displayed state is well formed, and the
/// inputs a later step relies on were captured by the earlier steps.
pub open spec fn app_wf(a: AppModel) -> bool {
    &&& state_wf(a.state)
    &&& (a.state is RegionSelect || a.state is TailscaleAuth) ==> a.api_token is Some
    &&& a.state is TailscaleAuth ==> a.selected_region is Some
}

// ---------------------------------------------------------------------------
// Transitions, as spec functions
// ---------------------------------------------------------------------------

/// Effect of a character key: insert at the cursor in a text step, move the
/// selection in the region step, otherwise nothing.
pub open spec fn char_transition(s: StateModel, c: char) -> StateModel {
    match s {
        StateModel::Auth { token, cursor } => StateModel::Auth {
            token: token.insert(cursor as int, c),
            cursor: cursor + 1,
        },
        StateModel::TailscaleAuth { auth_key, cursor } => StateModel::TailscaleAuth {
            auth_key: auth_key.insert(cursor as int, c),
            cursor: cursor + 1,
        },
        StateModel::RegionSelect { selected_index } => {
            if c == 'j' || c == 's' {
                StateModel::RegionSelect {
                    selected_index: if selected_index + 1 < REGION_COUNT {
                        selected_index + 1
                    } else {
                        selected_index
                    },
                }
            } else if c == 'k' || c == 'w' {
                StateModel::RegionSelect {
                    selected_index: if selected_index > 0 {
                        (selected_index - 1) as nat
                    } else {
                        selected_index
                    },
                }
            } else {
                s
            }
        },
        _ => s,
    }
}

/// Effect of backspace: remove the character before the cursor in a text
/// step, otherwise nothing.
pub open spec fn backspace_transition(s: StateModel) -> StateModel {
    match s {
        StateModel::Auth { token, cursor } => {
            if cursor > 0 {
                StateModel::Auth {
                    token: token.remove(cursor - 1),
                    cursor: (cursor - 1) as nat,
                }
            } else {
                s
            }
        },
        StateModel::TailscaleAuth { auth_key, cursor } => {
            if cursor > 0 {
                StateModel::TailscaleAuth {
                    auth_key: auth_key.remove(cursor - 1),
                    cursor: (cursor - 1) as nat,
                }
            } else {
                s
            }
        },
        _ => s,
    }
}

/// Effect of navigate-up: move the region selection towards the start.
pub open spec fn up_transition(s: StateModel) -> StateModel {
    match s {
        StateModel::RegionSelect { selected_index } => StateModel::RegionSelect {
            selected_index: if selected_index > 0 {
                (selected_index - 1) as nat
            } else {
                selected_index
            },
        },
        _ => s,
    }
}

/// Effect of navigate-down: move the region selection towards the end.
pub open spec fn down_transition(s: StateModel) -> StateModel {
    match s {
        StateModel::RegionSelect { selected_index } => StateModel::RegionSelect {
            selected_index: if selected_index + 1 < REGION_COUNT {
                selected_index + 1
            } else {
                selected_index
            },
        },
        _ => s,
    }
}

/// Effect of confirm: advance one wizard step when the current step's
/// required input is present; trigger the deployment on the final confirm;
/// ignore the confirm while a step's required input is empty.
pub open spec fn enter_transition(a: AppModel) -> (AppModel, Option<StartCommandModel>) {
    match a.state {
        StateModel::Welcome => (
            AppModel { state: StateModel::Auth { token: Seq::empty(), cursor: 0 }, ..a },
            None,
        ),
        StateModel::Auth { token, cursor } => {
            if token.len() > 0 {
                (
                    AppModel {
                        state: StateModel::RegionSelect { selected_index: 0 },
                        api_token: Some(token),
                        ..a
                    },
                    None,
                )
            } else {
                (a, None)
            }
        },
        StateModel::RegionSelect { selected_index } => (
            AppModel {
                state: StateModel::TailscaleAuth { auth_key: Seq::empty(), cursor: 0 },
                selected_region: Some(region_model(selected_index as int)),
                ..a
            },
            None,
        ),
        StateModel::TailscaleAuth { auth_key, cursor } => {
            if auth_key.len() > 0 {
                (
                    AppModel {
                        state: StateModel::Loading { message: "Deploying your VPN server..."@ },
                        tailscale_auth_key: Some(auth_key),
                        deployment_active: true,
                        ..a
                    },
                    match a.api_token {
                        Some(token) => Some(
                            StartCommandModel {
                                api_token: token,
                                auth_key: auth_key,
                                region: a.selected_region,
                            },
                        ),
                        None => None,
                    },
                )
            } else {
                (a, None)
            }
        },
        StateModel::Complete { .. } => (AppModel { should_quit: true, ..a }, None),
        StateModel::Error { .. } => (
            // the failure screen's only exit is a full restart: the captured
            // credential, join key and region selection are discarded
            AppModel {
                state: StateModel::Welcome,
                api_token: None,
                tailscale_auth_key: None,
                selected_region: None,
                ..a
            },
            None,
        ),
        _ => (a, None),
    }
}

/// Effect of one tick: fold at most one received message into the
/// displayed state; tear the channel down after a terminal message; do
/// nothing when no deployment is active or no message arrived.
pub open spec fn tick_transition(a: AppModel, m: Option<MessageModel>) -> AppModel {
    if !a.deployment_active {
        a
    } else {
        match m {
            None => a,
            Some(MessageModel::Progress { step, status }) => AppModel {
                state: StateModel::Deploy {
                    progress: DeployProgressModel {
                        current_step: step,
                        total_steps: TOTAL_DEPLOY_STEPS as nat,
                        status: status,
                    },
                },
                ..a
            },
            Some(MessageModel::Complete { server_info }) => AppModel {
                state: StateModel::Complete { server_info },
                deployment_active: false,
                ..a
            },
            Some(MessageModel::Error { message }) => AppModel {
                state: StateModel::Error { message },
                deployment_active: false,
                ..a
            },
        }
    }
}

// ---------------------------------------------------------------------------
// The interactive session
// ---------------------------------------------------------------------------

impl App {
    /// A fresh session: the welcome screen, nothing captured, nothing
    /// running.
    pub fn new() -> (a: App)
        ensures
            a@ == (AppModel {
                state: StateModel::Welcome,
                should_quit: false,
                api_token: None,
                tailscale_auth_key: None,
                selected_region: None,
                deployment_active: false,
            }),
            app_wf(a@),
    {
        App {
            state: AppState::Welcome,
            should_quit: false,
            api_token: None,
            tailscale_auth_key: None,
            selected_region: None,
            deployment_active: false,
        }
    }

    /// Swaps the displayed state out for inspection, leaving Welcome behind.
    fn take_state(&mut self) -> (s: AppState)
        ensures
            s == old(self).state,
            final(self).state is Welcome,
            final(self).should_quit == old(self).should_quit,
            final(self).api_token == old(self).api_token,
            final(self).tailscale_auth_key == old(self).tailscale_auth_key,
            final(self).selected_region == old(self).selected_region,
            final(self).deployment_active == old(self).deployment_active,
    {
        let mut s = AppState::Welcome;
        core::mem::swap(&mut self.state, &mut s);
        s
    }

    /// Confirm: advances the wizard one step if the current step's required
    /// input is non-empty, and on the final confirm hands back the command
    /// that launches the deployment pipeline.  Confirming a text step with
    /// an empty buffer changes nothing.
    pub fn handle_enter(&mut self) -> (cmd: Option<StartCommand>)
        requires
            app_wf(old(self)@),
        ensures
            final(self)@ == enter_transition(old(self)@).0,
            match cmd {
                Some(c) => enter_transition(old(self)@).1 == Some(c@),
                None => enter_transition(old(self)@).1 is None,
            },
            app_wf(final(self)@),
    {
        let st = self.take_state();
        match st {
            AppState::Welcome => {
                self.state = AppState::Auth { token: Vec::new(), cursor: 0 };
                None
            },
            AppState::Auth { token, cursor } => {
                if token.len() > 0 {
                    self.api_token = Some(token);
                    self.state = AppState::RegionSelect { selected_index: 0 };
                } else {
                    self.state = AppState::Auth { token, cursor };
                }
                None
            },
            AppState::RegionSelect { selected_index } => {
                let mut regions = RegionOption::available_regions();
                let region = regions.remove(selected_index);
                self.selected_region = Some(region);
                self.state = AppState::TailscaleAuth { auth_key: Vec::new(), cursor: 0 };
                None
            },
            AppState::TailscaleAuth { auth_key, cursor } => {
                if auth_key.len() > 0 {
                    let cmd = match &self.api_token {
                        Some(token) => Some(
                            StartCommand {
                                api_token: copy_chars(token),
                                auth_key: copy_chars(&auth_key),
                                region: match &self.selected_region {
                                    Some(r) => Some(r.duplicate()),
                                    None => None,
                                },
                            },
                        ),
                        None => None,
                    };
                    self.tailscale_auth_key = Some(auth_key);
                    self.state = AppState::Loading {
                        message: "Deploying your VPN server...".to_owned(),
                    };
                    self.deployment_active = true;
                    cmd
                } else {
                    self.state = AppState::TailscaleAuth { auth_key, cursor };
                    None
                }
            },
            AppState::Complete { server_info } => {
                self.should_quit = true;
                self.state = AppState::Complete { server_info };
                None
            },
            AppState::Error { .. } => {
                self.state = AppState::Welcome;
                self.api_token = None;
                self.tailscale_auth_key = None;
                self.selected_region = None;
                None
            },
            AppState::Loading { message } => {
                self.state = AppState::Loading { message };
                None
            },
            AppState::Deploy { progress } => {
                self.state = AppState::Deploy { progress };
                None
            },
        }
    }

    /// Tab navigation between screen elements; the wizard state does not
    /// change.
    pub fn handle_tab(&mut self)
        ensures
            final(self)@ == old(self)@,
    {
    }

    /// Reverse tab navigation; the wizard state does not change.
    pub fn handle_back_tab(&mut self)
        ensures
            final(self)@ == old(self)@,
    {
    }

    /// Character input: inserted at the cursor of the active text buffer;
    /// in the region step the letters j/s and k/w move the selection.
    pub fn handle_char(&mut self, c: char)
        requires
            app_wf(old(self)@),
        ensures
            final(self)@ == (AppModel { state: char_transition(old(self)@.state, c), ..old(self)@ }),
            app_wf(final(self)@),
    {
        let st = self.take_state();
        match st {
            AppState::Auth { token, cursor } => {
                let mut token = token;
                token.insert(cursor, c);
                // the grown buffer's length bounds the incremented cursor
                let n: usize = token.len();
                proof {
                    assert(cursor < n);
                }
                self.state = AppState::Auth { token, cursor: cursor + 1 };
            },
            AppState::TailscaleAuth { auth_key, cursor } => {
                let mut auth_key = auth_key;
                auth_key.insert(cursor, c);
                // the grown buffer's length bounds the incremented cursor
                let n: usize = auth_key.len();
                proof {
                    assert(cursor < n);
                }
                self.state = AppState::TailscaleAuth { auth_key, cursor: cursor + 1 };
            },
            AppState::RegionSelect { selected_index } => {
                let next = if c == 'j' || c == 's' {
                    if selected_index + 1 < REGION_COUNT {
                        selected_index + 1
                    } else {
                        selected_index
                    }
                } else if c == 'k' || c == 'w' {
                    if selected_index > 0 {
                        selected_index - 1
                    } else {
                        selected_index
                    }
                } else {
                    selected_index
                };
                self.state = AppState::RegionSelect { selected_index: next };
            },
            other => {
                self.state = other;
            },
        }
    }

    /// Backspace: removes the character before the cursor of the active
    /// text buffer, if any.
    pub fn handle_backspace(&mut self)
        requires
            app_wf(old(self)@),
        ensures
            final(self)@ == (AppModel { state: backspace_transition(old(self)@.state), ..old(self)@ }),
            app_wf(final(self)@),
    {
        let st = self.take_state();
        match st {
            AppState::Auth { token, cursor } => {
                if cursor > 0 {
                    let mut token = token;
                    token.remove(cursor - 1);
                    self.state = AppState::Auth { token, cursor: cursor - 1 };
                } else {
                    self.state = AppState::Auth { token, cursor };
                }
            },
            AppState::TailscaleAuth { auth_key, cursor } => {
                if cursor > 0 {
                    let mut auth_key = auth_key;
                    auth_key.remove(cursor - 1);
                    self.state = AppState::TailscaleAuth { auth_key, cursor: cursor - 1 };
                } else {
                    self.state = AppState::TailscaleAuth { auth_key, cursor };
                }
            },
            other => {
                self.state = other;
            },
        }
    }

    /// Navigate up: moves the region selection towards the start.
    pub fn handle_up(&mut self)
        requires
            app_wf(old(self)@),
        ensures
            final(self)@ == (AppModel { state: up_transition(old(self)@.state), ..old(self)@ }),
            app_wf(final(self)@),
    {
        let st = self.take_state();
        match st {
            AppState::RegionSelect { selected_index } => {
                let next = if selected_index > 0 {
                    selected_index - 1
                } else {
                    selected_index
                };
                self.state = AppState::RegionSelect { selected_index: next };
            },
            other => {
                self.state = other;
            },
        }
    }

    /// Navigate down: moves the region selection towards the end of the
    /// catalog, clamped to the last entry.
    pub fn handle_down(&mut self)
        requires
            app_wf(old(self)@),
        ensures
            final(self)@ == (AppModel { state: down_transition(old(self)@.state), ..old(self)@ }),
            app_wf(final(self)@),
    {
        let st = self.take_state();
        match st {
            AppState::RegionSelect { selected_index } => {
                let next = if selected_index + 1 < REGION_COUNT {
                    selected_index + 1
                } else {
                    selected_index
                };
                self.state = AppState::RegionSelect { selected_index: next };
            },
            other => {
                self.state = other;
            },
        }
    }

    /// Whether a quit request is honoured now: only on the welcome,
    /// completion and failure screens — an in-progress deployment cannot
    /// be aborted.
    pub fn may_quit(&self) -> (q: bool)
        ensures
            q == (self@.state is Welcome || self@.state is Complete || self@.state is Error),
    {
        matches!(
            self.state,
            AppState::Welcome | AppState::Complete { .. } | AppState::Error { .. }
        )
    }

    /// One tick of the interactive loop: folds at most one received
    /// deployment message into the displayed state, and detaches the
    /// channel after a terminal message.
    pub fn tick(&mut self, message: Option<DeploymentMessage>)
        requires
            app_wf(old(self)@),
        ensures
            final(self)@ == tick_transition(
                old(self)@,
                match message {
                    Some(m) => Some(m@),
                    None => None,
                },
            ),
            app_wf(final(self)@),
    {
        if !self.deployment_active {
            return;
        }
        match message {
            None => {},
            Some(DeploymentMessage::Progress { step, status }) => {
                self.state = AppState::Deploy {
                    progress: DeployProgress {
                        current_step: step,
                        total_steps: TOTAL_DEPLOY_STEPS,
                        status,
                    },
                };
            },
            Some(DeploymentMessage::Complete { server_info }) => {
                self.state = AppState::Complete { server_info };
                self.deployment_active = false;
            },
            Some(DeploymentMessage::Error { message }) => {
                self.state = AppState::Error { message };
                self.deployment_active = false;
            },
        }
    }
}

// ---------------------------------------------------------------------------
// Laws of the state machine
// ---------------------------------------------------------------------------

/// One text-editing key event.
pub enum EditEvent {
    CharInput(char),
    Backspace,
}

/// The effect of one editing event on the displayed state.
pub open spec fn apply_edit(s: StateModel, e: EditEvent) -> StateModel {
    match e {
        EditEvent::CharInput(c) => char_transition(s, c),
        EditEvent::Backspace => backspace_transition(s),
    }
}

/// The effect of a sequence of editing events, applied in order.
pub open spec fn apply_edits(s: StateModel, evs: Seq<EditEvent>) -> StateModel
    decreases evs.len(),
{
    if evs.len() == 0 {
        s
    } else {
        apply_edits(apply_edit(s, evs[0]), evs.skip(1))
    }
}

proof fn lemma_edit_preserves_wf(s: StateModel, e: EditEvent)
    requires
        state_wf(s),
    ensures
        state_wf(apply_edit(s, e)),
{
}

/// After any sequence of character and backspace events, every cursor is
/// still within `[0, buffer length]` and every selection index within the
/// catalog.
pub proof fn lemma_cursor_stays_in_bounds(s: StateModel, evs: Seq<EditEvent>)
    requires
        state_wf(s),
    ensures
        state_wf(apply_edits(s, evs)),
    decreases evs.len(),
{
    if evs.len() > 0 {
        lemma_edit_preserves_wf(s, evs[0]);
        lemma_cursor_stays_in_bounds(apply_edit(s, evs[0]), evs.skip(1));
    }
}

/// Confirming a credential or join-key step whose buffer is empty changes
/// nothing and launches nothing.
pub proof fn lemma_empty_confirm_is_noop(a: AppModel)
    requires
        match a.state {
            StateModel::Auth { token, .. } => token.len() == 0,
            StateModel::TailscaleAuth { auth_key, .. } => auth_key.len() == 0,
            _ => false,
        },
    ensures
        enter_transition(a).0 == a,
        enter_transition(a).1 is None,
{
}

// ---------------------------------------------------------------------------
// Folding an emission trace into the wizard
// ---------------------------------------------------------------------------

/// The state after folding each message of a trace in, in order.
pub open spec fn apply_messages(a: AppModel, msgs: Seq<MessageModel>) -> AppModel
    decreases msgs.len(),
{
    if msgs.len() == 0 {
        a
    } else {
        apply_messages(tick_transition(a, Some(msgs[0])), msgs.skip(1))
    }
}

proof fn lemma_apply_messages_concat(a: AppModel, s1: Seq<MessageModel>, s2: Seq<MessageModel>)
    ensures
        apply_messages(a, s1 + s2) == apply_messages(apply_messages(a, s1), s2),
    decreases s1.len(),
{
    if s1.len() == 0 {
        assert(s1 + s2 =~= s2);
        assert(apply_messages(a, s1) == a);
    } else {
        assert((s1 + s2)[0] == s1[0]);
        assert((s1 + s2).skip(1) =~= s1.skip(1) + s2);
        lemma_apply_messages_concat(tick_transition(a, Some(s1[0])), s1.skip(1), s2);
    }
}

proof fn lemma_apply_one(a: AppModel, m: MessageModel)
    ensures
        apply_messages(a, seq![m]) == tick_transition(a, Some(m)),
{
    let s1 = seq![m];
    assert(s1[0] == m);
    assert(s1.skip(1) =~= Seq::<MessageModel>::empty());
    let c = tick_transition(a, Some(m));
    assert(apply_messages(c, s1.skip(1)) == c);
    assert(apply_messages(a, s1) == apply_messages(tick_transition(a, Some(s1[0])), s1.skip(1)));
}

proof fn lemma_progress_prefix(a: AppModel, msgs: Seq<MessageModel>, n: int)
    requires
        a.deployment_active,
        0 <= n <= msgs.len(),
        forall|i: int| 0 <= i < n ==> (#[trigger] msgs[i]) is Progress,
    ensures
        apply_messages(a, msgs.take(n)).deployment_active,
        apply_messages(a, msgs.take(n)).should_quit == a.should_quit,
        apply_messages(a, msgs.take(n)).api_token == a.api_token,
        apply_messages(a, msgs.take(n)).tailscale_auth_key == a.tailscale_auth_key,
        apply_messages(a, msgs.take(n)).selected_region == a.selected_region,
        n == 0 ==> apply_messages(a, msgs.take(n)) == a,
        n > 0 ==> apply_messages(a, msgs.take(n)).state == (StateModel::Deploy {
            progress: DeployProgressModel {
                current_step: crate::progress::step_of(msgs[n - 1]),
                total_steps: TOTAL_DEPLOY_STEPS as nat,
                status: crate::progress::status_of(msgs[n - 1]),
            },
        }),
    decreases n,
{
    if n == 0 {
        assert(msgs.take(0) =~= Seq::<MessageModel>::empty());
    } else {
        lemma_progress_prefix(a, msgs, n - 1);
        assert(msgs.take(n) =~= msgs.take(n - 1) + seq![msgs[n - 1]]);
        lemma_apply_messages_concat(a, msgs.take(n - 1), seq![msgs[n - 1]]);
        let b = apply_messages(a, msgs.take(n - 1));
        let m = msgs[n - 1];
        lemma_apply_one(b, m);
    }
}

/// Folding a well-formed emission trace that ends in completion into the
/// wizard: every message before the terminal one shows as a deployment
/// step whose reported steps never decrease, the final state is Complete
/// with the delivered record, the channel is torn down, and no further
/// message changes anything.
pub proof fn lemma_observed_progress(
    a: AppModel,
    msgs: Seq<MessageModel>,
    server: ServerInfoModel,
)
    requires
        a.deployment_active,
        trace_wf(msgs),
        msgs.len() > 0,
        msgs.last() == (MessageModel::Complete { server_info: server }),
    ensures
        apply_messages(a, msgs).state == (StateModel::Complete { server_info: server }),
        !apply_messages(a, msgs).deployment_active,
        forall|i: int|
            0 <= i < msgs.len() - 1 ==> apply_messages(a, msgs.take(i + 1)).state
                == (StateModel::Deploy {
                progress: DeployProgressModel {
                    current_step: crate::progress::step_of(#[trigger] msgs[i]),
                    total_steps: TOTAL_DEPLOY_STEPS as nat,
                    status: crate::progress::status_of(msgs[i]),
                },
            }),
        forall|i: int, j: int|
            0 <= i <= j < msgs.len() - 1 ==> crate::progress::step_of(#[trigger] msgs[i])
                <= crate::progress::step_of(#[trigger] msgs[j]),
        forall|m: MessageModel|
            tick_transition(apply_messages(a, msgs), Some(m)) == apply_messages(a, msgs),
{
    let len = msgs.len() as int;
    lemma_progress_prefix(a, msgs, len - 1);
    let b = apply_messages(a, msgs.take(len - 1));
    assert(msgs.take(len) =~= msgs.take(len - 1) + seq![msgs[len - 1]]);
    assert(msgs.take(len) =~= msgs);
    lemma_apply_messages_concat(a, msgs.take(len - 1), seq![msgs[len - 1]]);
    lemma_apply_one(b, msgs[len - 1]);
    assert forall|i: int|
        0 <= i < msgs.len() - 1 implies apply_messages(a, msgs.take(i + 1)).state
        == (StateModel::Deploy {
        progress: DeployProgressModel {
            current_step: crate::progress::step_of(#[trigger] msgs[i]),
            total_steps: TOTAL_DEPLOY_STEPS as nat,
            status: crate::progress::status_of(msgs[i]),
        },
    }) by {
        lemma_progress_prefix(a, msgs, i + 1);
    }
}

} // verus!
