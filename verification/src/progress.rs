//! Progress reporting from the deployment pipeline to the interactive
//! loop: the message type, the displayed progress record, the completed
//! server record, and the ordered single-producer single-consumer queue
//! that carries the messages.

use vstd::prelude::*;
use std::collections::VecDeque;

verus! {

/// The fixed number of pipeline steps reported to the operator.
pub const TOTAL_DEPLOY_STEPS: usize = 6;

/// The essentials of a successfully deployed server as shown to the
/// operator: name, public address and the fixed monthly cost estimate.
pub struct ServerInfo {
    pub name: String,
    pub ip: String,
    pub cost: String,
}

/// Mathematical view of a `ServerInfo`.
#[verifier::ext_equal]
pub struct ServerInfoModel {
    pub name: Seq<char>,
    pub ip: Seq<char>,
    pub cost: Seq<char>,
}

impl View for ServerInfo {
    type V = ServerInfoModel;

    open spec fn view(&self) -> ServerInfoModel {
        ServerInfoModel { name: self.name@, ip: self.ip@, cost: self.cost@ }
    }
}

impl ServerInfo {
    /// Copies a server record.
    pub fn duplicate(&self) -> (r: ServerInfo)
        ensures
            r@ == self@,
    {
        ServerInfo { name: self.name.clone(), ip: self.ip.clone(), cost: self.cost.clone() }
    }
}

/// The progress shown while a deployment runs: which step of the fixed
/// scale is active and a human-readable status line.
pub struct DeployProgress {
    pub current_step: usize,
    pub total_steps: usize,
    pub status: String,
}

/// Mathematical view of a `DeployProgress`.
#[verifier::ext_equal]
pub struct DeployProgressModel {
    pub current_step: nat,
    pub total_steps: nat,
    pub status: Seq<char>,
}

impl View for DeployProgress {
    type V = DeployProgressModel;

    open spec fn view(&self) -> DeployProgressModel {
        DeployProgressModel {
            current_step: self.current_step as nat,
            total_steps: self.total_steps as nat,
            status: self.status@,
        }
    }
}

/// One event on the progress channel.  Progress events may come any number
/// of times; Complete and Error are terminal — exactly one of them ends
/// each deployment attempt and nothing follows it.
pub enum DeploymentMessage {
    Progress { step: usize, status: String },
    Complete { server_info: ServerInfo },
    Error { message: String },
}

/// Mathematical view of a `DeploymentMessage`.
#[verifier::ext_equal]
pub enum MessageModel {
    Progress { step: nat, status: Seq<char> },
    Complete { server_info: ServerInfoModel },
    Error { message: Seq<char> },
}

impl View for DeploymentMessage {
    type V = MessageModel;

    open spec fn view(&self) -> MessageModel {
        match self {
            DeploymentMessage::Progress { step, status } => MessageModel::Progress {
                step: *step as nat,
                status: status@,
            },
            DeploymentMessage::Complete { server_info } => MessageModel::Complete {
                server_info: server_info@,
            },
            DeploymentMessage::Error { message } => MessageModel::Error { message: message@ },
        }
    }
}

impl DeploymentMessage {
    /// Copies a message.
    pub fn duplicate(&self) -> (r: DeploymentMessage)
        ensures
            r@ == self@,
    {
        match self {
            DeploymentMessage::Progress { step, status } => DeploymentMessage::Progress {
                step: *step,
                status: status.clone(),
            },
            DeploymentMessage::Complete { server_info } => DeploymentMessage::Complete {
                server_info: server_info.duplicate(),
            },
            DeploymentMessage::Error { message } => DeploymentMessage::Error {
                message: message.clone(),
            },
        }
    }
}

/// The views of a message sequence, in order.
pub open spec fn msg_views(v: Seq<DeploymentMessage>) -> Seq<MessageModel> {
    v.map_values(|m: DeploymentMessage| m@)
}

/// `msg_views` distributes over concatenation.
pub proof fn lemma_msg_views_concat(a: Seq<DeploymentMessage>, b: Seq<DeploymentMessage>)
    ensures
        msg_views(a + b) == msg_views(a) + msg_views(b),
{
    assert(msg_views(a + b) =~= msg_views(a) + msg_views(b));
}

/// Whether a message is terminal: it ends the deployment attempt.
pub open spec fn is_terminal(m: MessageModel) -> bool {
    m is Complete || m is Error
}

/// The step a progress message reports; zero for a terminal message.
pub open spec fn step_of(m: MessageModel) -> nat {
    match m {
        MessageModel::Progress { step, .. } => step,
        _ => 0,
    }
}

/// The status line a progress message carries; empty for a terminal one.
pub open spec fn status_of(m: MessageModel) -> Seq<char> {
    match m {
        MessageModel::Progress { status, .. } => status,
        _ => Seq::empty(),
    }
}

/// A well-formed emission trace: every message before the last is a
/// non-terminal progress report, and progress steps never decrease.
pub open spec fn trace_wf(msgs: Seq<MessageModel>) -> bool {
    &&& forall|i: int| 0 <= i < msgs.len() - 1 ==> (#[trigger] msgs[i]) is Progress
    &&& forall|i: int, j: int|
        0 <= i <= j < msgs.len() && (#[trigger] msgs[i]) is Progress && (#[trigger] msgs[j]) is Progress
            ==> step_of(msgs[i]) <= step_of(msgs[j])
}

// ---------------------------------------------------------------------------
// The progress channel
// ---------------------------------------------------------------------------

/// An unbounded, ordered, single-producer single-consumer queue of
/// deployment messages.  Sending never blocks; receiving is non-blocking
/// and an empty queue is a normal no-op.  Messages come out in emission
/// order, with no drops and no reordering.
pub struct ProgressChannel {
    queue: VecDeque<DeploymentMessage>,
    closed: bool,
}

impl ProgressChannel {
    /// The messages currently queued, oldest first.
    pub closed spec fn pending(&self) -> Seq<MessageModel> {
        self.queue@.map_values(|m: DeploymentMessage| m@)
    }

    /// Whether the producer has closed the channel after its terminal
    /// message.
    pub closed spec fn is_closed(&self) -> bool {
        self.closed
    }

    /// A new, open, empty channel.
    pub fn new() -> (c: ProgressChannel)
        ensures
            c.pending() == Seq::<MessageModel>::empty(),
            !c.is_closed(),
    {
        let c = ProgressChannel { queue: VecDeque::new(), closed: false };
        proof {
            assert(c.pending() =~= Seq::<MessageModel>::empty());
        }
        c
    }

    /// Appends a message; the producer never blocks and never loses one.
    pub fn send(&mut self, message: DeploymentMessage)
        requires
            !old(self).is_closed(),
        ensures
            final(self).pending() == old(self).pending().push(message@),
            !final(self).is_closed(),
    {
        let ghost target = self.pending().push(message@);
        self.queue.push_back(message);
        proof {
            assert(final(self).pending() =~= target);
        }
    }

    /// Removes and returns the oldest message, if any; an empty queue is a
    /// normal no-op, not an error.
    pub fn try_recv(&mut self) -> (r: Option<DeploymentMessage>)
        ensures
            final(self).is_closed() == old(self).is_closed(),
            match r {
                Some(m) => {
                    &&& old(self).pending().len() > 0
                    &&& m@ == old(self).pending()[0]
                    &&& final(self).pending() == old(self).pending().skip(1)
                },
                None => {
                    &&& old(self).pending().len() == 0
                    &&& final(self).pending() == old(self).pending()
                },
            },
    {
        let ghost before = self.pending();
        let r = self.queue.pop_front();
        proof {
            match r {
                Some(_) => {
                    assert(final(self).pending() =~= before.skip(1));
                },
                None => {
                    assert(final(self).pending() =~= before);
                },
            }
        }
        r
    }

    /// Marks the channel closed: the producer sends nothing further after
    /// its terminal message.
    pub fn close(&mut self)
        ensures
            final(self).pending() == old(self).pending(),
            final(self).is_closed(),
    {
        self.closed = true;
    }
}

} // verus!
