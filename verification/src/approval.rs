//! The approval coordinator: the meeting point of tool calls that wait for a
//! human verdict and of the operators who give it.
//!
//! A request is stored under a fresh identifier and announced to every
//! subscriber. A decision, a timeout or the loss of the waiter takes the
//! request out again. The coordinator keeps, as ghost state, the sequence of
//! events it has handed to the broadcaster, so that its contracts can say
//! what subscribers are shown and in which order.

use vstd::prelude::*;
use std::collections::HashMap;
use tokio::sync::broadcast;
use tokio::sync::oneshot;
use crate::ident::{format_uuid, hyphenated, random_id};

verus! {

/// The sending half of a broadcast channel of `tokio`.
#[verifier::external_type_specification]
#[verifier::external_body]
#[verifier::reject_recursive_types(T)]
pub struct ExBroadcastSender<T>(broadcast::Sender<T>);

/// The receiving half of a broadcast channel of `tokio`.
#[verifier::external_type_specification]
#[verifier::external_body]
#[verifier::reject_recursive_types(T)]
pub struct ExBroadcastReceiver<T>(broadcast::Receiver<T>);

/// The sending half of a one-shot channel of `tokio`.
#[verifier::external_type_specification]
#[verifier::external_body]
#[verifier::reject_recursive_types(T)]
pub struct ExOneshotSender<T>(oneshot::Sender<T>);

/// The receiving half of a one-shot channel of `tokio`.
#[verifier::external_type_specification]
#[verifier::external_body]
#[verifier::reject_recursive_types(T)]
pub struct ExOneshotReceiver<T>(oneshot::Receiver<T>);

/// The error with which a one-shot receiver of `tokio` resolves when its
/// sender went away. No signature here names it; it is the output of the
/// receiver's `Future` impl, which Verus reads with the receiver and does not
/// take while this type is undeclared.
#[verifier::external_type_specification]
#[verifier::external_body]
pub struct ExRecvError(oneshot::error::RecvError);

/// Event sent to front ends when the status of an approval changes.
#[derive(Debug, Clone)]
pub enum ApprovalEvent {
    /// A command is awaiting approval.
    CommandRequested { approval_id: String, command: String },
    /// A command was approved.
    CommandApproved { approval_id: String },
    /// A command was rejected.
    CommandRejected { approval_id: String },
}

/// What an [`ApprovalEvent`] holds, as plain text.
pub ghost enum ApprovalEventView {
    CommandRequested { approval_id: Seq<char>, command: Seq<char> },
    CommandApproved { approval_id: Seq<char> },
    CommandRejected { approval_id: Seq<char> },
}

impl View for ApprovalEvent {
    type V = ApprovalEventView;

    open spec fn view(&self) -> ApprovalEventView {
        match self {
            ApprovalEvent::CommandRequested { approval_id, command } => {
                ApprovalEventView::CommandRequested { approval_id: approval_id@, command: command@ }
            },
            ApprovalEvent::CommandApproved { approval_id } => {
                ApprovalEventView::CommandApproved { approval_id: approval_id@ }
            },
            ApprovalEvent::CommandRejected { approval_id } => {
                ApprovalEventView::CommandRejected { approval_id: approval_id@ }
            },
        }
    }
}

/// An event as the coordinator records it: by identifier, not by its text.
pub ghost enum Published {
    Requested { id: u128, command: Seq<char> },
    Approved { id: u128 },
    Rejected { id: u128 },
}

impl Published {
    /// The event as subscribers receive it, the identifier written out.
    pub open spec fn wire(self) -> ApprovalEventView {
        match self {
            Published::Requested { id, command } => ApprovalEventView::CommandRequested {
                approval_id: hyphenated(id),
                command,
            },
            Published::Approved { id } => ApprovalEventView::CommandApproved {
                approval_id: hyphenated(id),
            },
            Published::Rejected { id } => ApprovalEventView::CommandRejected {
                approval_id: hyphenated(id),
            },
        }
    }

    /// Whether the event announces the request `id`.
    pub open spec fn announces(self, id: u128) -> bool {
        self matches Published::Requested { id: i, .. } && i == id
    }

    /// Whether the event closes the request `id`, either way.
    pub open spec fn settles(self, id: u128) -> bool {
        ||| self == Published::Approved { id }
        ||| self == Published::Rejected { id }
    }

    /// The terminal event for a verdict.
    pub open spec fn verdict(id: u128, approved: bool) -> Published {
        if approved {
            Published::Approved { id }
        } else {
            Published::Rejected { id }
        }
    }
}

/// The coordinator as contracts see it.
pub ghost struct ChannelModel {
    /// The command of every request that awaits its verdict.
    pub pending: Map<u128, Seq<char>>,
    /// Every event handed to the broadcaster so far, oldest first.
    pub sent: Seq<Published>,
}

impl ChannelModel {
    /// No request, no event.
    pub open spec fn init() -> ChannelModel {
        ChannelModel { pending: Map::empty(), sent: Seq::empty() }
    }

    /// A request is stored under `id` and announced.
    pub open spec fn request(self, id: u128, command: Seq<char>) -> ChannelModel {
        ChannelModel {
            pending: self.pending.insert(id, command),
            sent: self.sent.push(Published::Requested { id, command }),
        }
    }

    /// A verdict arrives for `id`. It counts only while the request is
    /// pending; then the request leaves and the verdict is announced.
    pub open spec fn decide(self, id: u128, approved: bool) -> ChannelModel {
        if self.pending.contains_key(id) {
            ChannelModel {
                pending: self.pending.remove(id),
                sent: self.sent.push(Published::verdict(id, approved)),
            }
        } else {
            self
        }
    }

    /// The waiter of `id` gave up after its time ran out: a request that is
    /// still pending leaves and is announced as rejected.
    pub open spec fn time_out(self, id: u128) -> ChannelModel {
        self.decide(id, false)
    }

    /// The waiter of `id` lost its channel: the request leaves silently.
    pub open spec fn abandon(self, id: u128) -> ChannelModel {
        ChannelModel { pending: self.pending.remove(id), sent: self.sent }
    }
}

/// Errors that can end the wait for an approval.
#[derive(Debug, Clone, Copy, PartialEq, Eq, Structural)]
pub enum ApprovalError {
    /// The approval request timed out.
    Timeout,
    /// The approval channel was closed unexpectedly.
    ChannelClosed,
}

impl ApprovalError {
    /// The text shown for the error.
    pub open spec fn spec_message(self) -> Seq<char> {
        match self {
            ApprovalError::Timeout => "Approval request timed out"@,
            ApprovalError::ChannelClosed => "Approval channel closed unexpectedly"@,
        }
    }

    /// The text shown for the error.
    pub fn message(&self) -> (text: String)
        ensures
            text@ == self.spec_message(),
    {
        match self {
            ApprovalError::Timeout => String::from_str("Approval request timed out"),
            ApprovalError::ChannelClosed => String::from_str(
                "Approval channel closed unexpectedly",
            ),
        }
    }
}

/// How the wait for a verdict ended.
#[derive(Debug, Clone, Copy, PartialEq, Eq, Structural)]
pub enum Waited {
    /// The operator decided in time.
    Verdict(bool),
    /// The sending half went away without a verdict.
    Closed,
    /// The time allowed ran out first.
    TimedOut,
}

/// A request that awaits its verdict.
struct PendingApproval {
    response_tx: oneshot::Sender<bool>,
    command: String,
}

/// A verdict as it was handed to a waiter.
pub ghost struct Handed {
    /// The request the verdict is for.
    pub id: u128,
    /// The sending half it was handed to.
    pub waiter: oneshot::Sender<bool>,
    /// The verdict.
    pub approved: bool,
}

/// Channel for managing the approval of commands.
///
/// Tool calls store a request with [`ApprovalChannel::request_approval`] and
/// wait on the receiver they get; front ends follow the events of
/// [`ApprovalChannel::subscribe`] and answer with
/// [`ApprovalChannel::submit_decision`].
pub struct ApprovalChannel {
    /// Pending approvals awaiting the operator's answer.
    pending: HashMap<u128, PendingApproval>,
    /// Broadcast channel for approval events to all connected front ends.
    event_tx: broadcast::Sender<ApprovalEvent>,
    /// The events handed to `event_tx` so far.
    sent: Ghost<Seq<Published>>,
    /// The verdicts handed to waiters so far.
    handed: Ghost<Seq<Handed>>,
}

/// Number of events the broadcaster keeps for subscribers that fall behind.
pub const EVENT_BUFFER: usize = 64;

/// What `tokio::sync::broadcast::Sender::subscribe` makes: `receiver` is a
/// receiver of the channel on which `sender` sends.
pub uninterp spec fn listens_on(
    receiver: broadcast::Receiver<ApprovalEvent>,
    sender: broadcast::Sender<ApprovalEvent>,
) -> bool;

/// What `tokio::sync::oneshot::channel` makes: `receiver` is the receiving
/// half of the one-shot channel of which `sender` is the sending half.
pub uninterp spec fn resolves(sender: oneshot::Sender<bool>, receiver: oneshot::Receiver<bool>)
    -> bool;

/// Opens a broadcast channel with `tokio::sync::broadcast::channel` and keeps
/// its sending half. That function panics on a capacity of zero or above
/// `usize::MAX / 2`, which the precondition excludes.
#[verifier::external_body]
fn open_event_channel(capacity: usize) -> (sender: broadcast::Sender<ApprovalEvent>)
    requires
        0 < capacity <= usize::MAX / 2,
{
    broadcast::channel(capacity).0
}

/// Hands an event to `tokio::sync::broadcast::Sender::send`. Whether anybody
/// receives it depends on who is subscribed, so the outcome is dropped.
#[verifier::external_body]
fn broadcast_event(sender: &broadcast::Sender<ApprovalEvent>, event: ApprovalEvent) {
    let _ = sender.send(event);
}

/// A new receiver from `tokio::sync::broadcast::Sender::subscribe`: it is a
/// receiver of the channel of `sender`, which is all that is claimed of it.
/// That function panics only on a channel that already has `usize::MAX / 4`
/// receivers, more than fit into memory.
#[verifier::external_body]
fn subscribe_events(sender: &broadcast::Sender<ApprovalEvent>) -> (receiver:
    broadcast::Receiver<ApprovalEvent>)
    ensures
        listens_on(receiver, *sender),
{
    sender.subscribe()
}

/// A one-shot channel for a verdict, from `tokio::sync::oneshot::channel`:
/// its two ends belong together, which is all that is claimed of them.
#[verifier::external_body]
fn verdict_channel() -> (ends: (oneshot::Sender<bool>, oneshot::Receiver<bool>))
    ensures
        resolves(ends.0, ends.1),
{
    oneshot::channel()
}

/// Sends a verdict with `tokio::sync::oneshot::Sender::send` and tells whether
/// it was accepted, which it is not once the receiver is gone.
#[verifier::external_body]
fn send_verdict(sender: oneshot::Sender<bool>, approved: bool) -> (accepted: bool) {
    sender.send(approved).is_ok()
}

impl View for ApprovalChannel {
    type V = ChannelModel;

    closed spec fn view(&self) -> ChannelModel {
        ChannelModel {
            pending: Map::new(
                |id: u128| self.pending@.contains_key(id),
                |id: u128| self.pending@[id].command@,
            ),
            sent: self.sent@,
        }
    }
}

impl ApprovalChannel {
    /// The sender on which the events of this coordinator are broadcast.
    pub closed spec fn broadcaster(&self) -> broadcast::Sender<ApprovalEvent> {
        self.event_tx
    }

    /// The sending half kept for each pending request; the waiter holds the
    /// receiving half.
    pub closed spec fn waiters(&self) -> Map<u128, oneshot::Sender<bool>> {
        Map::new(
            |id: u128| self.pending@.contains_key(id),
            |id: u128| self.pending@[id].response_tx,
        )
    }

    /// The verdicts handed to waiters so far, oldest first.
    pub closed spec fn handed(&self) -> Seq<Handed> {
        self.handed@
    }

    /// Create a new approval channel.
    pub fn new() -> (channel: Self)
        ensures
            channel@ == ChannelModel::init(),
            channel.waiters() == Map::<u128, oneshot::Sender<bool>>::empty(),
            channel.handed() == Seq::<Handed>::empty(),
    {
        let channel = ApprovalChannel {
            pending: HashMap::new(),
            event_tx: open_event_channel(EVENT_BUFFER),
            sent: Ghost(Seq::empty()),
            handed: Ghost(Seq::empty()),
        };
        assert(channel@.pending =~= Map::empty());
        assert(channel.waiters() =~= Map::empty());
        channel
    }

    /// Subscribe to approval events: the receiver listens on the broadcaster
    /// of this coordinator, and so gets what is published from now on.
    pub fn subscribe(&self) -> (receiver: broadcast::Receiver<ApprovalEvent>)
        ensures
            listens_on(receiver, self.broadcaster()),
    {
        subscribe_events(&self.event_tx)
    }

    /// Hands `event` to the broadcaster and records it.
    fn publish(&mut self, event: ApprovalEvent, Ghost(record): Ghost<Published>)
        requires
            event@ == record.wire(),
        ensures
            final(self)@.pending == old(self)@.pending,
            final(self)@.sent == old(self)@.sent.push(record),
            final(self).broadcaster() == old(self).broadcaster(),
            final(self).waiters() == old(self).waiters(),
            final(self).handed() == old(self).handed(),
    {
        broadcast_event(&self.event_tx, event);
        proof {
            self.sent@ = self.sent@.push(record);
        }
    }

    /// Hands the verdict for the request `id` to its waiter and records it;
    /// tells whether the waiter took it.
    fn hand_over(&mut self, waiter: oneshot::Sender<bool>, id: u128, approved: bool) -> (accepted:
        bool)
        ensures
            final(self)@ == old(self)@,
            final(self).broadcaster() == old(self).broadcaster(),
            final(self).waiters() == old(self).waiters(),
            final(self).handed() == old(self).handed().push(Handed { id, waiter, approved }),
    {
        let accepted = send_verdict(waiter, approved);
        proof {
            self.handed@ = self.handed@.push(Handed { id, waiter, approved });
        }
        accepted
    }

    /// Stores a request for `command` under the identifier `id` and announces
    /// it. The sending half of a new one-shot channel is kept for the
    /// request, in place of any kept under `id` before; the receiving half is
    /// returned and resolves with the verdict once one is handed over.
    pub fn request_approval_as(&mut self, id: u128, command: String) -> (receiver:
        oneshot::Receiver<bool>)
        ensures
            final(self)@ == old(self)@.request(id, command@),
            final(self).waiters().contains_key(id),
            resolves(final(self).waiters()[id], receiver),
            final(self).waiters() == old(self).waiters().insert(id, final(self).waiters()[id]),
            final(self).handed() == old(self).handed(),
            final(self).broadcaster() == old(self).broadcaster(),
    {
        let (tx, rx) = verdict_channel();
        self.pending.insert(id, PendingApproval { response_tx: tx, command: command.clone() });
        assert(self@.pending =~= old(self)@.pending.insert(id, command@));
        assert(self.waiters() =~= old(self).waiters().insert(id, tx));
        let event = ApprovalEvent::CommandRequested { approval_id: format_uuid(id), command };
        self.publish(event, Ghost(Published::Requested { id, command: command@ }));
        rx
    }

    /// Request approval for a command.
    ///
    /// Mints an identifier, stores the request under it and announces it to
    /// all connected front ends. Returns the identifier and the receiver of
    /// the verdict, whose sending half is kept for the request.
    pub fn request_approval(&mut self, command: String) -> (ticket: (
        u128,
        oneshot::Receiver<bool>,
    ))
        ensures
            final(self)@ == old(self)@.request(ticket.0, command@),
            final(self).waiters().contains_key(ticket.0),
            resolves(final(self).waiters()[ticket.0], ticket.1),
            final(self).waiters() == old(self).waiters().insert(
                ticket.0,
                final(self).waiters()[ticket.0],
            ),
            final(self).handed() == old(self).handed(),
            final(self).broadcaster() == old(self).broadcaster(),
    {
        let id = random_id();
        let rx = self.request_approval_as(id, command);
        (id, rx)
    }

    /// Submit an approval decision.
    ///
    /// A decision for an identifier that is not pending changes nothing,
    /// publishes nothing, hands nothing over and returns false. Otherwise the
    /// request leaves, the verdict is announced and then handed, as given, to
    /// the sending half kept for the request; the result tells whether the
    /// waiter was still there to take it.
    pub fn submit_decision(&mut self, approval_id: u128, approved: bool) -> (delivered: bool)
        ensures
            final(self)@ == old(self)@.decide(approval_id, approved),
            final(self).broadcaster() == old(self).broadcaster(),
            final(self).waiters() == old(self).waiters().remove(approval_id),
            final(self).handed() == Self::spec_handed_after(
                old(self).handed(),
                old(self).waiters(),
                approval_id,
                approved,
            ),
            !old(self)@.pending.contains_key(approval_id) ==> !delivered && final(self)@ == old(
                self,
            )@,
    {
        match self.pending.remove(&approval_id) {
            Some(approval) => {
                assert(self@.pending =~= old(self)@.pending.remove(approval_id));
                assert(self.waiters() =~= old(self).waiters().remove(approval_id));
                let text = format_uuid(approval_id);
                let event = if approved {
                    ApprovalEvent::CommandApproved { approval_id: text }
                } else {
                    ApprovalEvent::CommandRejected { approval_id: text }
                };
                self.publish(event, Ghost(Published::verdict(approval_id, approved)));
                self.hand_over(approval.response_tx, approval_id, approved)
            },
            None => {
                assert(self@.pending =~= old(self)@.pending);
                assert(self.waiters() =~= old(self).waiters().remove(approval_id));
                false
            },
        }
    }

    /// The record of handed verdicts after a decision: the verdict as given,
    /// handed to the sending half kept for the request, where the request
    /// was pending; nothing new otherwise.
    pub open spec fn spec_handed_after(
        before: Seq<Handed>,
        waiters: Map<u128, oneshot::Sender<bool>>,
        id: u128,
        approved: bool,
    ) -> Seq<Handed> {
        if waiters.contains_key(id) {
            before.push(Handed { id, waiter: waiters[id], approved })
        } else {
            before
        }
    }

    /// Concludes the wait for the request `id`, given how the wait ended.
    ///
    /// A verdict is passed on. When the time ran out, the request is taken
    /// out and, if it was still pending, announced as rejected, so that
    /// subscribers see it closed. When the channel was lost, the request is
    /// taken out silently. No verdict is handed over here.
    pub fn wait_for_approval(&mut self, id: u128, waited: Waited) -> (outcome: Result<
        bool,
        ApprovalError,
    >)
        ensures
            outcome == Self::spec_outcome(waited),
            final(self)@ == Self::spec_after_wait(old(self)@, id, waited),
            final(self).broadcaster() == old(self).broadcaster(),
            final(self).handed() == old(self).handed(),
            final(self).waiters() == (if waited is Verdict {
                old(self).waiters()
            } else {
                old(self).waiters().remove(id)
            }),
    {
        match waited {
            Waited::Verdict(approved) => Ok(approved),
            Waited::Closed => {
                self.cleanup_pending(id);
                Err(ApprovalError::ChannelClosed)
            },
            Waited::TimedOut => {
                let was_pending = self.cleanup_pending(id);
                if was_pending {
                    let event = ApprovalEvent::CommandRejected { approval_id: format_uuid(id) };
                    self.publish(event, Ghost(Published::Rejected { id }));
                } else {
                    assert(old(self)@.pending.remove(id) =~= old(self)@.pending);
                }
                Err(ApprovalError::Timeout)
            },
        }
    }

    /// What the waiter is told for each way the wait can end.
    pub open spec fn spec_outcome(waited: Waited) -> Result<bool, ApprovalError> {
        match waited {
            Waited::Verdict(approved) => Ok(approved),
            Waited::Closed => Err(ApprovalError::ChannelClosed),
            Waited::TimedOut => Err(ApprovalError::Timeout),
        }
    }

    /// What the end of a wait does to the coordinator.
    pub open spec fn spec_after_wait(before: ChannelModel, id: u128, waited: Waited)
        -> ChannelModel {
        match waited {
            Waited::Verdict(_) => before,
            Waited::Closed => before.abandon(id),
            Waited::TimedOut => before.time_out(id),
        }
    }

    /// Clean up a pending approval; tells whether there was one.
    fn cleanup_pending(&mut self, id: u128) -> (was_pending: bool)
        ensures
            was_pending == old(self)@.pending.contains_key(id),
            final(self)@ == old(self)@.abandon(id),
            final(self).broadcaster() == old(self).broadcaster(),
            final(self).handed() == old(self).handed(),
            final(self).waiters() == old(self).waiters().remove(id),
    {
        let removed = self.pending.remove(&id);
        assert(self@.pending =~= old(self)@.pending.remove(id));
        assert(self.waiters() =~= old(self).waiters().remove(id));
        removed.is_some()
    }

    /// Get the number of pending approvals.
    pub fn pending_count(&self) -> (count: usize)
        ensures
            count == self@.pending.len(),
            self@.pending.dom().finite(),
    {
        assert(self@.pending.dom() =~= self.pending@.dom());
        self.pending.len()
    }

    /// Whether the request `id` awaits its verdict.
    pub fn is_pending(&self, id: u128) -> (pending: bool)
        ensures
            pending == self@.pending.contains_key(id),
    {
        self.pending.contains_key(&id)
    }
}

impl Default for ApprovalChannel {
    fn default() -> (channel: Self)
        ensures
            channel@ == ChannelModel::init(),
            channel.waiters() == Map::<u128, oneshot::Sender<bool>>::empty(),
            channel.handed() == Seq::<Handed>::empty(),
    {
        Self::new()
    }
}

} // verus!
