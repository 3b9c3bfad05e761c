//! Sessions and their registry.
//!
//! A session owns its tool server, which in turn holds the SSH slot, the
//! output buffer and the approval coordinator. The registry maps session
//! identifiers to sessions; a session is taken out of it to be worked on and
//! put back afterwards.

use vstd::prelude::*;
use std::collections::HashMap;
use tokio::sync::mpsc;
use crate::approval::{ApprovalChannel, ChannelModel, Handed};
use crate::ident::random_id;
use crate::server::{keep_recent, McpSshService, OUTPUT_LIMIT};
use crate::text::texts;

verus! {

/// The sending half of an unbounded channel of `tokio`.
#[verifier::external_type_specification]
#[verifier::external_body]
#[verifier::reject_recursive_types(T)]
pub struct ExUnboundedSender<T>(mpsc::UnboundedSender<T>);

/// Hands a fragment to `tokio::sync::mpsc::UnboundedSender::send`. Whether it
/// arrives depends on the receiver, so the outcome is dropped.
#[verifier::external_body]
fn forward_fragment(sender: &mpsc::UnboundedSender<String>, fragment: String) {
    let _ = sender.send(fragment);
}

/// A fragment as it was handed to a fan-out sender.
pub ghost struct Forwarded {
    /// The sender it was handed to.
    pub sender: mpsc::UnboundedSender<String>,
    /// The fragment.
    pub fragment: Seq<char>,
}

/// A user session: the assistant's terminal on one side, the SSH shell on
/// the other. `C` is the handle through which the caller reaches the SSH
/// channel.
pub struct Session<C> {
    pub id: u128,
    /// Tool server of this session, with the SSH slot, the output buffer and
    /// the approval coordinator.
    pub mcp_service: McpSshService<C>,
    /// Where SSH output is copied to for the assistant's terminal.
    pub ssh_to_gemini_tx: Option<mpsc::UnboundedSender<String>>,
    /// Credential of this session for the assistant, if any.
    pub gemini_api_key: Option<String>,
    /// The fragments handed to a fan-out sender so far, oldest first.
    pub forwarded: Ghost<Seq<Forwarded>>,
}

impl<C> Session<C> {
    /// Whether this is a session as it is right after its creation under
    /// `id` with the credential `gemini_api_key`.
    pub open spec fn is_fresh(self, id: u128, gemini_api_key: Option<String>) -> bool {
        &&& self.id == id
        &&& self.gemini_api_key == gemini_api_key
        &&& self.ssh_to_gemini_tx is None
        &&& self.forwarded@ == Seq::<Forwarded>::empty()
        &&& self.mcp_service.session_id == id
        &&& self.mcp_service.ssh_state.session is None
        &&& self.mcp_service.ssh_state.output() == Seq::<Seq<char>>::empty()
        &&& self.mcp_service.approval_channel@ == ChannelModel::init()
        &&& self.mcp_service.approval_channel.waiters() == Map::<
            u128,
            tokio::sync::oneshot::Sender<bool>,
        >::empty()
        &&& self.mcp_service.approval_channel.handed() == Seq::<Handed>::empty()
    }

    /// A new session under the identifier `id`.
    pub fn with_id(id: u128, gemini_api_key: Option<String>) -> (session: Self)
        ensures
            session.is_fresh(id, gemini_api_key),
    {
        Session {
            id,
            mcp_service: McpSshService::new(id, ApprovalChannel::new()),
            ssh_to_gemini_tx: None,
            gemini_api_key,
            forwarded: Ghost(Seq::empty()),
        }
    }

    /// A new session under a random identifier.
    pub fn new(gemini_api_key: Option<String>) -> (session: Self)
        ensures
            session.is_fresh(session.id, gemini_api_key),
    {
        Self::with_id(random_id(), gemini_api_key)
    }

    /// The record of forwarded fragments after one more fragment came in: it
    /// is handed, once, to the fan-out sender where one is set.
    pub open spec fn forwarded_after(
        before: Seq<Forwarded>,
        sender: Option<mpsc::UnboundedSender<String>>,
        fragment: Seq<char>,
    ) -> Seq<Forwarded> {
        match sender {
            Some(sender) => before.push(Forwarded { sender, fragment }),
            None => before,
        }
    }

    /// Hands a fragment to the fan-out sender and records it. That the
    /// receiver is gone is no error.
    fn forward(&mut self, fragment: String)
        requires
            old(self).ssh_to_gemini_tx is Some,
        ensures
            final(self).forwarded@ == old(self).forwarded@.push(
                Forwarded { sender: old(self).ssh_to_gemini_tx->0, fragment: fragment@ },
            ),
            final(self).id == old(self).id,
            final(self).mcp_service == old(self).mcp_service,
            final(self).ssh_to_gemini_tx == old(self).ssh_to_gemini_tx,
            final(self).gemini_api_key == old(self).gemini_api_key,
    {
        let ghost text = fragment@;
        match &self.ssh_to_gemini_tx {
            Some(tx) => {
                forward_fragment(tx, fragment);
            },
            None => {},
        }
        proof {
            self.forwarded@ = self.forwarded@.push(
                Forwarded { sender: self.ssh_to_gemini_tx->0, fragment: text },
            );
        }
    }

    /// Add SSH terminal output to the buffer, and copy it to the assistant's
    /// terminal where that is attached: the fragment is handed once to the
    /// fan-out sender, and whether it arrives does not matter.
    pub fn add_ssh_output(&mut self, output: String)
        ensures
            final(self).mcp_service.ssh_state.output() == keep_recent(
                old(self).mcp_service.ssh_state.output().push(output@),
                OUTPUT_LIMIT as nat,
            ),
            final(self).mcp_service.ssh_state.output().len() <= OUTPUT_LIMIT,
            final(self).forwarded@ == Self::forwarded_after(
                old(self).forwarded@,
                old(self).ssh_to_gemini_tx,
                output@,
            ),
            final(self).mcp_service.ssh_state.session == old(self).mcp_service.ssh_state.session,
            final(self).mcp_service.session_id == old(self).mcp_service.session_id,
            final(self).mcp_service.approval_channel == old(self).mcp_service.approval_channel,
            final(self).id == old(self).id,
            final(self).gemini_api_key == old(self).gemini_api_key,
            final(self).ssh_to_gemini_tx == old(self).ssh_to_gemini_tx,
    {
        if self.ssh_to_gemini_tx.is_some() {
            self.forward(output.clone());
        }
        self.mcp_service.add_output(output);
    }

    /// Get the buffered SSH output, oldest first.
    pub fn get_ssh_context(&self) -> (context: Vec<String>)
        ensures
            texts(context@) == self.mcp_service.ssh_state.output(),
    {
        let held = self.mcp_service.ssh_state.output_len();
        self.mcp_service.ssh_state.get_recent_output(held)
    }

    /// Get the approval channel for this session.
    pub fn get_approval_channel(&self) -> (channel: &ApprovalChannel)
        ensures
            *channel == self.mcp_service.approval_channel,
    {
        &self.mcp_service.approval_channel
    }

    /// Get the MCP service for this session.
    pub fn get_mcp_service(&self) -> (service: &McpSshService<C>)
        ensures
            *service == self.mcp_service,
    {
        &self.mcp_service
    }

    /// Set the channel on which SSH output is copied to the assistant's
    /// terminal.
    pub fn set_ssh_to_gemini_channel(&mut self, tx: mpsc::UnboundedSender<String>)
        ensures
            final(self).ssh_to_gemini_tx == Some(tx),
            final(self).id == old(self).id,
            final(self).mcp_service == old(self).mcp_service,
            final(self).gemini_api_key == old(self).gemini_api_key,
            final(self).forwarded == old(self).forwarded,
    {
        self.ssh_to_gemini_tx = Some(tx);
    }
}

/// The registry of sessions.
pub struct AppState<C> {
    sessions: HashMap<u128, Session<C>>,
}

impl<C> View for AppState<C> {
    type V = Map<u128, Session<C>>;

    closed spec fn view(&self) -> Map<u128, Session<C>> {
        self.sessions@
    }
}

impl<C> AppState<C> {
    #[verifier::type_invariant]
    spec fn keyed_by_id(self) -> bool {
        forall|id: u128| #[trigger]
            self.sessions@.contains_key(id) ==> self.sessions@[id].id == id
    }

    /// An empty registry.
    pub fn new() -> (state: Self)
        ensures
            state@ == Map::<u128, Session<C>>::empty(),
    {
        AppState { sessions: HashMap::new() }
    }

    /// Registers a new session under the identifier `id`, in place of any
    /// session registered under it before.
    pub fn create_session_as(&mut self, id: u128, gemini_api_key: Option<String>)
        ensures
            final(self)@.contains_key(id),
            final(self)@[id].is_fresh(id, gemini_api_key),
            final(self)@ == old(self)@.insert(id, final(self)@[id]),
    {
        let session = Session::with_id(id, gemini_api_key);
        self.insert_session(session);
    }

    /// Creates a session under a random identifier, registers it and returns
    /// the identifier.
    pub fn create_session(&mut self, gemini_api_key: Option<String>) -> (id: u128)
        ensures
            final(self)@.contains_key(id),
            final(self)@[id].is_fresh(id, gemini_api_key),
            final(self)@ == old(self)@.insert(id, final(self)@[id]),
    {
        let id = random_id();
        self.create_session_as(id, gemini_api_key);
        id
    }

    /// Looks a session up.
    pub fn get_session(&self, id: u128) -> (found: Option<&Session<C>>)
        ensures
            found is Some == self@.contains_key(id),
            found matches Some(session) ==> *session == self@[id] && session.id == id,
    {
        proof {
            use_type_invariant(self);
        }
        self.sessions.get(&id)
    }

    /// Looks up the tool server of a session.
    pub fn get_mcp_service(&self, id: u128) -> (found: Option<&McpSshService<C>>)
        ensures
            found is Some == self@.contains_key(id),
            found matches Some(service) ==> *service == self@[id].mcp_service,
    {
        match self.sessions.get(&id) {
            Some(session) => Some(&session.mcp_service),
            None => None,
        }
    }

    /// Takes a session, and with it its tool server, out of the registry.
    pub fn remove_session(&mut self, id: u128) -> (removed: Option<Session<C>>)
        ensures
            final(self)@ == old(self)@.remove(id),
            removed is Some == old(self)@.contains_key(id),
            removed matches Some(session) ==> session == old(self)@[id] && session.id == id,
    {
        proof {
            use_type_invariant(&*self);
        }
        let mut sessions = HashMap::new();
        std::mem::swap(&mut self.sessions, &mut sessions);
        let removed = sessions.remove(&id);
        self.sessions = sessions;
        removed
    }

    /// Puts a session into the registry under its own identifier, in place
    /// of any session registered under it before.
    pub fn insert_session(&mut self, session: Session<C>)
        ensures
            final(self)@ == old(self)@.insert(session.id, session),
    {
        proof {
            use_type_invariant(&*self);
        }
        let mut sessions = HashMap::new();
        std::mem::swap(&mut self.sessions, &mut sessions);
        sessions.insert(session.id, session);
        self.sessions = sessions;
    }

    /// The number of registered sessions.
    pub fn session_count(&self) -> (count: usize)
        ensures
            count == self@.len(),
    {
        self.sessions.len()
    }
}

} // verus!
