//! The coordination channel between workers and the coordinator, and the
//! registry of published capabilities.

use vstd::prelude::*;
use crate::registry::{has_agent_record, lemma_agent_records_nonempty, Keyed, Registry};
use crate::types::{AgentId, AgentStatus, ApiPublished, CoordinationError, CoordinationMessage};
use tokio::sync::mpsc::error::{SendError, TryRecvError};
use tokio::sync::mpsc::{UnboundedReceiver, UnboundedSender};

verus! {

#[verifier::external_type_specification]
#[verifier::external_body]
#[verifier::reject_recursive_types(T)]
pub struct ExUnboundedSender<T>(UnboundedSender<T>);

#[verifier::external_type_specification]
#[verifier::external_body]
#[verifier::reject_recursive_types(T)]
pub struct ExUnboundedReceiver<T>(UnboundedReceiver<T>);

#[verifier::external_type_specification]
#[verifier::external_body]
#[verifier::reject_recursive_types(T)]
pub struct ExSendError<T>(SendError<T>);

#[verifier::external_type_specification]
#[verifier::external_body]
pub struct ExTryRecvError(TryRecvError);

/// Relies on tokio::sync::mpsc::unbounded_channel: a new unbounded queue and
/// its two ends. Nothing is stated of the ends.
pub assume_specification<T>[ tokio::sync::mpsc::unbounded_channel::<T> ]() -> (UnboundedSender<T>, UnboundedReceiver<T>);

/// Relies on UnboundedSender::clone: another handle on the same queue.
pub assume_specification<T>[ <UnboundedSender<T> as Clone>::clone ](sender: &UnboundedSender<T>) -> UnboundedSender<T>;

/// Relies on UnboundedSender::send: enqueues without blocking, or fails once
/// the receiver is gone. Which happens depends on the receiver, so nothing is
/// stated.
pub assume_specification<T>[ UnboundedSender::<T>::send ](sender: &UnboundedSender<T>, message: T) -> Result<(), SendError<T>>;

/// Relies on UnboundedReceiver::try_recv: takes the next queued message if
/// there is one, without blocking. Other threads send concurrently, so
/// nothing is stated of the outcome.
pub assume_specification<T>[ UnboundedReceiver::<T>::try_recv ](receiver: &mut UnboundedReceiver<T>) -> Result<T, TryRecvError>;

/// Relies on UnboundedReceiver::len: the number of queued messages at the
/// moment of the call, which senders change concurrently.
pub assume_specification<T>[ UnboundedReceiver::<T>::len ](receiver: &UnboundedReceiver<T>) -> usize;

/// The receiving side of the coordination queue, owned by the coordinator.
pub struct CoordinationChannel {
    sender: UnboundedSender<CoordinationMessage>,
    receiver: UnboundedReceiver<CoordinationMessage>,
}

impl CoordinationChannel {
    /// A new queue together with one cloneable sending handle.
    pub fn new() -> (r: (Self, CoordinationHandle)) {
        let (sender, receiver) = tokio::sync::mpsc::unbounded_channel();
        let handle = CoordinationHandle { sender: sender.clone() };
        (CoordinationChannel { sender, receiver }, handle)
    }

    /// Takes the next queued message, if any, without waiting.
    pub fn try_recv(&mut self) -> (r: Option<CoordinationMessage>) {
        self.receiver.try_recv().ok()
    }

    /// The number of messages queued at the moment of the call.
    pub fn queued(&self) -> (r: usize) {
        self.receiver.len()
    }

    /// Another sending handle on this queue.
    pub fn handle(&self) -> (r: CoordinationHandle) {
        CoordinationHandle { sender: self.sender.clone() }
    }
}

/// The sending side of the coordination queue; each worker holds a clone.
pub struct CoordinationHandle {
    sender: UnboundedSender<CoordinationMessage>,
}

impl Clone for CoordinationHandle {
    fn clone(&self) -> (r: Self) {
        CoordinationHandle { sender: self.sender.clone() }
    }
}

impl CoordinationHandle {
    /// Forwards `message`; fails only when the coordinator's queue is gone.
    pub fn send(&self, message: CoordinationMessage) -> (r: Result<(), CoordinationError>)
        ensures
            r is Err ==> r == Err::<(), CoordinationError>(CoordinationError::ChannelClosed),
    {
        match self.sender.send(message) {
            Ok(()) => Ok(()),
            Err(_) => Err(CoordinationError::ChannelClosed),
        }
    }

    /// Announces that `agent` has initialised and wants to run.
    pub fn agent_ready(&self, agent: AgentId) -> (r: Result<(), CoordinationError>)
        ensures
            r is Err ==> r == Err::<(), CoordinationError>(CoordinationError::ChannelClosed),
    {
        self.send(CoordinationMessage::AgentReady(agent))
    }

    /// Announces a published capability.
    pub fn api_published(&self, api: ApiPublished) -> (r: Result<(), CoordinationError>)
        ensures
            r is Err ==> r == Err::<(), CoordinationError>(CoordinationError::ChannelClosed),
    {
        self.send(CoordinationMessage::ApiPublished(api))
    }

    /// Announces that `agent` finished the plan's task `task_id`.
    pub fn task_completed(&self, agent: AgentId, task_id: String) -> (r: Result<(), CoordinationError>)
        ensures
            r is Err ==> r == Err::<(), CoordinationError>(CoordinationError::ChannelClosed),
    {
        self.send(CoordinationMessage::TaskCompleted(agent, task_id))
    }

    /// Asks the coordinator to overwrite `agent`'s status.
    pub fn status_update(&self, agent: AgentId, status: AgentStatus) -> (r: Result<(), CoordinationError>)
        ensures
            r is Err ==> r == Err::<(), CoordinationError>(CoordinationError::ChannelClosed),
    {
        self.send(CoordinationMessage::StatusUpdate(agent, status))
    }

    /// Asks to modify `target_module`, which `target_agent` is believed to own.
    pub fn request_coordination(
        &self,
        requester: AgentId,
        target_agent: AgentId,
        target_module: String,
        reason: String,
    ) -> (r: Result<(), CoordinationError>)
        ensures
            r is Err ==> r == Err::<(), CoordinationError>(CoordinationError::ChannelClosed),
    {
        self.send(CoordinationMessage::CoordinationRequest { requester, target_agent, target_module, reason })
    }
}

} // verus!

verus! {

impl Keyed for ApiPublished {
    open spec fn key(&self) -> Seq<char> {
        self.api_name@
    }

    open spec fn agent_of(&self) -> AgentId {
        self.agent
    }

    fn key_str(&self) -> (r: &str) {
        self.api_name.as_str()
    }

    fn agent(&self) -> (r: AgentId) {
        self.agent
    }
}

/// The published capabilities, keyed by name; a later publication of a name
/// replaces the earlier one.
pub struct ApiRegistry {
    apis: Registry<ApiPublished>,
}

impl View for ApiRegistry {
    type V = Map<Seq<char>, ApiPublished>;

    open spec fn view(&self) -> Map<Seq<char>, ApiPublished> {
        self.records()@
    }
}

impl ApiRegistry {
    pub closed spec fn records(&self) -> Registry<ApiPublished> {
        self.apis
    }

    /// The records in registry order.
    pub open spec fn entries(&self) -> Seq<ApiPublished> {
        self.records().entries()
    }

    pub open spec fn wf(&self) -> bool {
        self.records().wf()
    }

    pub fn new() -> (r: Self)
        ensures
            r.wf(),
            r@ == Map::<Seq<char>, ApiPublished>::empty(),
    {
        ApiRegistry { apis: Registry::new() }
    }

    /// Records a publication, replacing an earlier one of the same name.
    pub fn register(&mut self, api: ApiPublished)
        requires
            old(self).wf(),
        ensures
            final(self).wf(),
            final(self)@ == old(self)@.insert(api.api_name@, api),
    {
        self.apis.register(api);
    }

    /// Whether a capability of this name has been published.
    pub fn is_published(&self, api_name: &str) -> (r: bool)
        requires
            self.wf(),
        ensures
            r == self@.contains_key(api_name@),
    {
        self.apis.lookup(api_name).is_some()
    }

    /// The publication of this name, if any.
    pub fn get_api(&self, api_name: &str) -> (r: Option<&ApiPublished>)
        requires
            self.wf(),
        ensures
            match r {
                Some(api) => self@.contains_key(api_name@) && *api == self@[api_name@],
                None => !self@.contains_key(api_name@),
            },
    {
        self.apis.lookup(api_name)
    }

    /// The publications of `agent`, in registry order.
    pub fn get_agent_apis(&self, agent: AgentId) -> (r: Vec<&ApiPublished>)
        requires
            self.wf(),
        ensures
            r@.len() == self.entries().filter(|a: ApiPublished| a.agent == agent).len(),
            forall|k: int|
                0 <= k < r@.len() ==> *r@[k] == self.entries().filter(
                    |a: ApiPublished| a.agent == agent,
                )[k],
            (r@.len() > 0) == has_agent_record(self@, agent),
    {
        let r = self.apis.by_agent(agent);
        assert((|a: ApiPublished| a.agent_of() == agent) =~= (|a: ApiPublished| a.agent == agent));
        proof {
            lemma_agent_records_nonempty(self.entries(), agent);
        }
        r
    }
}

} // verus!
