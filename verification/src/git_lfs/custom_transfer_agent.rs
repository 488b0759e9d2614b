//! What the protocol driver asks of the agent that moves the objects.

use vstd::prelude::*;

use crate::git_lfs::git_lfs_parser::{Event, EventView};

verus! {

/// Why the agent could not do what an event asked for.
#[derive(Clone, Debug)]
pub struct AgentError {
    pub code: u32,
    pub message: String,
}

/// One thing that the driver asked of an agent.
pub enum AgentCall {
    Init(EventView),
    Upload(EventView),
    Download(EventView),
    Terminate,
}

/// What follows in an agent's record of what it was asked, where it keeps one.
pub open spec fn asked(record: Option<Seq<AgentCall>>, call: AgentCall) -> Option<Seq<AgentCall>> {
    match record {
        Some(calls) => Some(calls.push(call)),
        None => None,
    }
}

/// One answer of an agent to what the driver asked of it.
pub enum AgentAnswer {
    /// The answer to `init`, `upload` or `terminate`.
    Done(Result<(), AgentError>),
    /// The answer to `download`: the local path of the object.
    Path(Result<String, AgentError>),
}

/// What follows in an agent's record of what it answered, where it keeps one.
pub open spec fn answered(record: Option<Seq<AgentAnswer>>, answer: AgentAnswer) -> Option<
    Seq<AgentAnswer>,
> {
    match record {
        Some(answers) => Some(answers.push(answer)),
        None => None,
    }
}

/// The agent that the driver hands each event to. The driver promises
/// nothing of what an agent answers; it reports what the agent answers.
pub trait CustomTransferAgent {
    /// What this agent has been asked, oldest first, where the agent keeps
    /// track of it. An agent that says nothing here does not.
    open spec fn calls(&self) -> Option<Seq<AgentCall>> {
        None
    }

    /// What this agent has answered, oldest first, where the agent keeps
    /// track of it. An agent that says nothing here does not.
    open spec fn answers(&self) -> Option<Seq<AgentAnswer>> {
        None
    }

    /// Fetches the object of the event and gives the local path it now stands at.
    fn download(&mut self, event: &Event) -> (r: Result<String, AgentError>)
        ensures
            final(self).calls() == asked(old(self).calls(), AgentCall::Download(event@)),
            final(self).answers() == answered(old(self).answers(), AgentAnswer::Path(r)),
    ;

    /// Prepares the agent for the transfers to come.
    fn init(&mut self, event: &Event) -> (r: Result<(), AgentError>)
        ensures
            final(self).calls() == asked(old(self).calls(), AgentCall::Init(event@)),
            final(self).answers() == answered(old(self).answers(), AgentAnswer::Done(r)),
    ;

    /// Ends the agent's work.
    fn terminate(&mut self) -> (r: Result<(), AgentError>)
        ensures
            final(self).calls() == asked(old(self).calls(), AgentCall::Terminate),
            final(self).answers() == answered(old(self).answers(), AgentAnswer::Done(r)),
    ;

    /// Sends the object of the event.
    fn upload(&mut self, event: &Event) -> (r: Result<(), AgentError>)
        ensures
            final(self).calls() == asked(old(self).calls(), AgentCall::Upload(event@)),
            final(self).answers() == answered(old(self).answers(), AgentAnswer::Done(r)),
    ;
}

} // verus!
