//! Error types of shard initialization, reconfiguration and termination.

use std::sync::Arc;
use twilight_gateway::error::ReceiveMessageError;
use vstd::prelude::*;
use vstd::string::StringExecFns;

use crate::gateway::CloseFrame;
use crate::range::ShardId;

verus! {

/// An operation was attempted on a terminated shard.
#[derive(Debug, Clone, Copy, PartialEq, Eq, Structural)]
pub struct ShardTerminated(pub(crate) ShardId);

impl View for ShardTerminated {
    type V = ShardId;

    closed spec fn view(&self) -> ShardId {
        self.0
    }
}

impl ShardTerminated {
    /// Builds the error for the terminated shard `id`.
    pub fn new(id: ShardId) -> (e: ShardTerminated)
        ensures
            e@ == id,
    {
        ShardTerminated(id)
    }

    /// The associated ID of the shard that this error occurred.
    pub fn id(&self) -> (id: ShardId)
        ensures
            id == self@,
    {
        self.0
    }

    /// The text of the error: `shard [number, total] is terminated`, with
    /// the shard's number and total written in decimal by `u32`'s
    /// `Display`.
    pub fn describe(&self) -> (text: String)
        ensures
            exists|number: String, total: String|
                vstd::string::to_string_from_display_ensures::<u32>(&self@.number, number)
                && vstd::string::to_string_from_display_ensures::<u32>(&self@.total, total)
                && text@ == "shard ["@ + number@ + ", "@ + total@ + "] is terminated"@,
    {
        let number = self.0.number().to_string();
        let total = self.0.total().to_string();
        let mut text = String::from_str("shard [");
        text.append(number.as_str());
        text.append(", ");
        text.append(total.as_str());
        text.append("] is terminated");
        text
    }
}

/// The source of a failure to connect to the gateway.
#[derive(Debug)]
pub enum ConnectError {
    /// The shard failed to reconnect to the gateway.
    Network(ReceiveMessageError),
    /// The shard was terminated before it identified.
    Terminated(ShardTerminated),
}

/// The specific type of error that occurred during shard initialization.
#[derive(Debug)]
pub enum InitShardErrorType {
    /// An error occurred while trying to connect to the gateway websocket.
    Connect(ConnectError),
    /// The gateway closed the connection with a non-resumable close frame.
    Gateway(CloseFrame),
}

/// An error that can occur when initializing or resuming a shard session.
#[derive(Debug)]
pub struct InitShardError {
    pub(crate) id: ShardId,
    pub(crate) kind: InitShardErrorType,
}

impl View for InitShardError {
    type V = (ShardId, InitShardErrorType);

    closed spec fn view(&self) -> (ShardId, InitShardErrorType) {
        (self.id, self.kind)
    }
}

impl InitShardError {
    /// Builds the error of shard `id`.
    pub(crate) fn new(id: ShardId, kind: InitShardErrorType) -> (e: InitShardError)
        ensures
            e@ == (id, kind),
    {
        InitShardError { id, kind }
    }

    /// The associated ID of the shard that this error occurred.
    pub fn id(&self) -> (id: ShardId)
        ensures
            id == self@.0,
    {
        self.id
    }

    /// Immutable reference to the type of error that occurred.
    pub fn kind(&self) -> (kind: &InitShardErrorType)
        ensures
            *kind == self@.1,
    {
        &self.kind
    }

    /// The text of the error: a fixed phrase for a failure to connect, and
    /// the close code, written in decimal by `u16`'s `Display`, for a close
    /// by the gateway.
    pub fn describe(&self) -> (text: String)
        ensures
            match self@.1 {
                InitShardErrorType::Connect(_) => text@ == "failed to reconnect to the gateway"@,
                InitShardErrorType::Gateway(frame) => exists|code: String|
                    vstd::string::to_string_from_display_ensures::<u16>(&frame.code, code)
                    && text@ == "gateway closed with code "@ + code@,
            },
    {
        match &self.kind {
            InitShardErrorType::Connect(_) => String::from_str("failed to reconnect to the gateway"),
            InitShardErrorType::Gateway(frame) => {
                let code = frame.code.to_string();
                let mut text = String::from_str("gateway closed with code ");
                text.append(code.as_str());
                text
            },
        }
    }

    /// Consume the error, returning the source error if there is any: the
    /// connect error of a `Connect`, none for a `Gateway` close.
    pub fn into_source(self) -> (source: Option<ConnectError>)
        ensures
            match self@.1 {
                InitShardErrorType::Connect(e) => source == Some(e),
                InitShardErrorType::Gateway(_) => source is None,
            },
    {
        match self.kind {
            InitShardErrorType::Connect(source) => Some(source),
            InitShardErrorType::Gateway(_) => None,
        }
    }
}

/// The specific type of error that occurred during shard reconfiguration.
#[derive(Debug)]
pub enum ReconfigureShardErrorType {
    /// The shard was already closed or terminated when reconfiguration was
    /// attempted.
    Closed,
    /// The shard failed to initialize after being reconfigured.
    Init(Arc<InitShardError>),
}

/// An error that can occur when reconfiguring a shard.
#[derive(Debug)]
pub struct ReconfigureShardError {
    pub(crate) id: ShardId,
    pub(crate) kind: ReconfigureShardErrorType,
}

impl View for ReconfigureShardError {
    type V = (ShardId, ReconfigureShardErrorType);

    closed spec fn view(&self) -> (ShardId, ReconfigureShardErrorType) {
        (self.id, self.kind)
    }
}

impl ReconfigureShardError {
    /// The associated ID of the shard that this error occurred.
    pub fn id(&self) -> (id: ShardId)
        ensures
            id == self@.0,
    {
        self.id
    }

    /// Immutable reference to the type of error that occurred.
    pub fn kind(&self) -> (kind: &ReconfigureShardErrorType)
        ensures
            *kind == self@.1,
    {
        &self.kind
    }

    /// The text of the error: a fixed phrase for each type.
    pub fn describe(&self) -> (text: String)
        ensures
            match self@.1 {
                ReconfigureShardErrorType::Closed => text@ == "tried to reconfigure closed shard"@,
                ReconfigureShardErrorType::Init(_) => text@ == "failed to initialize reconfigured shard"@,
            },
    {
        match &self.kind {
            ReconfigureShardErrorType::Closed => String::from_str("tried to reconfigure closed shard"),
            ReconfigureShardErrorType::Init(_) => String::from_str("failed to initialize reconfigured shard"),
        }
    }

    /// Consume the error, returning the source error if there is any: the
    /// initialization error of an `Init`, none for `Closed`.
    pub fn into_source(self) -> (source: Option<Arc<InitShardError>>)
        ensures
            match self@.1 {
                ReconfigureShardErrorType::Init(e) => source == Some(e),
                ReconfigureShardErrorType::Closed => source is None,
            },
    {
        match self.kind {
            ReconfigureShardErrorType::Closed => None,
            ReconfigureShardErrorType::Init(source) => Some(source),
        }
    }

    /// What a reconfiguration request of shard `id` ends in, from the reply
    /// of its daemon: `reply` is `None` when the request could not be
    /// delivered or the daemon dropped it unanswered, which is `Closed`; an
    /// initialization failure becomes `Init` with the same error; a
    /// successful identify is `Ok`.
    pub fn from_reply(id: ShardId, reply: Option<Result<(), Arc<InitShardError>>>) -> (r: Result<(), ReconfigureShardError>)
        ensures
            match reply {
                None => r matches Err(err) && err@ == (id, ReconfigureShardErrorType::Closed),
                Some(Ok(())) => r is Ok,
                Some(Err(e)) => r matches Err(err) && err@ == (id, ReconfigureShardErrorType::Init(e)),
            },
    {
        match reply {
            None => Err(ReconfigureShardError { id, kind: ReconfigureShardErrorType::Closed }),
            Some(Ok(())) => Ok(()),
            Some(Err(inner)) => Err(ReconfigureShardError { id, kind: ReconfigureShardErrorType::Init(inner) }),
        }
    }
}

/// A close was requested of a shard that is already closed.
#[derive(Debug, Clone, Copy, PartialEq, Eq, Structural)]
pub struct CloseShardError;

/// An operation was refused because the shard is already starting.
#[derive(Debug, Clone, Copy, PartialEq, Eq, Structural)]
pub struct Blocked;

/// A command was sent to a closed shard.
#[derive(Debug, Clone, Copy, PartialEq, Eq, Structural)]
pub struct SendCommandError;

} // verus!
