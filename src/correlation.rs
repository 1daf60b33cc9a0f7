//! Matching inbound frames to the one outstanding command.
use vstd::prelude::*;

use crate::buffer::bytes_content;
use crate::response::{
    response_of_frame, EventModel, ManagementEvent, ManagementResponse,
};
use crate::types::{ManagementCommand, ManagementCommandStatus, ManagementError};

verus! {

/// What a received frame means for the outstanding command.
pub enum Correlation {
    /// The frame does not answer the command; wait for the next one.
    Unrelated,
    /// The command succeeded, with its result payload if the answer carried one.
    Succeeded(Option<bytes::Bytes>),
    /// The command failed, or the frame could not be decoded.
    Failed(ManagementError),
}

/// The meaning of a `Correlation`, with the payload as a sequence.
pub enum CorrelationModel {
    Unrelated,
    Succeeded(Option<Seq<u8>>),
    Failed(ManagementError),
}

impl View for Correlation {
    type V = CorrelationModel;

    open spec fn view(&self) -> CorrelationModel {
        match self {
            Correlation::Unrelated => CorrelationModel::Unrelated,
            Correlation::Succeeded(Some(b)) => CorrelationModel::Succeeded(Some(bytes_content(*b))),
            Correlation::Succeeded(None) => CorrelationModel::Succeeded(None),
            Correlation::Failed(e) => CorrelationModel::Failed(*e),
        }
    }
}

/// How an event bears on a command waiting for `pending`: only a completion or a
/// status for that very opcode settles it, by its status.
pub open spec fn correlate(pending: ManagementCommand, event: EventModel) -> CorrelationModel {
    match event {
        EventModel::CommandComplete { opcode, status, param } => if opcode != pending {
            CorrelationModel::Unrelated
        } else if status == ManagementCommandStatus::Success {
            CorrelationModel::Succeeded(Some(param))
        } else {
            CorrelationModel::Failed(ManagementError::CommandError { opcode: pending, status })
        },
        EventModel::CommandStatus { opcode, status } => if opcode != pending {
            CorrelationModel::Unrelated
        } else if status == ManagementCommandStatus::Success {
            CorrelationModel::Succeeded(None)
        } else {
            CorrelationModel::Failed(ManagementError::CommandError { opcode: pending, status })
        },
        _ => CorrelationModel::Unrelated,
    }
}

/// How a raw frame bears on a command waiting for `pending`: a frame that does
/// not decode fails the command.
pub open spec fn correlate_frame(pending: ManagementCommand, frame: Seq<u8>) -> CorrelationModel {
    match response_of_frame(frame) {
        Ok((_, event)) => correlate(pending, event),
        Err(e) => CorrelationModel::Failed(e),
    }
}

/// A command that was sent and awaits its answer.
#[derive(Clone, Copy, Debug, PartialEq, Eq, Structural)]
pub struct PendingCommand {
    pub opcode: ManagementCommand,
}

impl PendingCommand {
    /// A command with this opcode, just sent.
    pub fn new(opcode: ManagementCommand) -> (r: PendingCommand)
        ensures
            r.opcode == opcode,
    {
        PendingCommand { opcode }
    }

    /// Settles the command on a decoded frame, or says that the frame is unrelated.
    pub fn accept(&self, response: ManagementResponse) -> (r: Correlation)
        ensures
            r@ == correlate(self.opcode, response.event@),
    {
        match response.event {
            ManagementEvent::CommandComplete { opcode, status, param } => {
                if opcode != self.opcode {
                    Correlation::Unrelated
                } else if status == ManagementCommandStatus::Success {
                    Correlation::Succeeded(Some(param))
                } else {
                    Correlation::Failed(ManagementError::CommandError { opcode: self.opcode, status })
                }
            },
            ManagementEvent::CommandStatus { opcode, status } => {
                if opcode != self.opcode {
                    Correlation::Unrelated
                } else if status == ManagementCommandStatus::Success {
                    Correlation::Succeeded(None)
                } else {
                    Correlation::Failed(ManagementError::CommandError { opcode: self.opcode, status })
                }
            },
            _ => Correlation::Unrelated,
        }
    }

    /// Decodes a received frame and settles the command on it.
    pub fn accept_frame(&self, frame: &[u8]) -> (r: Correlation)
        ensures
            r@ == correlate_frame(self.opcode, frame@),
    {
        match ManagementResponse::parse(frame) {
            Ok(response) => self.accept(response),
            Err(e) => Correlation::Failed(e),
        }
    }
}

} // verus!
