//! Inbound frames: the event model and its decoder.
use vstd::prelude::*;

use crate::buffer::{bytes_content, bytes_from_slice, le16, read_u16_le};
use crate::text::{decode_fixed_text, trim_trailing_zeros};
use crate::types::{
    command_of, status_of, Controller, ManagementCommand, ManagementCommandStatus,
    ManagementError,
};

verus! {

/// A command finished, with a result payload.
pub const EVENT_COMMAND_COMPLETE: u16 = 0x0001;

/// A command finished, without a result payload.
pub const EVENT_COMMAND_STATUS: u16 = 0x0002;

/// A controller reported an error code.
pub const EVENT_CONTROLLER_ERROR: u16 = 0x0003;

/// A controller appeared.
pub const EVENT_INDEX_ADDED: u16 = 0x0004;

/// A controller went away.
pub const EVENT_INDEX_REMOVED: u16 = 0x0005;

/// A controller's name changed.
pub const EVENT_LOCAL_NAME_CHANGED: u16 = 0x0008;

/// Width of the zero-padded name field of a name-changed event.
pub const NAME_WIDTH: usize = 249;

/// An inbound message.
pub enum ManagementEvent {
    CommandComplete {
        opcode: ManagementCommand,
        status: ManagementCommandStatus,
        param: bytes::Bytes,
    },
    CommandStatus { opcode: ManagementCommand, status: ManagementCommandStatus },
    ControllerError { code: u8 },
    IndexAdded,
    IndexRemoved,
    LocalNameChanged { name: Vec<u8>, short_name: Vec<u8> },
}

/// What an inbound message says, with its byte fields as sequences.
pub enum EventModel {
    CommandComplete {
        opcode: ManagementCommand,
        status: ManagementCommandStatus,
        param: Seq<u8>,
    },
    CommandStatus { opcode: ManagementCommand, status: ManagementCommandStatus },
    ControllerError { code: u8 },
    IndexAdded,
    IndexRemoved,
    LocalNameChanged { name: Seq<u8>, short_name: Seq<u8> },
}

impl View for ManagementEvent {
    type V = EventModel;

    open spec fn view(&self) -> EventModel {
        match self {
            ManagementEvent::CommandComplete { opcode, status, param } => EventModel::CommandComplete {
                opcode: *opcode,
                status: *status,
                param: bytes_content(*param),
            },
            ManagementEvent::CommandStatus { opcode, status } => EventModel::CommandStatus {
                opcode: *opcode,
                status: *status,
            },
            ManagementEvent::ControllerError { code } => EventModel::ControllerError { code: *code },
            ManagementEvent::IndexAdded => EventModel::IndexAdded,
            ManagementEvent::IndexRemoved => EventModel::IndexRemoved,
            ManagementEvent::LocalNameChanged { name, short_name } => EventModel::LocalNameChanged {
                name: name@,
                short_name: short_name@,
            },
        }
    }
}

/// The event that an event code and its payload stand for.
pub open spec fn event_of_payload(code: u16, p: Seq<u8>) -> Result<EventModel, ManagementError> {
    if code == EVENT_COMMAND_COMPLETE || code == EVENT_COMMAND_STATUS {
        if p.len() < 3 {
            Err(ManagementError::MalformedFrame)
        } else {
            match command_of(le16(p, 0)) {
                None => Err(ManagementError::UnknownOpcode { opcode: le16(p, 0) }),
                Some(opcode) => match status_of(p[2]) {
                    None => Err(ManagementError::UnknownStatus { status: p[2] }),
                    Some(status) => if code == EVENT_COMMAND_COMPLETE {
                        Ok(EventModel::CommandComplete { opcode, status, param: p.subrange(3, p.len() as int) })
                    } else {
                        Ok(EventModel::CommandStatus { opcode, status })
                    },
                },
            }
        }
    } else if code == EVENT_CONTROLLER_ERROR {
        if p.len() < 1 {
            Err(ManagementError::MalformedFrame)
        } else {
            Ok(EventModel::ControllerError { code: p[0] })
        }
    } else if code == EVENT_INDEX_ADDED {
        Ok(EventModel::IndexAdded)
    } else if code == EVENT_INDEX_REMOVED {
        Ok(EventModel::IndexRemoved)
    } else if code == EVENT_LOCAL_NAME_CHANGED {
        if p.len() < NAME_WIDTH {
            Err(ManagementError::MalformedFrame)
        } else {
            Ok(
                EventModel::LocalNameChanged {
                    name: trim_trailing_zeros(p.subrange(0, NAME_WIDTH as int)),
                    short_name: trim_trailing_zeros(p.subrange(NAME_WIDTH as int, p.len() as int)),
                },
            )
        }
    } else {
        Err(ManagementError::UnhandledEvent { code })
    }
}

/// What decoding `buf` as an event frame yields: the controller and the event.
pub open spec fn response_of_frame(buf: Seq<u8>) -> Result<(Controller, EventModel), ManagementError> {
    if buf.len() < 6 || buf.len() - 6 < le16(buf, 4) {
        Err(ManagementError::MalformedFrame)
    } else {
        match event_of_payload(le16(buf, 0), buf.subrange(6, 6 + le16(buf, 4))) {
            Ok(e) => Ok((Controller(le16(buf, 2)), e)),
            Err(x) => Err(x),
        }
    }
}

/// The view of an event decoding result.
pub open spec fn event_result_view(r: Result<ManagementEvent, ManagementError>) -> Result<
    EventModel,
    ManagementError,
> {
    match r {
        Ok(e) => Ok(e@),
        Err(x) => Err(x),
    }
}

impl ManagementEvent {
    /// Decodes the payload of an event with the given event code.
    pub fn decode(code: u16, p: &[u8]) -> (r: Result<ManagementEvent, ManagementError>)
        ensures
            event_result_view(r) == event_of_payload(code, p@),
    {
        if code == EVENT_COMMAND_COMPLETE || code == EVENT_COMMAND_STATUS {
            if p.len() < 3 {
                return Err(ManagementError::MalformedFrame);
            }
            let raw_opcode = read_u16_le(p, 0);
            let opcode = match ManagementCommand::from_code(raw_opcode) {
                Some(c) => c,
                None => {
                    return Err(ManagementError::UnknownOpcode { opcode: raw_opcode });
                },
            };
            let status = match ManagementCommandStatus::from_code(p[2]) {
                Some(s) => s,
                None => {
                    return Err(ManagementError::UnknownStatus { status: p[2] });
                },
            };
            if code == EVENT_COMMAND_COMPLETE {
                Ok(
                    ManagementEvent::CommandComplete {
                        opcode,
                        status,
                        param: bytes_from_slice(&p[3..p.len()]),
                    },
                )
            } else {
                Ok(ManagementEvent::CommandStatus { opcode, status })
            }
        } else if code == EVENT_CONTROLLER_ERROR {
            if p.len() < 1 {
                return Err(ManagementError::MalformedFrame);
            }
            Ok(ManagementEvent::ControllerError { code: p[0] })
        } else if code == EVENT_INDEX_ADDED {
            Ok(ManagementEvent::IndexAdded)
        } else if code == EVENT_INDEX_REMOVED {
            Ok(ManagementEvent::IndexRemoved)
        } else if code == EVENT_LOCAL_NAME_CHANGED {
            if p.len() < NAME_WIDTH {
                return Err(ManagementError::MalformedFrame);
            }
            let name = decode_fixed_text(&p[0..NAME_WIDTH]);
            let short_name = decode_fixed_text(&p[NAME_WIDTH..p.len()]);
            Ok(ManagementEvent::LocalNameChanged { name, short_name })
        } else {
            Err(ManagementError::UnhandledEvent { code })
        }
    }
}

/// A decoded event frame: the event and the controller it concerns.
pub struct ManagementResponse {
    pub event: ManagementEvent,
    pub controller: Controller,
}

impl View for ManagementResponse {
    type V = (Controller, EventModel);

    open spec fn view(&self) -> (Controller, EventModel) {
        (self.controller, self.event@)
    }
}

/// The view of a frame decoding result.
pub open spec fn response_result_view(r: Result<ManagementResponse, ManagementError>) -> Result<
    (Controller, EventModel),
    ManagementError,
> {
    match r {
        Ok(x) => Ok(x@),
        Err(e) => Err(e),
    }
}

impl ManagementResponse {
    /// Decodes the event frame at the front of `buf`. Only the declared payload
    /// is read; bytes after it are ignored.
    pub fn parse(buf: &[u8]) -> (r: Result<ManagementResponse, ManagementError>)
        ensures
            response_result_view(r) == response_of_frame(buf@),
    {
        if buf.len() < 6 {
            return Err(ManagementError::MalformedFrame);
        }
        let code = read_u16_le(buf, 0);
        let index = read_u16_le(buf, 2);
        let len = read_u16_le(buf, 4) as usize;
        if buf.len() - 6 < len {
            return Err(ManagementError::MalformedFrame);
        }
        match ManagementEvent::decode(code, &buf[6..6 + len]) {
            Ok(event) => Ok(ManagementResponse { event, controller: Controller(index) }),
            Err(e) => Err(e),
        }
    }
}

/// Bytes after an event frame's declared payload do not change what it decodes to.
pub proof fn lemma_response_ignores_trailing_bytes(buf: Seq<u8>, extra: Seq<u8>)
    requires
        buf.len() >= 6,
        buf.len() - 6 >= le16(buf, 4),
    ensures
        response_of_frame(buf + extra) == response_of_frame(buf),
{
    let b = buf + extra;
    assert(le16(b, 0) == le16(buf, 0));
    assert(le16(b, 2) == le16(buf, 2));
    assert(le16(b, 4) == le16(buf, 4));
    assert(b.subrange(6, 6 + le16(buf, 4)) =~= buf.subrange(6, 6 + le16(buf, 4)));
}

} // verus!
