//! Outbound command frames.
use vstd::prelude::*;

use crate::buffer::{
    append_bytes, bytes_as_slice, bytes_content, bytes_from_slice, le16, le16_bytes,
    lemma_le16_round_trip, push_u16_le, read_u16_le,
};
use crate::types::{
    command_code, command_of, lemma_command_code_round_trip, Controller, ManagementCommand,
    ManagementError,
};

verus! {

/// The largest payload whose length a frame header can declare.
pub const MAX_PAYLOAD: usize = 0xFFFF;

/// A command to send: opcode, target controller and payload bytes.
pub struct ManagementRequest {
    pub opcode: ManagementCommand,
    pub controller: Controller,
    pub param: bytes::Bytes,
}

impl View for ManagementRequest {
    type V = (ManagementCommand, Controller, Seq<u8>);

    open spec fn view(&self) -> (ManagementCommand, Controller, Seq<u8>) {
        (self.opcode, self.controller, bytes_content(self.param))
    }
}

/// The wire form of a request: opcode, controller index and payload length,
/// each as two little-endian bytes, then the payload.
pub open spec fn request_frame(
    opcode: ManagementCommand,
    controller: Controller,
    payload: Seq<u8>,
) -> Seq<u8> {
    le16_bytes(command_code(opcode)) + le16_bytes(controller.0) + le16_bytes(
        payload.len() as u16,
    ) + payload
}

/// What decoding `buf` as a request frame yields.
pub open spec fn request_of_frame(buf: Seq<u8>) -> Result<
    (ManagementCommand, Controller, Seq<u8>),
    ManagementError,
> {
    if buf.len() < 6 || buf.len() - 6 < le16(buf, 4) {
        Err(ManagementError::MalformedFrame)
    } else {
        match command_of(le16(buf, 0)) {
            Some(op) => Ok((op, Controller(le16(buf, 2)), buf.subrange(6, 6 + le16(buf, 4)))),
            None => Err(ManagementError::UnknownOpcode { opcode: le16(buf, 0) }),
        }
    }
}

/// The view of a decoding result.
pub open spec fn request_result_view(r: Result<ManagementRequest, ManagementError>) -> Result<
    (ManagementCommand, Controller, Seq<u8>),
    ManagementError,
> {
    match r {
        Ok(q) => Ok(q@),
        Err(e) => Err(e),
    }
}

impl ManagementRequest {
    /// A request carrying a copy of `payload`.
    pub fn new(opcode: ManagementCommand, controller: Controller, payload: &[u8]) -> (r:
        ManagementRequest)
        ensures
            r@ == (opcode, controller, payload@),
    {
        ManagementRequest { opcode, controller, param: bytes_from_slice(payload) }
    }

    /// The frame for this request; a payload too long for the length field is refused.
    pub fn encode(&self) -> (r: Result<Vec<u8>, ManagementError>)
        ensures
            r is Ok <==> bytes_content(self.param).len() <= MAX_PAYLOAD,
            r matches Ok(v) ==> v@ == request_frame(
                self.opcode,
                self.controller,
                bytes_content(self.param),
            ),
            r matches Err(e) ==> e == ManagementError::PayloadTooLong,
    {
        let payload = bytes_as_slice(&self.param);
        if payload.len() > MAX_PAYLOAD {
            return Err(ManagementError::PayloadTooLong);
        }
        let mut out: Vec<u8> = Vec::new();
        push_u16_le(&mut out, self.opcode.code());
        push_u16_le(&mut out, self.controller.0);
        push_u16_le(&mut out, payload.len() as u16);
        append_bytes(&mut out, payload);
        Ok(out)
    }

    /// Reads a request frame from the front of `buf`; bytes after the declared
    /// payload are left alone.
    pub fn decode(buf: &[u8]) -> (r: Result<ManagementRequest, ManagementError>)
        ensures
            request_result_view(r) == request_of_frame(buf@),
    {
        if buf.len() < 6 {
            return Err(ManagementError::MalformedFrame);
        }
        let code = read_u16_le(buf, 0);
        let index = read_u16_le(buf, 2);
        let len = read_u16_le(buf, 4) as usize;
        if buf.len() - 6 < len {
            return Err(ManagementError::MalformedFrame);
        }
        match ManagementCommand::from_code(code) {
            Some(opcode) => Ok(
                ManagementRequest {
                    opcode,
                    controller: Controller(index),
                    param: bytes_from_slice(&buf[6..6 + len]),
                },
            ),
            None => Err(ManagementError::UnknownOpcode { opcode: code }),
        }
    }
}

/// Decoding the frame of a request whose payload fits the length field gives
/// back its opcode, controller and payload.
pub proof fn lemma_request_round_trip(
    opcode: ManagementCommand,
    controller: Controller,
    payload: Seq<u8>,
)
    requires
        payload.len() <= MAX_PAYLOAD,
    ensures
        request_of_frame(request_frame(opcode, controller, payload)) == Ok::<
            (ManagementCommand, Controller, Seq<u8>),
            ManagementError,
        >((opcode, controller, payload)),
{
    let code = command_code(opcode);
    let len = payload.len() as u16;
    let f = request_frame(opcode, controller, payload);
    lemma_le16_round_trip(code);
    lemma_le16_round_trip(controller.0);
    lemma_le16_round_trip(len);
    lemma_command_code_round_trip(opcode);
    assert(le16(f, 0) == le16(le16_bytes(code), 0));
    assert(le16(f, 2) == le16(le16_bytes(controller.0), 0));
    assert(le16(f, 4) == le16(le16_bytes(len), 0));
    assert(f.subrange(6, 6 + len) =~= payload);
}

/// Bytes after a request frame's declared payload do not change what it decodes to.
pub proof fn lemma_request_ignores_trailing_bytes(buf: Seq<u8>, extra: Seq<u8>)
    requires
        buf.len() >= 6,
        buf.len() - 6 >= le16(buf, 4),
    ensures
        request_of_frame(buf + extra) == request_of_frame(buf),
{
    let b = buf + extra;
    assert(le16(b, 0) == le16(buf, 0));
    assert(le16(b, 2) == le16(buf, 2));
    assert(le16(b, 4) == le16(buf, 4));
    assert(b.subrange(6, 6 + le16(buf, 4)) =~= buf.subrange(6, 6 + le16(buf, 4)));
}

} // verus!
