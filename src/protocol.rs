use vstd::prelude::*;

verus! {

/// Operation code of the one request the driver serves.
pub const OP_ENCRYPT: u32 = 1;

/// Notification bit raised when the engine's interrupt line fires.
pub const IRQ_MASK: u32 = 1;

/// Clock/reset task opcode that enables a peripheral's clock.
pub const ENABLE_CLOCK: u16 = 1;

/// Clock/reset task opcode that takes a peripheral out of reset.
pub const LEAVE_RESET: u16 = 4;

/// Identifier of the AES engine at the clock/reset task.
pub const AES_PERIPHERAL: u32 = 82;

/// Requests a client may send.
#[derive(Clone, Copy, Debug, PartialEq, Eq, Structural)]
pub enum Operation {
    /// Encrypt the source lease into the destination lease with the given key.
    Encrypt,
}

impl Operation {
    /// Decodes an operation code.
    pub fn from_u32(op: u32) -> (r: Option<Operation>)
        ensures
            r == (if op == OP_ENCRYPT { Some(Operation::Encrypt) } else { None::<Operation> }),
    {
        if op == OP_ENCRYPT {
            Some(Operation::Encrypt)
        } else {
            None
        }
    }
}

/// Failure codes sent back to a client.
#[derive(Clone, Copy, Debug, PartialEq, Eq, Structural)]
pub enum ResponseCode {
    /// Malformed arguments, bad lease permissions, mismatched lengths, or a
    /// short read or write while streaming.
    BadArg,
    /// An operation is already in flight.
    Busy,
}

/// The wire value of a response code.
pub open spec fn code_value(rc: ResponseCode) -> u32 {
    match rc {
        ResponseCode::BadArg => 2,
        ResponseCode::Busy => 3,
    }
}

impl ResponseCode {
    /// The code as sent on the wire.
    pub fn code(self) -> (r: u32)
        ensures
            r == code_value(self),
    {
        match self {
            ResponseCode::BadArg => 2,
            ResponseCode::Busy => 3,
        }
    }
}

impl From<ResponseCode> for u32 {
    fn from(rc: ResponseCode) -> (r: u32) {
        rc.code()
    }
}

impl vstd::std_specs::convert::FromSpecImpl<ResponseCode> for u32 {
    open spec fn obeys_from_spec() -> bool {
        true
    }

    open spec fn from_spec(rc: ResponseCode) -> u32 {
        code_value(rc)
    }
}

/// Whether the clock/reset task accepted a power-on request.
pub fn power_on_accepted(code: u32) -> (r: bool)
    ensures
        r == (code == 0),
{
    code == 0
}

} // verus!
