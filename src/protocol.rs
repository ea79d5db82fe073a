//! SUMP wire commands: opcodes, parameter layout and decoding.
use vstd::prelude::*;

verus! {

/// Opcodes of the SUMP command set.
pub struct Cmd;

impl Cmd {
    pub const RESET: u8 = 0x00;
    pub const ARM: u8 = 0x01;
    pub const ID: u8 = 0x02;
    pub const GET_METADATA: u8 = 0x04;
    pub const SET_DIVIDER: u8 = 0x80;
    pub const SET_READ_DELAY: u8 = 0x81;
    pub const SET_FLAGS: u8 = 0x82;
    pub const SET_TRIGGER_MASK: u8 = 0xC0;
    pub const SET_TRIGGER_VALUE: u8 = 0xC1;
    pub const SET_TRIGGER_CONF: u8 = 0xC2;
}

/// A decoded command with its parameters.
#[derive(PartialEq, Eq, Structural, Clone, Copy, Debug)]
pub enum Command {
    Reset,
    Arm,
    Id,
    GetMetadata,
    SetDivider(u32),
    SetReadDelay(u16, u16),
    SetFlags(u32),
    SetTriggerMask(u32),
    SetTriggerValue(u32),
    SetTriggerConf(u32),
    Unknown(u8),
}

/// Number of parameter bytes that follow an opcode on the wire.
pub open spec fn payload_len(op: u8) -> nat {
    if op == 0x80 || op == 0x81 || op == 0x82 || op == 0xC0 || op == 0xC1 || op == 0xC2 {
        4
    } else {
        0
    }
}

/// Little-endian value of two bytes.
pub open spec fn le16(b0: u8, b1: u8) -> int {
    b0 as int + 256 * b1 as int
}

/// Little-endian value of four bytes.
pub open spec fn le32(b0: u8, b1: u8, b2: u8, b3: u8) -> int {
    le16(b0, b1) + 65536 * le16(b2, b3)
}

/// Little-endian 32-bit value of the first four bytes of `p`.
pub open spec fn le32_at(p: Seq<u8>, i: int) -> u32 {
    le32(p[i], p[i + 1], p[i + 2], p[i + 3]) as u32
}

/// Little-endian 16-bit value of the two bytes of `p` at `i`.
pub open spec fn le16_at(p: Seq<u8>, i: int) -> u16 {
    le16(p[i], p[i + 1]) as u16
}

/// The command that opcode `op` followed by the parameter bytes `p` denotes.
pub open spec fn command_of(op: u8, p: Seq<u8>) -> Command {
    if op == 0x00 {
        Command::Reset
    } else if op == 0x01 {
        Command::Arm
    } else if op == 0x02 {
        Command::Id
    } else if op == 0x04 {
        Command::GetMetadata
    } else if op == 0x80 {
        Command::SetDivider(le32_at(p, 0))
    } else if op == 0x81 {
        Command::SetReadDelay(le16_at(p, 0), le16_at(p, 2))
    } else if op == 0x82 {
        Command::SetFlags(le32_at(p, 0))
    } else if op == 0xC0 {
        Command::SetTriggerMask(le32_at(p, 0))
    } else if op == 0xC1 {
        Command::SetTriggerValue(le32_at(p, 0))
    } else if op == 0xC2 {
        Command::SetTriggerConf(le32_at(p, 0))
    } else {
        Command::Unknown(op)
    }
}

/// Assembles a 16-bit value from its low byte and high byte.
pub fn le_u16(b0: u8, b1: u8) -> (r: u16)
    ensures
        r as int == le16(b0, b1),
{
    b0 as u16 + 256 * (b1 as u16)
}

/// Assembles a 32-bit value from four bytes, least significant first.
pub fn le_u32(b0: u8, b1: u8, b2: u8, b3: u8) -> (r: u32)
    ensures
        r as int == le32(b0, b1, b2, b3),
{
    let lo = le_u16(b0, b1);
    let hi = le_u16(b2, b3);
    lo as u32 + 65536 * (hi as u32)
}

/// Number of parameter bytes that follow opcode `op`.
pub fn param_len(op: u8) -> (n: usize)
    ensures
        n as nat == payload_len(op),
{
    if op == Cmd::SET_DIVIDER || op == Cmd::SET_READ_DELAY || op == Cmd::SET_FLAGS
        || op == Cmd::SET_TRIGGER_MASK || op == Cmd::SET_TRIGGER_VALUE || op
        == Cmd::SET_TRIGGER_CONF {
        4
    } else {
        0
    }
}

/// Decodes opcode `op` with its parameter bytes, read in wire order.
pub fn decode(op: u8, params: &[u8]) -> (c: Command)
    requires
        params@.len() == payload_len(op),
    ensures
        c == command_of(op, params@),
{
    if op == Cmd::RESET {
        Command::Reset
    } else if op == Cmd::ARM {
        Command::Arm
    } else if op == Cmd::ID {
        Command::Id
    } else if op == Cmd::GET_METADATA {
        Command::GetMetadata
    } else if op == Cmd::SET_READ_DELAY {
        Command::SetReadDelay(le_u16(params[0], params[1]), le_u16(params[2], params[3]))
    } else if param_len(op) == 4 {
        let v = le_u32(params[0], params[1], params[2], params[3]);
        if op == Cmd::SET_DIVIDER {
            Command::SetDivider(v)
        } else if op == Cmd::SET_FLAGS {
            Command::SetFlags(v)
        } else if op == Cmd::SET_TRIGGER_MASK {
            Command::SetTriggerMask(v)
        } else if op == Cmd::SET_TRIGGER_VALUE {
            Command::SetTriggerValue(v)
        } else {
            Command::SetTriggerConf(v)
        }
    } else {
        Command::Unknown(op)
    }
}

/// Decodes the first command of `bytes`. Gives the command and the number of
/// bytes it takes, or `None` when `bytes` does not hold a whole command yet.
pub fn parse(bytes: &[u8]) -> (r: Option<(Command, usize)>)
    ensures
        r is None <==> (bytes@.len() == 0 || bytes@.len() < 1 + payload_len(bytes@[0])),
        r matches Some((c, n)) ==> n == 1 + payload_len(bytes@[0]) && c == command_of(
            bytes@[0],
            bytes@.subrange(1, n as int),
        ),
{
    if bytes.len() == 0 {
        return None;
    }
    let op = bytes[0];
    let n = param_len(op);
    if bytes.len() - 1 < n {
        return None;
    }
    let mut params: Vec<u8> = Vec::new();
    let mut i: usize = 0;
    while i < n
        invariant
            i <= n,
            n == payload_len(op),
            op == bytes@[0],
            1 + n <= bytes@.len(),
            params@ == bytes@.subrange(1, 1 + i as int),
        decreases n - i,
    {
        params.push(bytes[i + 1]);
        i = i + 1;
    }
    let c = decode(op, params.as_slice());
    Some((c, n + 1))
}

} // verus!
