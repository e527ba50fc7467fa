//! The instruction set: opcode fields, the decoded instruction form and the
//! faults that stop the machine.
use vstd::prelude::*;

verus! {

/// A fatal condition met while executing; `addr` is the address of the
/// instruction that caused it.
#[derive(Clone, Copy, Debug, PartialEq, Eq, Structural)]
pub enum Fault {
    /// The opcode matches no instruction of its family.
    InvalidOpcode { opcode: u16, addr: u16 },
    /// A call with all sixteen stack frames in use.
    StackOverflow { opcode: u16, addr: u16 },
    /// A return with no stack frame to pop.
    StackUnderflow { opcode: u16, addr: u16 },
    /// A sprite read, BCD store or register transfer reaching past the last
    /// memory address.
    MemoryOutOfRange { opcode: u16, addr: u16 },
    /// The program counter leaves no room for a two-byte opcode before the
    /// end of memory.
    FetchOutOfRange { addr: u16 },
    /// A ROM of `len` bytes does not fit above the reserved region.
    RomTooLarge { len: usize },
}

/// A decoded instruction. Register operands `x` and `y` are below 16,
/// addresses below 4096, and `n` (sprite height) below 16.
#[derive(Clone, Copy, Debug, PartialEq, Eq, Structural)]
pub enum Instr {
    /// `00E0`: clear the display.
    Cls,
    /// `00EE`: return from a subroutine.
    Ret,
    /// `1nnn`: jump to `addr`.
    Jp { addr: u16 },
    /// `2nnn`: call the subroutine at `addr`.
    Call { addr: u16 },
    /// `3xkk`: skip the next instruction if `Vx == kk`.
    SeByte { x: u8, kk: u8 },
    /// `4xkk`: skip the next instruction if `Vx != kk`.
    SneByte { x: u8, kk: u8 },
    /// `5xy0`: skip the next instruction if `Vx == Vy`.
    SeReg { x: u8, y: u8 },
    /// `6xkk`: `Vx = kk`.
    LdByte { x: u8, kk: u8 },
    /// `7xkk`: `Vx = Vx + kk`, wrapping, flag untouched.
    AddByte { x: u8, kk: u8 },
    /// `8xy0`: `Vx = Vy`.
    LdReg { x: u8, y: u8 },
    /// `8xy1`: `Vx = Vx | Vy`.
    Or { x: u8, y: u8 },
    /// `8xy2`: `Vx = Vx & Vy`.
    And { x: u8, y: u8 },
    /// `8xy3`: `Vx = Vx ^ Vy`.
    Xor { x: u8, y: u8 },
    /// `8xy4`: `Vx = Vx + Vy`, `VF` = carry.
    AddReg { x: u8, y: u8 },
    /// `8xy5`: `Vx = Vx - Vy`, `VF` = (Vx > Vy).
    Sub { x: u8, y: u8 },
    /// `8xy6`: `Vx = Vx >> 1`, `VF` = the bit shifted out.
    Shr { x: u8 },
    /// `8xy7`: `Vx = Vy - Vx`, `VF` = (Vy > Vx).
    Subn { x: u8, y: u8 },
    /// `8xyE`: `Vx = Vx << 1`, `VF` = the bit shifted out.
    Shl { x: u8 },
    /// `9xy0`: skip the next instruction if `Vx != Vy`.
    SneReg { x: u8, y: u8 },
    /// `Annn`: `I = addr`.
    LdI { addr: u16 },
    /// `Bnnn`: jump to `addr + V0`.
    JpV0 { addr: u16 },
    /// `Cxkk`: `Vx = random byte & kk`.
    Rnd { x: u8, kk: u8 },
    /// `Dxyn`: draw the `n`-row sprite at `I` at (`Vx`, `Vy`).
    Drw { x: u8, y: u8, n: u8 },
    /// `Ex9E`: skip the next instruction if key `Vx` is down.
    Skp { x: u8 },
    /// `ExA1`: skip the next instruction if key `Vx` is up.
    Sknp { x: u8 },
    /// `Fx07`: `Vx = DT`.
    LdVxDt { x: u8 },
    /// `Fx0A`: wait for a key press and store it in `Vx`.
    LdKey { x: u8 },
    /// `Fx15`: `DT = Vx`.
    LdDtVx { x: u8 },
    /// `Fx18`: `ST = Vx`.
    LdStVx { x: u8 },
    /// `Fx1E`: `I = I + Vx`.
    AddI { x: u8 },
    /// `Fx29`: `I` = address of the glyph for digit `Vx & 0xF`.
    LdFont { x: u8 },
    /// `Fx33`: store the decimal digits of `Vx` at `I`, `I+1`, `I+2`.
    Bcd { x: u8 },
    /// `Fx55`: store `V0..=Vx` at `I..`.
    Store { x: u8 },
    /// `Fx65`: load `V0..=Vx` from `I..`.
    Load { x: u8 },
}

/// Nibble `index` (0 = least significant) of `value`.
pub open spec fn nibble(value: u16, index: u8) -> u8 {
    ((value >> (4 * index) as u16) & 0x000f) as u8
}

/// The low twelve bits of an opcode.
pub open spec fn op_addr(op: u16) -> u16 {
    op & 0x0fff
}

/// The low byte of an opcode.
pub open spec fn op_kk(op: u16) -> u8 {
    (op & 0x00ff) as u8
}

/// The instruction that opcode `op` encodes, if any.
pub open spec fn decode_spec(op: u16) -> Option<Instr> {
    let x = nibble(op, 2);
    let y = nibble(op, 1);
    let n = nibble(op, 0);
    let kk = op_kk(op);
    let addr = op_addr(op);
    match nibble(op, 3) {
        0x0 => if op == 0x00e0 {
            Some(Instr::Cls)
        } else if op == 0x00ee {
            Some(Instr::Ret)
        } else {
            None
        },
        0x1 => Some(Instr::Jp { addr }),
        0x2 => Some(Instr::Call { addr }),
        0x3 => Some(Instr::SeByte { x, kk }),
        0x4 => Some(Instr::SneByte { x, kk }),
        0x5 => if n == 0 {
            Some(Instr::SeReg { x, y })
        } else {
            None
        },
        0x6 => Some(Instr::LdByte { x, kk }),
        0x7 => Some(Instr::AddByte { x, kk }),
        0x8 => match n {
            0x0 => Some(Instr::LdReg { x, y }),
            0x1 => Some(Instr::Or { x, y }),
            0x2 => Some(Instr::And { x, y }),
            0x3 => Some(Instr::Xor { x, y }),
            0x4 => Some(Instr::AddReg { x, y }),
            0x5 => Some(Instr::Sub { x, y }),
            0x6 => Some(Instr::Shr { x }),
            0x7 => Some(Instr::Subn { x, y }),
            0xe => Some(Instr::Shl { x }),
            _ => None,
        },
        0x9 => if n == 0 {
            Some(Instr::SneReg { x, y })
        } else {
            None
        },
        0xa => Some(Instr::LdI { addr }),
        0xb => Some(Instr::JpV0 { addr }),
        0xc => Some(Instr::Rnd { x, kk }),
        0xd => Some(Instr::Drw { x, y, n }),
        0xe => if kk == 0x9e {
            Some(Instr::Skp { x })
        } else if kk == 0xa1 {
            Some(Instr::Sknp { x })
        } else {
            None
        },
        0xf => match kk {
            0x07 => Some(Instr::LdVxDt { x }),
            0x0a => Some(Instr::LdKey { x }),
            0x15 => Some(Instr::LdDtVx { x }),
            0x18 => Some(Instr::LdStVx { x }),
            0x1e => Some(Instr::AddI { x }),
            0x29 => Some(Instr::LdFont { x }),
            0x33 => Some(Instr::Bcd { x }),
            0x55 => Some(Instr::Store { x }),
            0x65 => Some(Instr::Load { x }),
            _ => None,
        },
        _ => None,
    }
}

impl Instr {
    /// Operands are in range: registers below 16, addresses below 4096,
    /// sprite heights below 16.
    pub open spec fn wf(self) -> bool {
        match self {
            Instr::Jp { addr } | Instr::Call { addr } | Instr::LdI { addr } | Instr::JpV0 {
                addr,
            } => addr < 4096,
            Instr::SeByte { x, .. } | Instr::SneByte { x, .. } | Instr::LdByte { x, .. }
            | Instr::AddByte { x, .. } | Instr::Rnd { x, .. } | Instr::Shr { x } | Instr::Shl {
                x,
            } | Instr::Skp { x } | Instr::Sknp { x } | Instr::LdVxDt { x } | Instr::LdKey { x }
            | Instr::LdDtVx { x } | Instr::LdStVx { x } | Instr::AddI { x } | Instr::LdFont { x }
            | Instr::Bcd { x } | Instr::Store { x } | Instr::Load { x } => x < 16,
            Instr::SeReg { x, y } | Instr::SneReg { x, y } | Instr::LdReg { x, y } | Instr::Or {
                x,
                y,
            } | Instr::And { x, y } | Instr::Xor { x, y } | Instr::AddReg { x, y } | Instr::Sub {
                x,
                y,
            } | Instr::Subn { x, y } => x < 16 && y < 16,
            Instr::Drw { x, y, n } => x < 16 && y < 16 && n < 16,
            Instr::Cls | Instr::Ret => true,
        }
    }
}

/// Every nibble is below 16.
pub proof fn lemma_nibble_bound(value: u16, index: u8)
    requires
        index < 4,
    ensures
        nibble(value, index) < 16,
{
    let s: u16 = (4 * index) as u16;
    assert((value >> s) & 0x000f < 16) by (bit_vector);
}

fn get_nibble(value: u16, index: u8) -> (r: u8)
    requires
        index < 4,
    ensures
        r == nibble(value, index),
        r < 16,
{
    let s: u16 = (4 * index) as u16;
    assert((value >> s) & 0x000f < 16) by (bit_vector);
    ((value >> s) & 0x000f) as u8
}

fn get_addr(value: u16) -> (r: u16)
    ensures
        r == op_addr(value),
        r < 4096,
{
    assert(value & 0x0fff < 4096) by (bit_vector);
    value & 0x0fff
}

fn get_kk(value: u16) -> (r: u8)
    ensures
        r == op_kk(value),
{
    (value & 0x00ff) as u8
}

/// Decodes a 16-bit opcode; `None` for an opcode that matches no instruction
/// of its family.
pub fn decode(opcode: u16) -> (r: Option<Instr>)
    ensures
        r == decode_spec(opcode),
        r matches Some(ins) ==> ins.wf(),
{
    let family = get_nibble(opcode, 3);
    let x = get_nibble(opcode, 2);
    let y = get_nibble(opcode, 1);
    let n = get_nibble(opcode, 0);
    let kk = get_kk(opcode);
    let addr = get_addr(opcode);
    match family {
        0x0 => if opcode == 0x00e0 {
            Some(Instr::Cls)
        } else if opcode == 0x00ee {
            Some(Instr::Ret)
        } else {
            None
        },
        0x1 => Some(Instr::Jp { addr }),
        0x2 => Some(Instr::Call { addr }),
        0x3 => Some(Instr::SeByte { x, kk }),
        0x4 => Some(Instr::SneByte { x, kk }),
        0x5 => if n == 0 {
            Some(Instr::SeReg { x, y })
        } else {
            None
        },
        0x6 => Some(Instr::LdByte { x, kk }),
        0x7 => Some(Instr::AddByte { x, kk }),
        0x8 => match n {
            0x0 => Some(Instr::LdReg { x, y }),
            0x1 => Some(Instr::Or { x, y }),
            0x2 => Some(Instr::And { x, y }),
            0x3 => Some(Instr::Xor { x, y }),
            0x4 => Some(Instr::AddReg { x, y }),
            0x5 => Some(Instr::Sub { x, y }),
            0x6 => Some(Instr::Shr { x }),
            0x7 => Some(Instr::Subn { x, y }),
            0xe => Some(Instr::Shl { x }),
            _ => None,
        },
        0x9 => if n == 0 {
            Some(Instr::SneReg { x, y })
        } else {
            None
        },
        0xa => Some(Instr::LdI { addr }),
        0xb => Some(Instr::JpV0 { addr }),
        0xc => Some(Instr::Rnd { x, kk }),
        0xd => Some(Instr::Drw { x, y, n }),
        0xe => if kk == 0x9e {
            Some(Instr::Skp { x })
        } else if kk == 0xa1 {
            Some(Instr::Sknp { x })
        } else {
            None
        },
        0xf => match kk {
            0x07 => Some(Instr::LdVxDt { x }),
            0x0a => Some(Instr::LdKey { x }),
            0x15 => Some(Instr::LdDtVx { x }),
            0x18 => Some(Instr::LdStVx { x }),
            0x1e => Some(Instr::AddI { x }),
            0x29 => Some(Instr::LdFont { x }),
            0x33 => Some(Instr::Bcd { x }),
            0x55 => Some(Instr::Store { x }),
            0x65 => Some(Instr::Load { x }),
            _ => None,
        },
        _ => None,
    }
}

} // verus!
