//! The mathematical model of the machine and the meaning of each operation
//! on it. The executable interpreter in `cpu` is proved to follow these
//! definitions exactly.
use crate::isa::{decode_spec, Fault, Instr};
use vstd::prelude::*;

verus! {

/// Bytes of addressable memory.
pub const MEMORY_SIZE: usize = 4096;

/// Address at which a ROM is loaded and execution starts.
pub const PROGRAM_START: u16 = 0x200;

/// Address of the built-in glyph table.
pub const FONT_START: u16 = 0x050;

/// Bytes in the glyph table: sixteen glyphs of five rows each.
pub const FONT_SIZE: usize = 80;

/// Number of general-purpose registers.
pub const REGISTER_COUNT: usize = 16;

/// Depth of the call stack.
pub const STACK_DEPTH: usize = 16;

/// Framebuffer width in pixels; one bit of a row word per column.
pub const DISPLAY_WIDTH: usize = 64;

/// Framebuffer height in rows.
pub const DISPLAY_HEIGHT: usize = 32;

/// The largest ROM that fits above the reserved region.
pub const MAX_ROM_SIZE: usize = 0x0e00;

/// The index of the flag register `VF`.
pub const FLAG: u8 = 0xf;

/// The complete state of the machine.
pub struct Machine {
    pub memory: Seq<u8>,
    pub v: Seq<u8>,
    pub i: u16,
    pub dt: u8,
    pub st: u8,
    pub stack: Seq<u16>,
    pub pc: u16,
    pub sp: u8,
    pub keypad: u16,
    /// Row `r` holds the pixels of screen row `r`; bit `c` is column `c`.
    pub display: Seq<u64>,
    pub draw_flag: bool,
    pub waiting: bool,
    pub wait_reg: u8,
}

/// The sixteen hexadecimal digit glyphs, five rows of four pixels each.
pub open spec fn font_glyphs() -> Seq<u8> {
    seq![
        0xF0, 0x90, 0x90, 0x90, 0xF0, 0x20, 0x60, 0x20, 0x20, 0x70,
        0xF0, 0x10, 0xF0, 0x80, 0xF0, 0xF0, 0x10, 0xF0, 0x10, 0xF0,
        0x90, 0x90, 0xF0, 0x10, 0x10, 0xF0, 0x80, 0xF0, 0x10, 0xF0,
        0xF0, 0x80, 0xF0, 0x90, 0xF0, 0xF0, 0x10, 0x20, 0x40, 0x40,
        0xF0, 0x90, 0xF0, 0x90, 0xF0, 0xF0, 0x90, 0xF0, 0x10, 0xF0,
        0xF0, 0x90, 0xF0, 0x90, 0x90, 0xE0, 0x90, 0xE0, 0x90, 0xE0,
        0xF0, 0x80, 0x80, 0x80, 0xF0, 0xE0, 0x90, 0x90, 0x90, 0xE0,
        0xF0, 0x80, 0xF0, 0x80, 0xF0, 0xF0, 0x80, 0xF0, 0x80, 0x80,
    ]
}

/// Memory at power-on: zero everywhere but the glyph table.
pub open spec fn initial_memory() -> Seq<u8> {
    Seq::new(
        MEMORY_SIZE as nat,
        |a: int|
            if FONT_START <= a < FONT_START + FONT_SIZE {
                font_glyphs()[a - FONT_START]
            } else {
                0u8
            },
    )
}

/// Memory `mem` with the glyph table installed at its fixed place and every
/// other byte kept.
pub open spec fn with_font(mem: Seq<u8>) -> Seq<u8> {
    Seq::new(
        mem.len(),
        |a: int|
            if FONT_START <= a < FONT_START + FONT_SIZE {
                font_glyphs()[a - FONT_START]
            } else {
                mem[a]
            },
    )
}

/// The machine at power-on.
pub open spec fn initial_machine() -> Machine {
    Machine {
        memory: initial_memory(),
        v: Seq::new(REGISTER_COUNT as nat, |k: int| 0u8),
        i: 0,
        dt: 0,
        st: 0,
        stack: Seq::new(STACK_DEPTH as nat, |k: int| 0u16),
        pc: PROGRAM_START,
        sp: 0,
        keypad: 0,
        display: Seq::new(DISPLAY_HEIGHT as nat, |k: int| 0u64),
        draw_flag: false,
        waiting: false,
        wait_reg: 0,
    }
}

/// Whether key `k` is held in keypad bitmask `keypad`; values from 16 up
/// name no key and are never held.
pub open spec fn key_down(keypad: u16, k: u8) -> bool {
    k < 16 && (keypad >> (k as u16)) & 1 == 1
}

/// The framebuffer bit of sprite column `j` (0 = leftmost) of sprite row
/// `b` drawn at horizontal position `vx`, wrapping around the screen.
pub open spec fn sprite_pixel(b: u8, vx: u8, j: u64) -> u64 {
    (((b as u64) >> ((7 - j) as u64)) & 1) << (((vx as u64 + j) % 64) as u64)
}

/// The framebuffer bits of the first `j` columns of sprite row `b` at `vx`.
pub open spec fn sprite_mask_upto(b: u8, vx: u8, j: nat) -> u64
    decreases j,
{
    if j == 0 {
        0
    } else {
        sprite_mask_upto(b, vx, (j - 1) as nat) | sprite_pixel(b, vx, (j - 1) as u64)
    }
}

/// The framebuffer row word that sprite row `b` covers when drawn at `vx`.
pub open spec fn sprite_mask(b: u8, vx: u8) -> u64 {
    sprite_mask_upto(b, vx, 8)
}

/// The screen row on which sprite row `t` lands when drawn at `vy`.
pub open spec fn sprite_row(vy: u8, t: int) -> int {
    (vy + t) % (DISPLAY_HEIGHT as int)
}

/// Drawing the first `k` rows of the sprite at `mem[i..]` at (`vx`, `vy`):
/// the new framebuffer, and whether any set sprite pixel met a set screen
/// pixel.
pub open spec fn draw_rows(d: Seq<u64>, mem: Seq<u8>, i: u16, vx: u8, vy: u8, k: nat) -> (Seq<
    u64,
>, bool)
    decreases k,
{
    if k == 0 {
        (d, false)
    } else {
        let prev = draw_rows(d, mem, i, vx, vy, (k - 1) as nat);
        let row = sprite_row(vy, k - 1);
        let mask = sprite_mask(mem[i + k - 1], vx);
        (prev.0.update(row, prev.0[row] ^ mask), prev.1 || prev.0[row] & mask != 0)
    }
}

/// The sixteen-bit wrapping sum of `a` and `b`.
pub open spec fn add16(a: u16, b: int) -> u16 {
    ((a + b) % 0x10000) as u16
}

impl Machine {
    /// The sizes of memory, registers, stack and framebuffer are fixed, the
    /// stack pointer stays within the stack and the key-wait target names a
    /// register.
    pub open spec fn wf(self) -> bool {
        &&& self.memory.len() == MEMORY_SIZE
        &&& self.v.len() == REGISTER_COUNT
        &&& self.stack.len() == STACK_DEPTH
        &&& self.display.len() == DISPLAY_HEIGHT
        &&& self.sp <= STACK_DEPTH
        &&& self.wait_reg < 16
    }

    /// Moves the program counter on by `k` bytes.
    pub open spec fn advance(self, k: int) -> Machine {
        Machine { pc: add16(self.pc, k), ..self }
    }

    /// Moves on to the next instruction, or past it where `skip` holds.
    pub open spec fn skip_if(self, skip: bool) -> Machine {
        self.advance(if skip { 4 } else { 2 })
    }

    /// Register `x` set to `val`, then the next instruction.
    pub open spec fn set_reg(self, x: u8, val: u8) -> Machine {
        Machine { v: self.v.update(x as int, val), ..self }.advance(2)
    }

    /// Register `x` set to `val` and `VF` to `flag`, in that order, then the
    /// next instruction.
    pub open spec fn set_reg_flag(self, x: u8, val: u8, flag: bool) -> Machine {
        Machine {
            v: self.v.update(x as int, val).update(FLAG as int, if flag { 1u8 } else { 0u8 }),
            ..self
        }.advance(2)
    }

    /// The ROM `rom` copied into memory from the program start; nothing else
    /// changes.
    pub open spec fn with_rom(self, rom: Seq<u8>) -> Machine {
        Machine {
            memory: Seq::new(
                self.memory.len(),
                |a: int|
                    if PROGRAM_START <= a < PROGRAM_START + rom.len() {
                        rom[a - PROGRAM_START]
                    } else {
                        self.memory[a]
                    },
            ),
            ..self
        }
    }

    /// The opcode at the program counter, most significant byte first.
    pub open spec fn fetch_op(self) -> u16 {
        (self.memory[self.pc as int] * 256 + self.memory[self.pc + 1]) as u16
    }

    /// Key `k` pressed: its keypad bit is set and, where the machine waits
    /// for a key, `k` goes to the waiting register and execution resumes.
    pub open spec fn press_key(self, k: u8) -> Machine {
        Machine {
            keypad: self.keypad | (1u16 << (k as u16)),
            v: if self.waiting {
                self.v.update(self.wait_reg as int, k)
            } else {
                self.v
            },
            waiting: false,
            ..self
        }
    }

    /// Key `k` released: its keypad bit is cleared.
    pub open spec fn release_key(self, k: u8) -> Machine {
        Machine { keypad: self.keypad & !(1u16 << (k as u16)), ..self }
    }

    /// One timer tick: each nonzero timer counts down by one.
    pub open spec fn tick(self) -> Machine {
        Machine {
            dt: if self.dt > 0 { (self.dt - 1) as u8 } else { 0 },
            st: if self.st > 0 { (self.st - 1) as u8 } else { 0 },
            ..self
        }
    }

    /// Executes instruction `ins`, encoded as opcode `op`; `rnd` is the
    /// random byte that `Cxkk` uses. A fault, which reports `op` and the
    /// program counter, leaves the machine as it was.
    pub open spec fn exec_instr(self, ins: Instr, op: u16, rnd: u8) -> Result<Machine, Fault> {
        let m = self;
        match ins {
            Instr::Cls => Ok(
                Machine {
                    display: Seq::new(m.display.len(), |r: int| 0u64),
                    draw_flag: true,
                    ..m
                }.advance(2),
            ),
            Instr::Ret => if m.sp == 0 {
                Err(Fault::StackUnderflow { opcode: op, addr: m.pc })
            } else {
                Ok(Machine { sp: (m.sp - 1) as u8, pc: m.stack[m.sp - 1], ..m })
            },
            Instr::Jp { addr } => Ok(Machine { pc: addr, ..m }),
            Instr::Call { addr } => if m.sp >= STACK_DEPTH {
                Err(Fault::StackOverflow { opcode: op, addr: m.pc })
            } else {
                Ok(
                    Machine {
                        stack: m.stack.update(m.sp as int, add16(m.pc, 2)),
                        sp: (m.sp + 1) as u8,
                        pc: addr,
                        ..m
                    },
                )
            },
            Instr::SeByte { x, kk } => Ok(m.skip_if(m.v[x as int] == kk)),
            Instr::SneByte { x, kk } => Ok(m.skip_if(m.v[x as int] != kk)),
            Instr::SeReg { x, y } => Ok(m.skip_if(m.v[x as int] == m.v[y as int])),
            Instr::SneReg { x, y } => Ok(m.skip_if(m.v[x as int] != m.v[y as int])),
            Instr::LdByte { x, kk } => Ok(m.set_reg(x, kk)),
            Instr::AddByte { x, kk } => Ok(m.set_reg(x, ((m.v[x as int] + kk) % 256) as u8)),
            Instr::LdReg { x, y } => Ok(m.set_reg(x, m.v[y as int])),
            Instr::Or { x, y } => Ok(m.set_reg(x, m.v[x as int] | m.v[y as int])),
            Instr::And { x, y } => Ok(m.set_reg(x, m.v[x as int] & m.v[y as int])),
            Instr::Xor { x, y } => Ok(m.set_reg(x, m.v[x as int] ^ m.v[y as int])),
            Instr::AddReg { x, y } => {
                let a = m.v[x as int];
                let b = m.v[y as int];
                Ok(m.set_reg_flag(x, ((a + b) % 256) as u8, a + b > 255))
            },
            Instr::Sub { x, y } => {
                let a = m.v[x as int];
                let b = m.v[y as int];
                Ok(m.set_reg_flag(x, ((a - b + 256) % 256) as u8, a > b))
            },
            Instr::Subn { x, y } => {
                let a = m.v[x as int];
                let b = m.v[y as int];
                Ok(m.set_reg_flag(x, ((b - a + 256) % 256) as u8, b > a))
            },
            Instr::Shr { x } => {
                let a = m.v[x as int];
                Ok(m.set_reg_flag(x, a / 2, a % 2 == 1))
            },
            Instr::Shl { x } => {
                let a = m.v[x as int];
                Ok(m.set_reg_flag(x, ((a * 2) % 256) as u8, a >= 128))
            },
            Instr::LdI { addr } => Ok(Machine { i: addr, ..m }.advance(2)),
            Instr::JpV0 { addr } => Ok(Machine { pc: (addr + m.v[0]) as u16, ..m }),
            Instr::Rnd { x, kk } => Ok(m.set_reg(x, rnd & kk)),
            Instr::Drw { x, y, n } => if m.i + n > MEMORY_SIZE {
                Err(Fault::MemoryOutOfRange { opcode: op, addr: m.pc })
            } else {
                let drawn = draw_rows(m.display, m.memory, m.i, m.v[x as int], m.v[y as int], n as nat);
                Ok(
                    Machine {
                        display: drawn.0,
                        v: m.v.update(FLAG as int, if drawn.1 { 1u8 } else { 0u8 }),
                        draw_flag: true,
                        ..m
                    }.advance(2),
                )
            },
            Instr::Skp { x } => Ok(m.skip_if(key_down(m.keypad, m.v[x as int]))),
            Instr::Sknp { x } => Ok(m.skip_if(!key_down(m.keypad, m.v[x as int]))),
            Instr::LdVxDt { x } => Ok(m.set_reg(x, m.dt)),
            Instr::LdKey { x } => Ok(Machine { waiting: true, wait_reg: x, ..m }.advance(2)),
            Instr::LdDtVx { x } => Ok(Machine { dt: m.v[x as int], ..m }.advance(2)),
            Instr::LdStVx { x } => Ok(Machine { st: m.v[x as int], ..m }.advance(2)),
            Instr::AddI { x } => Ok(Machine { i: add16(m.i, m.v[x as int] as int), ..m }.advance(2)),
            Instr::LdFont { x } => Ok(
                Machine { i: (FONT_START + 5 * (m.v[x as int] % 16)) as u16, ..m }.advance(2),
            ),
            Instr::Bcd { x } => if m.i + 3 > MEMORY_SIZE {
                Err(Fault::MemoryOutOfRange { opcode: op, addr: m.pc })
            } else {
                let a = m.v[x as int];
                Ok(
                    Machine {
                        memory: m.memory.update(m.i as int, a / 100).update(
                            m.i + 1,
                            (a / 10) % 10,
                        ).update(m.i + 2, a % 10),
                        ..m
                    }.advance(2),
                )
            },
            Instr::Store { x } => if m.i + x + 1 > MEMORY_SIZE {
                Err(Fault::MemoryOutOfRange { opcode: op, addr: m.pc })
            } else {
                Ok(
                    Machine {
                        memory: Seq::new(
                            m.memory.len(),
                            |a: int|
                                if m.i <= a <= m.i + x {
                                    m.v[a - m.i]
                                } else {
                                    m.memory[a]
                                },
                        ),
                        ..m
                    }.advance(2),
                )
            },
            Instr::Load { x } => if m.i + x + 1 > MEMORY_SIZE {
                Err(Fault::MemoryOutOfRange { opcode: op, addr: m.pc })
            } else {
                Ok(
                    Machine {
                        v: Seq::new(
                            m.v.len(),
                            |r: int|
                                if r <= x {
                                    m.memory[m.i + r]
                                } else {
                                    m.v[r]
                                },
                        ),
                        ..m
                    }.advance(2),
                )
            },
        }
    }

    /// Decodes and executes opcode `op`.
    pub open spec fn exec_op(self, op: u16, rnd: u8) -> Result<Machine, Fault> {
        match decode_spec(op) {
            Some(ins) => self.exec_instr(ins, op, rnd),
            None => Err(Fault::InvalidOpcode { opcode: op, addr: self.pc }),
        }
    }

    /// One step: nothing while waiting for a key; otherwise fetch the
    /// opcode at the program counter and execute it.
    pub open spec fn step(self, rnd: u8) -> Result<Machine, Fault> {
        if self.waiting {
            Ok(self)
        } else if self.pc + 1 >= MEMORY_SIZE {
            Err(Fault::FetchOutOfRange { addr: self.pc })
        } else {
            self.exec_op(self.fetch_op(), rnd)
        }
    }
}

} // verus!
