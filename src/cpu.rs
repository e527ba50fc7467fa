//! The executable interpreter.
use crate::isa::{decode, Fault, Instr};
use crate::machine::{
    draw_rows, font_glyphs, with_font, DISPLAY_WIDTH, sprite_mask, sprite_mask_upto, initial_machine, initial_memory, Machine, DISPLAY_HEIGHT, FONT_SIZE, FONT_START,
    FLAG, MAX_ROM_SIZE, MEMORY_SIZE, PROGRAM_START, REGISTER_COUNT, STACK_DEPTH,
};
use rand::Rng;
use vstd::prelude::*;

verus! {

/// The machine state, owned by the interpreter.
pub struct C8Cpu {
    memory: Vec<u8>,
    v: Vec<u8>,
    i: u16,
    dt: u8,
    st: u8,
    stack: Vec<u16>,
    pc: u16,
    sp: u8,
    keypad: u16,
    display: Vec<u64>,
    draw_flag: bool,
    waiting_for_key: bool,
    waiting_for_key_register: u8,
}

/// The framebuffer row word covered by sprite row `b` drawn at `vx`.
fn sprite_row_mask(b: u8, vx: u8) -> (r: u64)
    ensures
        r == sprite_mask(b, vx),
{
    let mut mask: u64 = 0;
    let mut j: u64 = 0;
    while j < 8
        invariant
            j <= 8,
            mask == sprite_mask_upto(b, vx, j as nat),
        decreases 8 - j,
    {
        let bit: u64 = ((b as u64) >> (7 - j)) & 1;
        let col: u64 = ((vx as u64) + j) % 64;
        mask = mask | (bit << col);
        j += 1;
    }
    mask
}

/// XORs the `n`-row sprite at `memory[i..]` onto `display` at (`vx`, `vy`);
/// returns whether a set sprite pixel met a set screen pixel.
fn draw_sprite(display: &mut Vec<u64>, memory: &Vec<u8>, i: u16, vx: u8, vy: u8, n: u8) -> (r:
    bool)
    requires
        old(display)@.len() == DISPLAY_HEIGHT,
        memory@.len() == MEMORY_SIZE,
        i + n <= MEMORY_SIZE,
    ensures
        (final(display)@, r) == draw_rows(old(display)@, memory@, i, vx, vy, n as nat),
        final(display)@.len() == DISPLAY_HEIGHT,
{
    let ghost d0 = display@;
    let mut collided = false;
    let mut t: u8 = 0;
    while t < n
        invariant
            t <= n,
            i + n <= MEMORY_SIZE,
            memory@.len() == MEMORY_SIZE,
            display@.len() == DISPLAY_HEIGHT,
            (display@, collided) == draw_rows(d0, memory@, i, vx, vy, t as nat),
        decreases n - t,
    {
        let mask = sprite_row_mask(memory[i as usize + t as usize], vx);
        let row = (vy as usize + t as usize) % DISPLAY_HEIGHT;
        let old_row = display[row];
        if old_row & mask != 0 {
            collided = true;
        }
        display.set(row, old_row ^ mask);
        t += 1;
    }
    collided
}

/// Copies registers `V0..=Vx` to `memory[i..]`.
fn store_registers(memory: &mut Vec<u8>, v: &Vec<u8>, i: usize, x: usize)
    requires
        old(memory)@.len() == MEMORY_SIZE,
        v@.len() == REGISTER_COUNT,
        x < REGISTER_COUNT,
        i + x + 1 <= MEMORY_SIZE,
    ensures
        final(memory)@ == Seq::new(
            old(memory)@.len(),
            |a: int|
                if i <= a <= i + x {
                    v@[a - i]
                } else {
                    old(memory)@[a]
                },
        ),
{
    let ghost m0 = memory@;
    let mut k: usize = 0;
    while k <= x
        invariant
            k <= x + 1,
            x < REGISTER_COUNT,
            i + x + 1 <= MEMORY_SIZE,
            v@.len() == REGISTER_COUNT,
            memory@.len() == MEMORY_SIZE,
            forall|a: int|
                0 <= a < MEMORY_SIZE ==> #[trigger] memory@[a] == if i <= a < i + k {
                    v@[a - i]
                } else {
                    m0[a]
                },
        decreases x + 1 - k,
    {
        memory.set(i + k, v[k]);
        k += 1;
    }
    assert(memory@ =~= Seq::new(
        m0.len(),
        |a: int|
            if i <= a <= i + x {
                v@[a - i]
            } else {
                m0[a]
            },
    ));
}

/// Fills registers `V0..=Vx` from `memory[i..]`.
fn load_registers(v: &mut Vec<u8>, memory: &Vec<u8>, i: usize, x: usize)
    requires
        memory@.len() == MEMORY_SIZE,
        old(v)@.len() == REGISTER_COUNT,
        x < REGISTER_COUNT,
        i + x + 1 <= MEMORY_SIZE,
    ensures
        final(v)@ == Seq::new(
            old(v)@.len(),
            |r: int|
                if r <= x {
                    memory@[i + r]
                } else {
                    old(v)@[r]
                },
        ),
{
    let ghost v0 = v@;
    let mut k: usize = 0;
    while k <= x
        invariant
            k <= x + 1,
            x < REGISTER_COUNT,
            i + x + 1 <= MEMORY_SIZE,
            memory@.len() == MEMORY_SIZE,
            v@.len() == REGISTER_COUNT,
            forall|r: int|
                0 <= r < REGISTER_COUNT ==> #[trigger] v@[r] == if r < k {
                    memory@[i + r]
                } else {
                    v0[r]
                },
        decreases x + 1 - k,
    {
        v.set(k, memory[i + k]);
        k += 1;
    }
    assert(v@ =~= Seq::new(
        v0.len(),
        |r: int|
            if r <= x {
                memory@[i + r]
            } else {
                v0[r]
            },
    ));
}

/// The outcome of an operation as a result over machine states: the state
/// `after` on success, the fault otherwise.
pub open spec fn outcome(r: Result<(), Fault>, after: Machine) -> Result<Machine, Fault> {
    match r {
        Ok(()) => Ok(after),
        Err(e) => Err(e),
    }
}

/// Relies on rand::thread_rng and Rng::gen::<u8>: a byte from the
/// thread-local generator; nothing is known of its value.
#[verifier::external_body]
fn random_byte() -> u8 {
    rand::thread_rng().gen::<u8>()
}

impl View for C8Cpu {
    type V = Machine;

    closed spec fn view(&self) -> Machine {
        Machine {
            memory: self.memory@,
            v: self.v@,
            i: self.i,
            dt: self.dt,
            st: self.st,
            stack: self.stack@,
            pc: self.pc,
            sp: self.sp,
            keypad: self.keypad,
            display: self.display@,
            draw_flag: self.draw_flag,
            waiting: self.waiting_for_key,
            wait_reg: self.waiting_for_key_register,
        }
    }
}

impl C8Cpu {
    pub open spec fn wf(&self) -> bool {
        self@.wf()
    }

    /// A machine at power-on: all zero but the glyph table, program counter
    /// at the program start.
    pub fn new() -> (r: Self)
        ensures
            r.wf(),
            r@ == initial_machine(),
    {
        let mut cpu = C8Cpu {
            memory: vec![0u8; MEMORY_SIZE],
            v: vec![0u8; REGISTER_COUNT],
            i: 0,
            dt: 0,
            st: 0,
            stack: vec![0u16; STACK_DEPTH],
            pc: PROGRAM_START,
            sp: 0,
            keypad: 0,
            display: vec![0u64; DISPLAY_HEIGHT],
            draw_flag: false,
            waiting_for_key: false,
            waiting_for_key_register: 0,
        };
        assert(cpu.v@ =~= initial_machine().v);
        assert(cpu.stack@ =~= initial_machine().stack);
        assert(cpu.display@ =~= initial_machine().display);
        cpu.load_fontset();
        assert(cpu.memory@ =~= initial_memory());
        cpu
    }

    /// Installs the glyph table at its fixed place in the reserved region;
    /// every other byte and field is kept.
    fn load_fontset(&mut self)
        requires
            old(self).wf(),
        ensures
            final(self)@ == (Machine { memory: with_font(old(self)@.memory), ..old(self)@ }),
    {
        let glyphs: Vec<u8> = vec![
            0xF0, 0x90, 0x90, 0x90, 0xF0, 0x20, 0x60, 0x20, 0x20, 0x70,
            0xF0, 0x10, 0xF0, 0x80, 0xF0, 0xF0, 0x10, 0xF0, 0x10, 0xF0,
            0x90, 0x90, 0xF0, 0x10, 0x10, 0xF0, 0x80, 0xF0, 0x10, 0xF0,
            0xF0, 0x80, 0xF0, 0x90, 0xF0, 0xF0, 0x10, 0x20, 0x40, 0x40,
            0xF0, 0x90, 0xF0, 0x90, 0xF0, 0xF0, 0x90, 0xF0, 0x10, 0xF0,
            0xF0, 0x90, 0xF0, 0x90, 0x90, 0xE0, 0x90, 0xE0, 0x90, 0xE0,
            0xF0, 0x80, 0x80, 0x80, 0xF0, 0xE0, 0x90, 0x90, 0x90, 0xE0,
            0xF0, 0x80, 0xF0, 0x80, 0xF0, 0xF0, 0x80, 0xF0, 0x80, 0x80,
        ];
        assert(glyphs@ =~= font_glyphs());
        let ghost m0 = self.memory@;
        let mut k: usize = 0;
        while k < FONT_SIZE
            invariant
                k <= FONT_SIZE,
                glyphs@ == font_glyphs(),
                m0.len() == MEMORY_SIZE,
                self.memory@.len() == MEMORY_SIZE,
                self@ == (Machine { memory: self.memory@, ..old(self)@ }),
                forall|a: int|
                    0 <= a < MEMORY_SIZE ==> #[trigger] self.memory@[a] == if FONT_START <= a
                        < FONT_START + k {
                        font_glyphs()[a - FONT_START]
                    } else {
                        m0[a]
                    },
            decreases FONT_SIZE - k,
        {
            self.memory.set(FONT_START as usize + k, glyphs[k]);
            k += 1;
        }
        assert(self.memory@ =~= with_font(m0));
    }

    /// Copies `rom` into memory from the program start, leaving everything
    /// else as it was. A ROM longer than the space above the reserved region
    /// is refused before anything changes.
    pub fn load_rom(&mut self, rom: Vec<u8>) -> (r: Result<(), Fault>)
        requires
            old(self).wf(),
        ensures
            final(self).wf(),
            rom.len() <= MAX_ROM_SIZE ==> r is Ok && final(self)@ == old(self)@.with_rom(rom@),
            rom.len() > MAX_ROM_SIZE ==> r == Err::<(), Fault>(Fault::RomTooLarge { len: rom.len() })
                && final(self)@ == old(self)@,
    {
        if rom.len() > MAX_ROM_SIZE {
            return Err(Fault::RomTooLarge { len: rom.len() });
        }
        let ghost before = self@;
        let mut k: usize = 0;
        while k < rom.len()
            invariant
                k <= rom.len() <= MAX_ROM_SIZE,
                self.memory@.len() == MEMORY_SIZE,
                self@ == (Machine { memory: self.memory@, ..before }),
                forall|a: int|
                    0 <= a < MEMORY_SIZE ==> #[trigger] self.memory@[a] == if PROGRAM_START <= a
                        < PROGRAM_START + k {
                        rom@[a - PROGRAM_START]
                    } else {
                        before.memory[a]
                    },
            decreases rom.len() - k,
        {
            self.memory.set(PROGRAM_START as usize + k, rom[k]);
            k += 1;
        }
        assert(self.memory@ =~= before.with_rom(rom@).memory);
        Ok(())
    }
    fn inc_pc(&mut self)
        ensures
            final(self)@ == old(self)@.advance(2),
    {
        self.pc = ((self.pc as u32 + 2) % 0x10000) as u16;
    }

    fn skip_if(&mut self, skip: bool)
        ensures
            final(self)@ == old(self)@.skip_if(skip),
    {
        let k: u32 = if skip { 4 } else { 2 };
        self.pc = ((self.pc as u32 + k) % 0x10000) as u16;
    }

    fn set_reg(&mut self, x: u8, val: u8)
        requires
            old(self).wf(),
            x < 16,
        ensures
            final(self)@ == old(self)@.set_reg(x, val),
    {
        self.v.set(x as usize, val);
        self.inc_pc();
    }

    fn set_reg_flag(&mut self, x: u8, val: u8, flag: bool)
        requires
            old(self).wf(),
            x < 16,
        ensures
            final(self)@ == old(self)@.set_reg_flag(x, val, flag),
    {
        self.v.set(x as usize, val);
        self.v.set(FLAG as usize, if flag { 1 } else { 0 });
        self.inc_pc();
    }

    fn cls(&mut self)
        requires
            old(self).wf(),
        ensures
            final(self)@ == (Machine {
                display: Seq::new(old(self)@.display.len(), |r: int| 0u64),
                draw_flag: true,
                ..old(self)@
            }),
    {
        let mut r: usize = 0;
        while r < DISPLAY_HEIGHT
            invariant
                r <= DISPLAY_HEIGHT,
                self.display@.len() == DISPLAY_HEIGHT,
                self@ == (Machine { display: self.display@, ..old(self)@ }),
                forall|k: int| 0 <= k < r ==> #[trigger] self.display@[k] == 0u64,
            decreases DISPLAY_HEIGHT - r,
        {
            self.display.set(r, 0);
            r += 1;
        }
        assert(self.display@ =~= Seq::new(old(self)@.display.len(), |r: int| 0u64));
        self.draw_flag = true;
    }

    /// Executes instruction `ins`, decoded from `op`, with `rnd` as the
    /// random byte.
    fn run(&mut self, ins: Instr, op: u16, rnd: u8) -> (r: Result<(), Fault>)
        requires
            old(self).wf(),
            ins.wf(),
        ensures
            final(self).wf(),
            match r {
                Ok(()) => old(self)@.exec_instr(ins, op, rnd) == Ok::<Machine, Fault>(final(self)@),
                Err(e) => old(self)@.exec_instr(ins, op, rnd) == Err::<Machine, Fault>(e)
                    && final(self)@ == old(self)@,
            },
    {
        match ins {
            Instr::Cls => {
                self.cls();
                self.inc_pc();
            },
            Instr::Ret => {
                if self.sp == 0 {
                    return Err(Fault::StackUnderflow { opcode: op, addr: self.pc });
                }
                self.sp = self.sp - 1;
                self.pc = self.stack[self.sp as usize];
            },
            Instr::Jp { addr } => {
                self.pc = addr;
            },
            Instr::Call { addr } => {
                if self.sp as usize >= STACK_DEPTH {
                    return Err(Fault::StackOverflow { opcode: op, addr: self.pc });
                }
                let ret = ((self.pc as u32 + 2) % 0x10000) as u16;
                self.stack.set(self.sp as usize, ret);
                self.sp = self.sp + 1;
                self.pc = addr;
            },
            Instr::SeByte { x, kk } => {
                let c = self.v[x as usize] == kk;
                self.skip_if(c);
            },
            Instr::SneByte { x, kk } => {
                let c = self.v[x as usize] != kk;
                self.skip_if(c);
            },
            Instr::SeReg { x, y } => {
                let c = self.v[x as usize] == self.v[y as usize];
                self.skip_if(c);
            },
            Instr::SneReg { x, y } => {
                let c = self.v[x as usize] != self.v[y as usize];
                self.skip_if(c);
            },
            Instr::LdByte { x, kk } => {
                self.set_reg(x, kk);
            },
            Instr::AddByte { x, kk } => {
                let val = ((self.v[x as usize] as u16 + kk as u16) % 256) as u8;
                self.set_reg(x, val);
            },
            Instr::LdReg { x, y } => {
                let val = self.v[y as usize];
                self.set_reg(x, val);
            },
            Instr::Or { x, y } => {
                let val = self.v[x as usize] | self.v[y as usize];
                self.set_reg(x, val);
            },
            Instr::And { x, y } => {
                let val = self.v[x as usize] & self.v[y as usize];
                self.set_reg(x, val);
            },
            Instr::Xor { x, y } => {
                let val = self.v[x as usize] ^ self.v[y as usize];
                self.set_reg(x, val);
            },
            Instr::AddReg { x, y } => {
                let a = self.v[x as usize] as u16;
                let b = self.v[y as usize] as u16;
                self.set_reg_flag(x, ((a + b) % 256) as u8, a + b > 255);
            },
            Instr::Sub { x, y } => {
                let a = self.v[x as usize] as u16;
                let b = self.v[y as usize] as u16;
                self.set_reg_flag(x, ((a + 256 - b) % 256) as u8, a > b);
            },
            Instr::Subn { x, y } => {
                let a = self.v[x as usize] as u16;
                let b = self.v[y as usize] as u16;
                self.set_reg_flag(x, ((b + 256 - a) % 256) as u8, b > a);
            },
            Instr::Shr { x } => {
                let a = self.v[x as usize];
                self.set_reg_flag(x, a / 2, a % 2 == 1);
            },
            Instr::Shl { x } => {
                let a = self.v[x as usize];
                self.set_reg_flag(x, ((a as u16 * 2) % 256) as u8, a >= 128);
            },
            Instr::LdI { addr } => {
                self.i = addr;
                self.inc_pc();
            },
            Instr::JpV0 { addr } => {
                self.pc = addr + self.v[0] as u16;
            },
            Instr::Rnd { x, kk } => {
                self.set_reg(x, rnd & kk);
            },
            Instr::Drw { x, y, n } => {
                if self.i as usize + n as usize > MEMORY_SIZE {
                    return Err(Fault::MemoryOutOfRange { opcode: op, addr: self.pc });
                }
                let vx = self.v[x as usize];
                let vy = self.v[y as usize];
                let collided = draw_sprite(&mut self.display, &self.memory, self.i, vx, vy, n);
                self.v.set(FLAG as usize, if collided { 1 } else { 0 });
                self.draw_flag = true;
                self.inc_pc();
            },
            Instr::Skp { x } => {
                let k = self.v[x as usize];
                let down = k < 16 && (self.keypad >> (k as u16)) & 1 == 1;
                self.skip_if(down);
            },
            Instr::Sknp { x } => {
                let k = self.v[x as usize];
                let down = k < 16 && (self.keypad >> (k as u16)) & 1 == 1;
                self.skip_if(!down);
            },
            Instr::LdVxDt { x } => {
                let val = self.dt;
                self.set_reg(x, val);
            },
            Instr::LdKey { x } => {
                self.waiting_for_key = true;
                self.waiting_for_key_register = x;
                self.inc_pc();
            },
            Instr::LdDtVx { x } => {
                self.dt = self.v[x as usize];
                self.inc_pc();
            },
            Instr::LdStVx { x } => {
                self.st = self.v[x as usize];
                self.inc_pc();
            },
            Instr::AddI { x } => {
                self.i = ((self.i as u32 + self.v[x as usize] as u32) % 0x10000) as u16;
                self.inc_pc();
            },
            Instr::LdFont { x } => {
                self.i = FONT_START + 5 * ((self.v[x as usize] % 16) as u16);
                self.inc_pc();
            },
            Instr::Bcd { x } => {
                if self.i as usize + 3 > MEMORY_SIZE {
                    return Err(Fault::MemoryOutOfRange { opcode: op, addr: self.pc });
                }
                let a = self.v[x as usize];
                let at = self.i as usize;
                self.memory.set(at, a / 100);
                self.memory.set(at + 1, (a / 10) % 10);
                self.memory.set(at + 2, a % 10);
                self.inc_pc();
            },
            Instr::Store { x } => {
                if self.i as usize + x as usize + 1 > MEMORY_SIZE {
                    return Err(Fault::MemoryOutOfRange { opcode: op, addr: self.pc });
                }
                store_registers(&mut self.memory, &self.v, self.i as usize, x as usize);
                self.inc_pc();
            },
            Instr::Load { x } => {
                if self.i as usize + x as usize + 1 > MEMORY_SIZE {
                    return Err(Fault::MemoryOutOfRange { opcode: op, addr: self.pc });
                }
                load_registers(&mut self.v, &self.memory, self.i as usize, x as usize);
                self.inc_pc();
            },
        }
        Ok(())
    }
    fn fetch(&self) -> (r: u16)
        requires
            self.wf(),
            self.pc + 1 < MEMORY_SIZE,
        ensures
            r == self@.fetch_op(),
    {
        let pc = self.pc as usize;
        (self.memory[pc] as u16) * 256 + (self.memory[pc + 1] as u16)
    }

    /// Decodes and executes `opcode` as if it stood at the program counter,
    /// with `random` as the byte that `Cxkk` draws. On a fault nothing
    /// changes.
    pub fn execute(&mut self, opcode: u16, random: u8) -> (r: Result<(), Fault>)
        requires
            old(self).wf(),
        ensures
            final(self).wf(),
            old(self)@.exec_op(opcode, random) == outcome(r, final(self)@),
            r is Err ==> final(self)@ == old(self)@,
    {
        match decode(opcode) {
            Some(ins) => self.run(ins, opcode, random),
            None => Err(Fault::InvalidOpcode { opcode, addr: self.pc }),
        }
    }

    /// One fetch-decode-execute cycle with `random` as the byte that `Cxkk`
    /// draws. While the machine waits for a key nothing happens; a fault
    /// changes nothing.
    pub fn step_with(&mut self, random: u8) -> (r: Result<(), Fault>)
        requires
            old(self).wf(),
        ensures
            final(self).wf(),
            old(self)@.step(random) == outcome(r, final(self)@),
            r is Err ==> final(self)@ == old(self)@,
    {
        if self.waiting_for_key {
            return Ok(());
        }
        if self.pc as usize + 1 >= MEMORY_SIZE {
            return Err(Fault::FetchOutOfRange { addr: self.pc });
        }
        let opcode = self.fetch();
        self.execute(opcode, random)
    }

    /// One fetch-decode-execute cycle, drawing the random byte for `Cxkk`
    /// from the thread-local generator. The result is that of a cycle for
    /// some byte.
    pub fn single_cycle(&mut self) -> (r: Result<(), Fault>)
        requires
            old(self).wf(),
        ensures
            final(self).wf(),
            exists|random: u8| #[trigger] old(self)@.step(random) == outcome(r, final(self)@),
            r is Err ==> final(self)@ == old(self)@,
    {
        let random = random_byte();
        let r = self.step_with(random);
        assert(old(self)@.step(random) == outcome(r, self@));
        r
    }

    /// Marks key `k` as held; where the machine waits for a key, `k` goes to
    /// the waiting register and execution resumes.
    pub fn set_key(&mut self, k: u8)
        requires
            old(self).wf(),
            k < 16,
        ensures
            final(self).wf(),
            final(self)@ == old(self)@.press_key(k),
    {
        self.keypad = self.keypad | (1u16 << (k as u16));
        if self.waiting_for_key {
            self.v.set(self.waiting_for_key_register as usize, k);
        }
        self.waiting_for_key = false;
    }

    /// Marks key `k` as released.
    pub fn release_key(&mut self, k: u8)
        requires
            old(self).wf(),
            k < 16,
        ensures
            final(self).wf(),
            final(self)@ == old(self)@.release_key(k),
    {
        self.keypad = self.keypad & !(1u16 << (k as u16));
    }

    /// Counts each nonzero timer down by one.
    pub fn tick_timers(&mut self)
        requires
            old(self).wf(),
        ensures
            final(self).wf(),
            final(self)@ == old(self)@.tick(),
    {
        if self.dt > 0 {
            self.dt = self.dt - 1;
        }
        if self.st > 0 {
            self.st = self.st - 1;
        }
    }
    /// The program counter.
    pub fn pc(&self) -> (r: u16)
        ensures
            r == self@.pc,
    {
        self.pc
    }

    /// The index register `I`.
    pub fn index(&self) -> (r: u16)
        ensures
            r == self@.i,
    {
        self.i
    }

    /// General-purpose register `Vx`.
    pub fn register(&self, x: u8) -> (r: u8)
        requires
            self.wf(),
            x < 16,
        ensures
            r == self@.v[x as int],
    {
        self.v[x as usize]
    }

    /// The delay timer.
    pub fn delay_timer(&self) -> (r: u8)
        ensures
            r == self@.dt,
    {
        self.dt
    }

    /// The sound timer.
    pub fn sound_timer(&self) -> (r: u8)
        ensures
            r == self@.st,
    {
        self.st
    }

    /// The number of frames on the call stack.
    pub fn stack_pointer(&self) -> (r: u8)
        ensures
            r == self@.sp,
    {
        self.sp
    }

    /// Stack slot `k`, in use or not.
    pub fn stack_entry(&self, k: usize) -> (r: u16)
        requires
            self.wf(),
            k < STACK_DEPTH,
        ensures
            r == self@.stack[k as int],
    {
        self.stack[k]
    }

    /// The byte at memory address `a`.
    pub fn memory_byte(&self, a: usize) -> (r: u8)
        requires
            self.wf(),
            a < MEMORY_SIZE,
        ensures
            r == self@.memory[a as int],
    {
        self.memory[a]
    }

    /// The keypad bitmask: bit `k` is set while key `k` is held.
    pub fn keypad(&self) -> (r: u16)
        ensures
            r == self@.keypad,
    {
        self.keypad
    }

    /// Framebuffer row `row` as a word, bit `c` for column `c`.
    pub fn display_row(&self, row: usize) -> (r: u64)
        requires
            self.wf(),
            row < DISPLAY_HEIGHT,
        ensures
            r == self@.display[row as int],
    {
        self.display[row]
    }

    /// Whether the pixel at column `col`, row `row` is lit.
    pub fn pixel(&self, col: usize, row: usize) -> (r: bool)
        requires
            self.wf(),
            col < DISPLAY_WIDTH,
            row < DISPLAY_HEIGHT,
        ensures
            r == ((self@.display[row as int] >> (col as u64)) & 1 == 1),
    {
        (self.display[row] >> (col as u64)) & 1 == 1
    }

    /// Whether the framebuffer may have changed since the flag was last
    /// cleared.
    pub fn draw_flag(&self) -> (r: bool)
        ensures
            r == self@.draw_flag,
    {
        self.draw_flag
    }

    /// Clears the redraw flag once the framebuffer has been presented.
    pub fn clear_draw_flag(&mut self)
        requires
            old(self).wf(),
        ensures
            final(self).wf(),
            final(self)@ == (Machine { draw_flag: false, ..old(self)@ }),
    {
        self.draw_flag = false;
    }

    /// Whether execution is suspended until a key is pressed.
    pub fn is_waiting_for_key(&self) -> (r: bool)
        ensures
            r == self@.waiting,
    {
        self.waiting_for_key
    }

    /// The register that the next key press goes to while waiting.
    pub fn waiting_for_key_register(&self) -> (r: u8)
        ensures
            r == self@.wait_reg,
    {
        self.waiting_for_key_register
    }
}

} // verus!
