//! The interpreter: the machine as executable state, and its cycle.

use std::collections::VecDeque;
use vstd::prelude::*;
use crate::entropy::random_byte;
use crate::fault::Fault;
use crate::font::{glyph_table, glyphs, FONT_SIZE};
use crate::laws::lemma_execute_keeps_wf;
use crate::machine::{
    blank_screen, first_press, sprite_bit, Machine, FLAG, MEMORY_SIZE, PROGRAM_START, SCREEN_HEIGHT,
    SCREEN_WIDTH, STACK_DEPTH,
};
use crate::opcode::{address, family, low_byte, n_of, nibble, reg_x, reg_y, word, x_of};

verus! {

/// A CHIP-8 virtual machine.
pub struct Chip8 {
    opcode: u16,
    v: Vec<u8>,
    i: u16,
    pc: u16,
    stack: VecDeque<u16>,
    mem: Vec<u8>,
    vmem: Vec<Vec<u8>>,
    redraw: bool,
    redraw_section: (usize, usize, usize, usize),
    keys: Vec<bool>,
    delay_t: u8,
    sound_t: u8,
    waiting: Option<u8>,
}

/// A vector of `len` copies of `value`.
fn filled<T: Copy>(value: T, len: usize) -> (out: Vec<T>)
    ensures
        out@ == Seq::new(len as nat, |k: int| value),
{
    let mut out: Vec<T> = Vec::with_capacity(len);
    while out.len() < len
        invariant
            out.len() <= len,
            forall|k: int| 0 <= k < out.len() ==> out[k] == value,
        decreases len - out.len(),
    {
        out.push(value);
    }
    assert(out@ =~= Seq::new(len as nat, |k: int| value));
    out
}

/// The rows of a display with every cell off.
fn blank_rows() -> (rows: Vec<Vec<u8>>)
    ensures
        rows@.len() == SCREEN_HEIGHT,
        forall|r: int| 0 <= r < SCREEN_HEIGHT ==> (#[trigger] rows@[r])@ == blank_screen()[r],
{
    let mut rows: Vec<Vec<u8>> = Vec::with_capacity(SCREEN_HEIGHT);
    while rows.len() < SCREEN_HEIGHT
        invariant
            rows.len() <= SCREEN_HEIGHT,
            forall|r: int| 0 <= r < rows.len() ==> (#[trigger] rows@[r])@ == blank_screen()[r],
        decreases SCREEN_HEIGHT - rows.len(),
    {
        let row = filled(0u8, SCREEN_WIDTH);
        assert(row@ =~= blank_screen()[rows.len() as int]);
        rows.push(row);
    }
    rows
}

/// Whether the sprite covers the cell in row `r`, column `c` with one of the
/// bits drawn so far: those of the first `lines` rows and the first `bits`
/// columns of the row after them.
spec fn covered_so_far(m: Machine, r: int, c: int, lines: int, bits: int) -> bool {
    let line = (r - m.vy()) % (SCREEN_HEIGHT as int);
    let bit = (c - m.vx()) % (SCREEN_WIDTH as int);
    m.sprite_covers(r, c) && (line < lines || (line == lines && bit < bits))
}

/// Whether `now` is the display of `m` with the bits drawn so far flipped.
spec fn drawn_so_far(m: Machine, now: Seq<Seq<u8>>, lines: int, bits: int) -> bool {
    &&& now.len() == SCREEN_HEIGHT
    &&& forall|r: int| 0 <= r < SCREEN_HEIGHT ==> (#[trigger] now[r]).len() == SCREEN_WIDTH
    &&& forall|r: int, c: int|
        0 <= r < SCREEN_HEIGHT && 0 <= c < SCREEN_WIDTH ==> #[trigger] now[r][c] == (if covered_so_far(
            m,
            r,
            c,
            lines,
            bits,
        ) {
            (1 - m.screen[r][c]) as u8
        } else {
            m.screen[r][c]
        })
}

/// Whether one of the bits drawn so far fell on a cell that was on.
spec fn collided_so_far(m: Machine, lines: int, bits: int) -> bool {
    exists|r: int, c: int|
        0 <= r < SCREEN_HEIGHT && 0 <= c < SCREEN_WIDTH && m.screen[r][c] == 1
            && #[trigger] covered_so_far(m, r, c, lines, bits)
}

/// Drawing one more bit of a row: the bit lands on one cell, which no earlier
/// bit has touched, and leaves every other cell to the bits before it.
proof fn lemma_one_more_bit(m: Machine, line: int, bit: int)
    requires
        0 <= line < n_of(m.opcode) < 16,
        0 <= bit < 8,
    ensures
        ({
            let row = (m.vy() + line) % (SCREEN_HEIGHT as int);
            let column = (m.vx() + bit) % (SCREEN_WIDTH as int);
            let lit = sprite_bit(m.mem[m.i + line], bit as u8);
            &&& !covered_so_far(m, row, column, line, bit)
            &&& covered_so_far(m, row, column, line, bit + 1) == lit
            &&& forall|r: int, c: int|
                0 <= r < SCREEN_HEIGHT && 0 <= c < SCREEN_WIDTH && !(r == row && c == column)
                    ==> #[trigger] covered_so_far(m, r, c, line, bit + 1) == covered_so_far(
                    m,
                    r,
                    c,
                    line,
                    bit,
                )
            &&& collided_so_far(m, line, bit + 1) <==> collided_so_far(m, line, bit) || (lit
                && m.screen[row][column] == 1)
        }),
{
    let row = (m.vy() + line) % (SCREEN_HEIGHT as int);
    let column = (m.vx() + bit) % (SCREEN_WIDTH as int);
    let lit = sprite_bit(m.mem[m.i + line], bit as u8);
    assert((row - m.vy()) % (SCREEN_HEIGHT as int) == line);
    assert((column - m.vx()) % (SCREEN_WIDTH as int) == bit);
    assert(m.sprite_covers(row, column) == lit);
    assert forall|r: int, c: int|
        0 <= r < SCREEN_HEIGHT && 0 <= c < SCREEN_WIDTH && !(r == row && c == column)
        implies #[trigger] covered_so_far(m, r, c, line, bit + 1) == covered_so_far(m, r, c, line, bit) by {
        let l = (r - m.vy()) % (SCREEN_HEIGHT as int);
        let b = (c - m.vx()) % (SCREEN_WIDTH as int);
        assert(!(l == line && b == bit));
    }
    if collided_so_far(m, line, bit + 1) {
        let (r, c) = choose|r: int, c: int|
            0 <= r < SCREEN_HEIGHT && 0 <= c < SCREEN_WIDTH && m.screen[r][c] == 1
                && #[trigger] covered_so_far(m, r, c, line, bit + 1);
        if !(r == row && c == column) {
            assert(covered_so_far(m, r, c, line, bit));
        }
    }
    if collided_so_far(m, line, bit) {
        let (r, c) = choose|r: int, c: int|
            0 <= r < SCREEN_HEIGHT && 0 <= c < SCREEN_WIDTH && m.screen[r][c] == 1
                && #[trigger] covered_so_far(m, r, c, line, bit);
        assert(covered_so_far(m, r, c, line, bit + 1));
    }
    if lit && m.screen[row][column] == 1 {
        assert(covered_so_far(m, row, column, line, bit + 1));
    }
}

/// A row drawn to its end is the next row not yet begun.
proof fn lemma_row_done(m: Machine, line: int)
    ensures
        forall|r: int, c: int| #[trigger]
            covered_so_far(m, r, c, line, 8) == covered_so_far(m, r, c, line + 1, 0),
        collided_so_far(m, line, 8) == collided_so_far(m, line + 1, 0),
{
    assert forall|r: int, c: int| #[trigger]
        covered_so_far(m, r, c, line, 8) == covered_so_far(m, r, c, line + 1, 0) by {}
    if collided_so_far(m, line, 8) {
        let (r, c) = choose|r: int, c: int|
            0 <= r < SCREEN_HEIGHT && 0 <= c < SCREEN_WIDTH && m.screen[r][c] == 1
                && #[trigger] covered_so_far(m, r, c, line, 8);
        assert(covered_so_far(m, r, c, line + 1, 0));
    }
    if collided_so_far(m, line + 1, 0) {
        let (r, c) = choose|r: int, c: int|
            0 <= r < SCREEN_HEIGHT && 0 <= c < SCREEN_WIDTH && m.screen[r][c] == 1
                && #[trigger] covered_so_far(m, r, c, line + 1, 0);
        assert(covered_so_far(m, r, c, line, 8));
    }
}

/// With all rows drawn, the bits drawn so far are the whole sprite.
proof fn lemma_sprite_done(m: Machine, now: Seq<Seq<u8>>)
    requires
        drawn_so_far(m, now, n_of(m.opcode), 0),
    ensures
        now == m.drawn_screen(),
        collided_so_far(m, n_of(m.opcode), 0) == m.sprite_collides(),
{
    let n = n_of(m.opcode);
    assert forall|r: int, c: int| #[trigger] covered_so_far(m, r, c, n, 0) == m.sprite_covers(r, c) by {}
    assert(now =~~= m.drawn_screen());
    if collided_so_far(m, n, 0) {
        let (r, c) = choose|r: int, c: int|
            0 <= r < SCREEN_HEIGHT && 0 <= c < SCREEN_WIDTH && m.screen[r][c] == 1
                && #[trigger] covered_so_far(m, r, c, n, 0);
        assert(m.sprite_covers(r, c));
    }
    if m.sprite_collides() {
        let (r, c) = choose|r: int, c: int|
            0 <= r < SCREEN_HEIGHT && 0 <= c < SCREEN_WIDTH && m.screen[r][c] == 1
                && #[trigger] m.sprite_covers(r, c);
        assert(covered_so_far(m, r, c, n, 0));
    }
}

impl View for Chip8 {
    type V = Machine;

    closed spec fn view(&self) -> Machine {
        Machine {
            opcode: self.opcode,
            v: self.v@,
            i: self.i,
            pc: self.pc,
            stack: self.stack@,
            mem: self.mem@,
            screen: Seq::new(self.vmem@.len(), |r: int| self.vmem@[r]@),
            redraw: self.redraw,
            redraw_section: self.redraw_section,
            keys: self.keys@,
            delay_t: self.delay_t,
            sound_t: self.sound_t,
            waiting: self.waiting,
        }
    }
}

impl Chip8 {
    /// Whether the machine has the shape that every machine has. Every
    /// operation keeps it.
    pub open spec fn wf(&self) -> bool {
        self@.wf()
    }

    /// A machine at power-on.
    pub fn new() -> (chip: Self)
        ensures
            chip@ == Machine::initial(),
            chip.wf(),
    {
        let chip = Self {
            opcode: 0,
            v: filled(0u8, 16),
            i: 0,
            pc: PROGRAM_START,
            stack: VecDeque::with_capacity(STACK_DEPTH),
            mem: filled(0u8, MEMORY_SIZE),
            vmem: blank_rows(),
            redraw: false,
            redraw_section: (0, 0, 0, 0),
            keys: filled(false, 16),
            delay_t: 0,
            sound_t: 0,
            waiting: None,
        };
        assert(chip@.screen =~= blank_screen());
        chip
    }

    /// Loads the glyph table and the program `rom`.
    pub fn load_rom(&mut self, rom: &[u8]) -> (r: Result<(), Fault>)
        requires
            old(self).wf(),
        ensures
            (final(self)@, r) == old(self)@.load_rom(rom@),
            final(self).wf(),
    {
        if rom.len() > MEMORY_SIZE - PROGRAM_START as usize {
            return Err(Fault::LoadError);
        }
        let ghost before = self@;
        let table = glyph_table();
        let mut k: usize = 0;
        while k < FONT_SIZE
            invariant
                k <= FONT_SIZE,
                table@ == glyphs(),
                self@ == (Machine { mem: self@.mem, ..before }),
                self@.mem.len() == MEMORY_SIZE,
                forall|a: int| 0 <= a < k ==> self@.mem[a] == glyphs()[a],
                forall|a: int| k <= a < MEMORY_SIZE ==> self@.mem[a] == before.mem[a],
            decreases FONT_SIZE - k,
        {
            self.mem[k] = table[k];
            k += 1;
        }
        let mut k: usize = 0;
        while k < rom.len()
            invariant
                k <= rom.len() <= MEMORY_SIZE - PROGRAM_START,
                self@ == (Machine { mem: self@.mem, ..before }),
                self@.mem.len() == MEMORY_SIZE,
                forall|a: int| 0 <= a < FONT_SIZE ==> self@.mem[a] == glyphs()[a],
                forall|a: int| PROGRAM_START <= a < PROGRAM_START + k ==> self@.mem[a] == rom@[a - PROGRAM_START],
                forall|a: int|
                    FONT_SIZE <= a < MEMORY_SIZE && !(PROGRAM_START <= a < PROGRAM_START + k)
                        ==> self@.mem[a] == before.mem[a],
            decreases rom.len() - k,
        {
            self.mem[PROGRAM_START as usize + k] = rom[k];
            k += 1;
        }
        assert(self@.mem =~= before.load_rom(rom@).0.mem);
        Ok(())
    }

    /// Whether the next cycle executes the instruction that asks for a random
    /// byte.
    fn wants_random(&self) -> (wanted: bool)
        requires
            self.wf(),
        ensures
            wanted == self@.wants_random(),
    {
        self.waiting.is_none() && (self.pc as usize) + 1 < MEMORY_SIZE && family(
            word(self.mem[self.pc as usize], self.mem[self.pc as usize + 1]),
        ) == 0xC
    }

    /// Runs one cycle: fetches the instruction at the program counter and
    /// executes it. A random byte is drawn if the instruction asks for one,
    /// and only then.
    ///
    /// On a fault the machine is as before, but for the fetched instruction
    /// word, which stays readable. A suspended machine stays as it is.
    pub fn clock(&mut self) -> (r: Result<(), Fault>)
        requires
            old(self).wf(),
        ensures
            exists|random: u8| (final(self)@, r) == #[trigger] old(self)@.step(random),
            !old(self)@.wants_random() ==> forall|random: u8|
                (final(self)@, r) == #[trigger] old(self)@.step(random),
            final(self).wf(),
    {
        let random = if self.wants_random() {
            random_byte()
        } else {
            0
        };
        self.clock_with(random)
    }

    /// Runs one cycle in which `random` is the random byte.
    pub fn clock_with(&mut self, random: u8) -> (r: Result<(), Fault>)
        requires
            old(self).wf(),
        ensures
            (final(self)@, r) == old(self)@.step(random),
            final(self).wf(),
    {
        if self.waiting.is_some() {
            return Ok(());
        }
        if self.pc as usize + 1 >= MEMORY_SIZE {
            return Err(Fault::OutOfBoundsAccess);
        }
        self.opcode = word(self.mem[self.pc as usize], self.mem[self.pc as usize + 1]);
        self.decode_opcode(random)
    }

    /// Lets both timers go down by one, unless they are at zero. Returns
    /// whether the tone sounds during this tick: whether the sound timer was
    /// above zero.
    pub fn clock_timer(&mut self) -> (tone: bool)
        ensures
            final(self)@ == old(self)@.tick(),
            tone == (old(self)@.sound_t > 0),
            old(self).wf() ==> final(self).wf(),
    {
        if self.delay_t > 0 {
            self.delay_t -= 1;
        }
        let tone = self.sound_t > 0;
        if tone {
            self.sound_t -= 1;
        }
        tone
    }

    /// Executes the instruction in `opcode`.
    fn decode_opcode(&mut self, random: u8) -> (r: Result<(), Fault>)
        requires
            old(self).wf(),
        ensures
            (final(self)@, r) == old(self)@.execute(random),
            final(self).wf(),
    {
        proof {
            lemma_execute_keeps_wf(self@, random);
        }
        let op = self.opcode;
        let sub = nibble(op);
        let low = low_byte(op);
        match family(op) {
            0x0 => {
                if op == 0x00E0 {
                    self.screen_clear();
                    Ok(())
                } else if op == 0x00EE {
                    self.subroutine_return()
                } else {
                    Err(Fault::DecodeError)
                }
            },
            0x1 => {
                self.jump_to_address();
                Ok(())
            },
            0x2 => self.call_subroutine(),
            0x3 => {
                self.skip_if_vx();
                Ok(())
            },
            0x4 => {
                self.skip_if_not_vx();
                Ok(())
            },
            0x5 => {
                if sub != 0 {
                    return Err(Fault::DecodeError);
                }
                self.skip_if_vx_equals_vy();
                Ok(())
            },
            0x6 => {
                self.set_vx();
                Ok(())
            },
            0x7 => {
                self.add_vx_no_carry();
                Ok(())
            },
            0x8 => {
                match sub {
                    0x0 => self.set_vx_to_vy(),
                    0x1 => self.set_vx_or_vy(),
                    0x2 => self.set_vx_and_vy(),
                    0x3 => self.set_vx_xor_vy(),
                    0x4 => self.add_vy_to_vx_carry(),
                    0x5 => self.subtract_vy_from_vx_borrow(),
                    0x6 => self.vx_store_least_and_right_shift(),
                    0x7 => self.set_vx_to_vy_minus_vx(),
                    0xE => self.vx_store_most_and_left_shift(),
                    _ => {
                        return Err(Fault::DecodeError);
                    },
                }
                Ok(())
            },
            0x9 => {
                if sub != 0 {
                    return Err(Fault::DecodeError);
                }
                self.skip_if_vx_not_equals_vy();
                Ok(())
            },
            0xA => {
                self.set_i();
                Ok(())
            },
            0xB => {
                self.jump_to_v0_plus_nnn();
                Ok(())
            },
            0xC => {
                self.rand_and(random);
                Ok(())
            },
            0xD => self.draw(),
            0xE => {
                match low {
                    0x9E => self.skip_if_pressed(),
                    0xA1 => self.skip_if_not_pressed(),
                    _ => Err(Fault::DecodeError),
                }
            },
            _ => {
                match low {
                    0x07 => {
                        self.set_vx_delay_t();
                        Ok(())
                    },
                    0x0A => {
                        self.wait_for_key();
                        Ok(())
                    },
                    0x15 => {
                        self.set_delay_t_vx();
                        Ok(())
                    },
                    0x18 => {
                        self.set_sound_t_vx();
                        Ok(())
                    },
                    0x1E => {
                        self.add_i_vx_no_carry();
                        Ok(())
                    },
                    0x29 => {
                        self.set_i_to_font_address();
                        Ok(())
                    },
                    0x33 => self.bcd(),
                    0x55 => self.dump_v0_to_vx(),
                    0x65 => self.fill_v0_to_vx(),
                    _ => Err(Fault::DecodeError),
                }
            },
        }
    }

    /// Instruction `00E0`.
    fn screen_clear(&mut self)
        ensures
            final(self)@ == old(self)@.screen_clear(),
    {
        self.vmem = blank_rows();
        self.redraw = true;
        self.redraw_section = (0, 0, SCREEN_HEIGHT, SCREEN_WIDTH);
        self.advance();
        assert(self@.screen =~= blank_screen());
    }

    /// Instruction `00EE`.
    fn subroutine_return(&mut self) -> (r: Result<(), Fault>)
        ensures
            (final(self)@, r) == old(self)@.subroutine_return(),
    {
        match self.stack.pop_back() {
            Some(address) => {
                assert(self@.stack =~= old(self)@.stack.drop_last());
                self.pc = address.wrapping_add(2);
                Ok(())
            },
            None => Err(Fault::StackUnderflow),
        }
    }

    /// Instruction `1NNN`.
    fn jump_to_address(&mut self)
        ensures
            final(self)@ == old(self)@.jump_to_address(),
    {
        self.pc = address(self.opcode);
    }

    /// Instruction `2NNN`.
    fn call_subroutine(&mut self) -> (r: Result<(), Fault>)
        ensures
            (final(self)@, r) == old(self)@.call_subroutine(),
    {
        if self.stack.len() >= STACK_DEPTH {
            return Err(Fault::StackOverflow);
        }
        self.stack.push_back(self.pc);
        self.pc = address(self.opcode);
        Ok(())
    }

    /// Instruction `3XNN`.
    fn skip_if_vx(&mut self)
        requires
            old(self).wf(),
        ensures
            final(self)@ == old(self)@.skip_if_vx(),
    {
        let condition = self.v[reg_x(self.opcode)] == low_byte(self.opcode);
        self.skip_if(condition);
    }

    /// Instruction `4XNN`.
    fn skip_if_not_vx(&mut self)
        requires
            old(self).wf(),
        ensures
            final(self)@ == old(self)@.skip_if_not_vx(),
    {
        let condition = self.v[reg_x(self.opcode)] != low_byte(self.opcode);
        self.skip_if(condition);
    }

    /// Instruction `5XY0`.
    fn skip_if_vx_equals_vy(&mut self)
        requires
            old(self).wf(),
        ensures
            final(self)@ == old(self)@.skip_if_vx_equals_vy(),
    {
        let condition = self.v[reg_x(self.opcode)] == self.v[reg_y(self.opcode)];
        self.skip_if(condition);
    }

    /// Instruction `6XNN`.
    fn set_vx(&mut self)
        requires
            old(self).wf(),
        ensures
            final(self)@ == old(self)@.set_vx(),
    {
        let x = reg_x(self.opcode);
        self.v[x] = low_byte(self.opcode);
        self.advance();
    }

    /// Instruction `7XNN`.
    fn add_vx_no_carry(&mut self)
        requires
            old(self).wf(),
        ensures
            final(self)@ == old(self)@.add_vx_no_carry(),
    {
        let x = reg_x(self.opcode);
        let nn = low_byte(self.opcode);
        self.v[x] = self.v[x].wrapping_add(nn);
        self.advance();
    }

    /// Instruction `8XY0`.
    fn set_vx_to_vy(&mut self)
        requires
            old(self).wf(),
        ensures
            final(self)@ == old(self)@.set_vx_to_vy(),
    {
        let x = reg_x(self.opcode);
        let y = reg_y(self.opcode);
        self.v[x] = self.v[y];
        self.advance();
    }

    /// Instruction `8XY1`.
    fn set_vx_or_vy(&mut self)
        requires
            old(self).wf(),
        ensures
            final(self)@ == old(self)@.set_vx_or_vy(),
    {
        let x = reg_x(self.opcode);
        let y = reg_y(self.opcode);
        self.v[x] = self.v[x] | self.v[y];
        self.advance();
    }

    /// Instruction `8XY2`.
    fn set_vx_and_vy(&mut self)
        requires
            old(self).wf(),
        ensures
            final(self)@ == old(self)@.set_vx_and_vy(),
    {
        let x = reg_x(self.opcode);
        let y = reg_y(self.opcode);
        self.v[x] = self.v[x] & self.v[y];
        self.advance();
    }

    /// Instruction `8XY3`.
    fn set_vx_xor_vy(&mut self)
        requires
            old(self).wf(),
        ensures
            final(self)@ == old(self)@.set_vx_xor_vy(),
    {
        let x = reg_x(self.opcode);
        let y = reg_y(self.opcode);
        self.v[x] = self.v[x] ^ self.v[y];
        self.advance();
    }

    /// Writes `flag` to the flag register and then `value` to register `x`.
    fn set_flag_and_vx(&mut self, x: usize, flag: u8, value: u8)
        requires
            old(self).wf(),
            x == x_of(old(self)@.opcode),
        ensures
            final(self)@ == old(self)@.with_flag_and_vx(flag, value),
    {
        self.v[FLAG] = flag;
        self.v[x] = value;
    }

    /// Instruction `8XY4`.
    fn add_vy_to_vx_carry(&mut self)
        requires
            old(self).wf(),
        ensures
            final(self)@ == old(self)@.add_vy_to_vx_carry(),
    {
        let x = reg_x(self.opcode);
        let y = reg_y(self.opcode);
        let a = self.v[x];
        let b = self.v[y];
        let flag: u8 = if a > 0xFF - b { 1 } else { 0 };
        self.set_flag_and_vx(x, flag, a.wrapping_add(b));
        self.advance();
    }

    /// Instruction `8XY5`.
    fn subtract_vy_from_vx_borrow(&mut self)
        requires
            old(self).wf(),
        ensures
            final(self)@ == old(self)@.subtract_vy_from_vx_borrow(),
    {
        let x = reg_x(self.opcode);
        let y = reg_y(self.opcode);
        let a = self.v[x];
        let b = self.v[y];
        let flag: u8 = if a < b { 0 } else { 1 };
        self.set_flag_and_vx(x, flag, a.wrapping_sub(b));
        self.advance();
    }

    /// Instruction `8XY6`.
    fn vx_store_least_and_right_shift(&mut self)
        requires
            old(self).wf(),
        ensures
            final(self)@ == old(self)@.vx_store_least_and_right_shift(),
    {
        let x = reg_x(self.opcode);
        let a = self.v[x];
        assert(a & 0x01 == a % 2 && a >> 1 == a / 2) by (bit_vector);
        self.set_flag_and_vx(x, a & 0x01, a >> 1);
        self.advance();
    }

    /// Instruction `8XY7`.
    fn set_vx_to_vy_minus_vx(&mut self)
        requires
            old(self).wf(),
        ensures
            final(self)@ == old(self)@.set_vx_to_vy_minus_vx(),
    {
        let x = reg_x(self.opcode);
        let y = reg_y(self.opcode);
        let a = self.v[x];
        let b = self.v[y];
        let flag: u8 = if b < a { 0 } else { 1 };
        self.set_flag_and_vx(x, flag, b.wrapping_sub(a));
        self.advance();
    }

    /// Instruction `8XYE`.
    fn vx_store_most_and_left_shift(&mut self)
        requires
            old(self).wf(),
        ensures
            final(self)@ == old(self)@.vx_store_most_and_left_shift(),
    {
        let x = reg_x(self.opcode);
        let a = self.v[x];
        assert((a & 0x80) >> 7 == a / 128 && a << 1 == (a + a) % 256) by (bit_vector);
        self.set_flag_and_vx(x, (a & 0x80) >> 7, a << 1);
        self.advance();
    }

    /// Instruction `9XY0`.
    fn skip_if_vx_not_equals_vy(&mut self)
        requires
            old(self).wf(),
        ensures
            final(self)@ == old(self)@.skip_if_vx_not_equals_vy(),
    {
        let condition = self.v[reg_x(self.opcode)] != self.v[reg_y(self.opcode)];
        self.skip_if(condition);
    }

    /// Instruction `ANNN`.
    fn set_i(&mut self)
        ensures
            final(self)@ == old(self)@.set_i(),
    {
        self.i = address(self.opcode);
        self.advance();
    }

    /// Instruction `BNNN`.
    fn jump_to_v0_plus_nnn(&mut self)
        requires
            old(self).wf(),
        ensures
            final(self)@ == old(self)@.jump_to_v0_plus_nnn(),
    {
        self.pc = (self.v[0] as u16).wrapping_add(address(self.opcode));
    }

    /// Instruction `CXNN`, with `random` as the random byte.
    fn rand_and(&mut self, random: u8)
        requires
            old(self).wf(),
        ensures
            final(self)@ == old(self)@.rand_and(random),
    {
        let x = reg_x(self.opcode);
        self.v[x] = random & low_byte(self.opcode);
        self.advance();
    }

    /// Moves the program counter to the next instruction.
    fn advance(&mut self)
        ensures
            final(self)@ == old(self)@.advance(),
    {
        self.pc = self.pc.wrapping_add(2);
    }

    /// Moves the program counter past the next instruction if `condition`
    /// holds, to the next instruction if not.
    fn skip_if(&mut self, condition: bool)
        ensures
            final(self)@ == old(self)@.skip_if(condition),
    {
        if condition {
            self.pc = self.pc.wrapping_add(4);
        } else {
            self.pc = self.pc.wrapping_add(2);
        }
    }

    /// Flips one cell of the display.
    fn flip(&mut self, row: usize, column: usize)
        requires
            old(self).wf(),
            row < SCREEN_HEIGHT,
            column < SCREEN_WIDTH,
        ensures
            final(self)@ == (Machine {
                screen: old(self)@.screen.update(
                    row as int,
                    old(self)@.screen[row as int].update(
                        column as int,
                        (1 - old(self)@.screen[row as int][column as int]) as u8,
                    ),
                ),
                ..old(self)@
            }),
    {
        assert(self@.screen[row as int] == self.vmem@[row as int]@);
        let cell = self.vmem[row][column];
        self.vmem[row][column] = 1 - cell;
        assert(self@.screen =~= old(self)@.screen.update(
            row as int,
            old(self)@.screen[row as int].update(column as int, (1 - cell) as u8),
        ));
    }

    /// Instruction `DXYN`.
    fn draw(&mut self) -> (r: Result<(), Fault>)
        requires
            old(self).wf(),
        ensures
            (final(self)@, r) == old(self)@.draw(),
    {
        let height = nibble(self.opcode);
        if height > 0 && self.i as usize + height as usize > MEMORY_SIZE {
            return Err(Fault::OutOfBoundsAccess);
        }
        let vx = self.v[reg_x(self.opcode)];
        let vy = self.v[reg_y(self.opcode)];
        let ghost before = self@;
        let mut collided = false;
        let mut line: u8 = 0;
        while line < height
            invariant
                before.wf(),
                line <= height,
                height == n_of(before.opcode),
                height == 0 || before.i + height <= MEMORY_SIZE,
                vx == before.vx(),
                vy == before.vy(),
                self@ == (Machine { screen: self@.screen, ..before }),
                drawn_so_far(before, self@.screen, line as int, 0),
                collided <==> collided_so_far(before, line as int, 0),
            decreases height - line,
        {
            let sprite_row = self.mem[self.i as usize + line as usize];
            let mut bit: u8 = 0;
            while bit < 8
                invariant
                    before.wf(),
                    line < height,
                    height == n_of(before.opcode),
                    sprite_row == before.mem[before.i + line],
                    bit <= 8,
                    vx == before.vx(),
                    vy == before.vy(),
                    self@ == (Machine { screen: self@.screen, ..before }),
                    drawn_so_far(before, self@.screen, line as int, bit as int),
                    collided <==> collided_so_far(before, line as int, bit as int),
                decreases 8 - bit,
            {
                let row = (vy as usize + line as usize) % SCREEN_HEIGHT;
                let column = (vx as usize + bit as usize) % SCREEN_WIDTH;
                let lit = sprite_row & (0x80u8 >> bit) != 0;
                proof {
                    lemma_one_more_bit(before, line as int, bit as int);
                }
                if lit {
                    assert(self@.screen[row as int] == self.vmem@[row as int]@);
                    if self.vmem[row][column] == 1 {
                        collided = true;
                    }
                    self.flip(row, column);
                }
                bit += 1;
            }
            proof {
                lemma_row_done(before, line as int);
            }
            line += 1;
        }
        proof {
            lemma_sprite_done(before, self@.screen);
        }
        self.v[FLAG] = if collided { 1 } else { 0 };
        self.redraw = true;
        self.redraw_section = (vy as usize, vx as usize, height as usize, 8);
        self.advance();
        Ok(())
    }

    /// Instruction `EX9E`.
    fn skip_if_pressed(&mut self) -> (r: Result<(), Fault>)
        requires
            old(self).wf(),
        ensures
            (final(self)@, r) == old(self)@.skip_if_pressed(),
    {
        let key = self.v[reg_x(self.opcode)] as usize;
        if key >= 16 {
            return Err(Fault::OutOfBoundsAccess);
        }
        let condition = self.keys[key];
        self.skip_if(condition);
        Ok(())
    }

    /// Instruction `EXA1`.
    fn skip_if_not_pressed(&mut self) -> (r: Result<(), Fault>)
        requires
            old(self).wf(),
        ensures
            (final(self)@, r) == old(self)@.skip_if_not_pressed(),
    {
        let key = self.v[reg_x(self.opcode)] as usize;
        if key >= 16 {
            return Err(Fault::OutOfBoundsAccess);
        }
        let condition = !self.keys[key];
        self.skip_if(condition);
        Ok(())
    }

    /// Instruction `FX07`.
    fn set_vx_delay_t(&mut self)
        requires
            old(self).wf(),
        ensures
            final(self)@ == old(self)@.set_vx_delay_t(),
    {
        let x = reg_x(self.opcode);
        self.v[x] = self.delay_t;
        self.advance();
    }

    /// Instruction `FX0A`.
    fn wait_for_key(&mut self)
        ensures
            final(self)@ == old(self)@.wait_for_key(),
    {
        self.waiting = Some(reg_x(self.opcode) as u8);
    }

    /// Instruction `FX15`.
    fn set_delay_t_vx(&mut self)
        requires
            old(self).wf(),
        ensures
            final(self)@ == old(self)@.set_delay_t_vx(),
    {
        self.delay_t = self.v[reg_x(self.opcode)];
        self.advance();
    }

    /// Instruction `FX18`.
    fn set_sound_t_vx(&mut self)
        requires
            old(self).wf(),
        ensures
            final(self)@ == old(self)@.set_sound_t_vx(),
    {
        self.sound_t = self.v[reg_x(self.opcode)];
        self.advance();
    }

    /// Instruction `FX1E`.
    fn add_i_vx_no_carry(&mut self)
        requires
            old(self).wf(),
        ensures
            final(self)@ == old(self)@.add_i_vx_no_carry(),
    {
        let x = reg_x(self.opcode);
        self.i = self.i.wrapping_add(self.v[x] as u16);
        self.advance();
    }

    /// Instruction `FX29`.
    fn set_i_to_font_address(&mut self)
        requires
            old(self).wf(),
        ensures
            final(self)@ == old(self)@.set_i_to_font_address(),
    {
        let x = reg_x(self.opcode);
        self.i = self.v[x] as u16 * 5;
        self.advance();
    }

    /// Instruction `FX33`.
    fn bcd(&mut self) -> (r: Result<(), Fault>)
        requires
            old(self).wf(),
        ensures
            (final(self)@, r) == old(self)@.bcd(),
    {
        let at = self.i as usize;
        if at + 2 >= MEMORY_SIZE {
            return Err(Fault::OutOfBoundsAccess);
        }
        let value = self.v[reg_x(self.opcode)];
        self.mem[at] = value / 100;
        self.mem[at + 1] = (value % 100) / 10;
        self.mem[at + 2] = (value % 100) % 10;
        self.advance();
        Ok(())
    }

    /// Instruction `FX55`.
    fn dump_v0_to_vx(&mut self) -> (r: Result<(), Fault>)
        requires
            old(self).wf(),
        ensures
            (final(self)@, r) == old(self)@.dump_v0_to_vx(),
    {
        let x = reg_x(self.opcode);
        let at = self.i as usize;
        if at + x >= MEMORY_SIZE {
            return Err(Fault::OutOfBoundsAccess);
        }
        let ghost before = self@;
        let mut k: usize = 0;
        while k <= x
            invariant
                before.wf(),
                k <= x + 1,
                x < 16,
                at == before.i,
                at + x < MEMORY_SIZE,
                self@ == (Machine { mem: self@.mem, ..before }),
                self@.mem.len() == MEMORY_SIZE,
                forall|a: int| at <= a < at + k ==> self@.mem[a] == before.v[a - at],
                forall|a: int| 0 <= a < MEMORY_SIZE && !(at <= a < at + k) ==> self@.mem[a] == before.mem[a],
            decreases x + 1 - k,
        {
            self.mem[at + k] = self.v[k];
            k += 1;
        }
        assert(self@.mem =~= before.dump_v0_to_vx().0.mem);
        self.advance();
        Ok(())
    }

    /// Instruction `FX65`.
    fn fill_v0_to_vx(&mut self) -> (r: Result<(), Fault>)
        requires
            old(self).wf(),
        ensures
            (final(self)@, r) == old(self)@.fill_v0_to_vx(),
    {
        let x = reg_x(self.opcode);
        let at = self.i as usize;
        if at + x >= MEMORY_SIZE {
            return Err(Fault::OutOfBoundsAccess);
        }
        let ghost before = self@;
        let mut k: usize = 0;
        while k <= x
            invariant
                before.wf(),
                k <= x + 1,
                x < 16,
                at == before.i,
                at + x < MEMORY_SIZE,
                self@ == (Machine { v: self@.v, ..before }),
                self@.v.len() == 16,
                forall|j: int| 0 <= j < k ==> self@.v[j] == before.mem[at + j],
                forall|j: int| k <= j < 16 ==> self@.v[j] == before.v[j],
            decreases x + 1 - k,
        {
            self.v[k] = self.mem[at + k];
            k += 1;
        }
        assert(self@.v =~= before.fill_v0_to_vx().0.v);
        self.advance();
        Ok(())
    }

    /// Ends a wait, if there is one, with `key` as the key that was pressed.
    fn resume(&mut self, key: u8)
        requires
            old(self).wf(),
        ensures
            final(self)@ == old(self)@.resume(key),
    {
        match self.waiting {
            Some(x) => {
                self.v[x as usize] = key;
                self.waiting = None;
                self.advance();
            },
            None => {},
        }
    }

    /// Replaces the state of all sixteen keys. The lowest-numbered key that
    /// is down now and was up before counts as pressed, and ends a wait.
    pub fn set_keys(&mut self, keys: &Vec<bool>)
        requires
            old(self).wf(),
            keys@.len() == 16,
        ensures
            final(self)@ == old(self)@.set_keys(keys@),
            final(self).wf(),
    {
        let ghost before = self@;
        let mut pressed: Option<u8> = None;
        let mut k: u8 = 16;
        while k > 0
            invariant
                k <= 16,
                keys@.len() == 16,
                self@ == before,
                before.wf(),
                pressed == first_press(before.keys, keys@, k as int),
            decreases k,
        {
            k -= 1;
            if keys[k as usize] && !self.keys[k as usize] {
                pressed = Some(k);
            }
        }
        let mut k: usize = 0;
        while k < 16
            invariant
                k <= 16,
                keys@.len() == 16,
                self@ == (Machine { keys: self@.keys, ..before }),
                self@.keys.len() == 16,
                forall|j: int| 0 <= j < k ==> self@.keys[j] == keys@[j],
            decreases 16 - k,
        {
            self.keys[k] = keys[k];
            k += 1;
        }
        assert(self@.keys =~= keys@);
        match pressed {
            Some(key) => self.resume(key),
            None => {},
        }
    }

    /// Records key `key` as down (`status`) or up. A key going down ends a
    /// wait.
    pub fn set_key(&mut self, key: u8, status: bool)
        requires
            old(self).wf(),
            key < 16,
        ensures
            final(self)@ == old(self)@.set_key(key, status),
            final(self).wf(),
    {
        self.keys[key as usize] = status;
        if status {
            self.resume(key);
        }
    }

    /// The display, by rows and then columns; a cell holds 1 if it is on and
    /// 0 if not.
    pub fn dump_vmem(&self) -> (rows: &Vec<Vec<u8>>)
        ensures
            rows.deep_view() == self@.screen,
    {
        assert(self.vmem.deep_view() =~~= self@.screen);
        &self.vmem
    }

    /// Row `line` of the display.
    pub fn dump_vmem_line(&self, line: usize) -> (row: &[u8])
        requires
            self.wf(),
            line < SCREEN_HEIGHT,
        ensures
            row@ == self@.screen[line as int],
    {
        self.vmem[line].as_slice()
    }

    /// Whether the display changed since the host last showed it.
    pub fn is_awaiting_redraw(&self) -> (pending: bool)
        ensures
            pending == self@.redraw,
    {
        self.redraw
    }

    /// The part of the display that the last clear or draw touched: first
    /// row, first column, number of rows, number of columns.
    pub fn get_redraw_section(&self) -> (section: (usize, usize, usize, usize))
        ensures
            section == self@.redraw_section,
    {
        self.redraw_section
    }

    /// Tells the machine that the host has shown the display.
    pub fn fulfill_redraw(&mut self)
        ensures
            final(self)@ == (Machine { redraw: false, ..old(self)@ }),
            old(self).wf() ==> final(self).wf(),
    {
        self.redraw = false;
    }

    /// The program counter.
    pub fn pc(&self) -> (pc: u16)
        ensures
            pc == self@.pc,
    {
        self.pc
    }

    /// The index register.
    pub fn index(&self) -> (i: u16)
        ensures
            i == self@.i,
    {
        self.i
    }

    /// The instruction word fetched last.
    pub fn opcode(&self) -> (opcode: u16)
        ensures
            opcode == self@.opcode,
    {
        self.opcode
    }

    /// General register `x`.
    pub fn register(&self, x: usize) -> (value: u8)
        requires
            self.wf(),
            x < 16,
        ensures
            value == self@.v[x as int],
    {
        self.v[x]
    }

    /// The byte of memory at `address`.
    pub fn memory(&self, address: usize) -> (byte: u8)
        requires
            self.wf(),
            address < MEMORY_SIZE,
        ensures
            byte == self@.mem[address as int],
    {
        self.mem[address]
    }

    /// The number of return addresses on the call stack.
    pub fn stack_depth(&self) -> (depth: usize)
        ensures
            depth == self@.stack.len(),
    {
        self.stack.len()
    }

    /// The delay timer.
    pub fn delay_timer(&self) -> (value: u8)
        ensures
            value == self@.delay_t,
    {
        self.delay_t
    }

    /// The sound timer.
    pub fn sound_timer(&self) -> (value: u8)
        ensures
            value == self@.sound_t,
    {
        self.sound_t
    }

    /// Whether the machine is suspended until a key is pressed.
    pub fn is_waiting_for_key(&self) -> (waiting: bool)
        ensures
            waiting == (self@.waiting is Some),
    {
        self.waiting.is_some()
    }
}

} // verus!
