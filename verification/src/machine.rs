//! The mathematical model of the machine and the meaning of its instructions.
//!
//! A [`Machine`] is the state of the virtual machine as plain mathematical
//! values. Every instruction is a function from a machine to the machine after
//! it; [`Machine::step`] is one whole cycle. The interpreter in
//! [`crate::chip8`] is proved to compute exactly these functions.
//!
//! Where interpreters of this machine have differed, this one holds to the
//! following.
//!
//! * An instruction reads its operands before it writes anything. The flag
//!   register is written before register `X`, so where `X` is the flag
//!   register the result stays and the flag is lost.
//! * `7XNN` adds modulo 256. `CXNN` combines the random byte with `NN` by
//!   bitwise and. The shifts `8XY6` and `8XYE` shift register `X` and ignore
//!   register `Y`. `FX55` and `FX65` leave the index register alone.
//! * The fields of each instruction word must match exactly: `5XY1`, `8XY8`
//!   or `0123` are no instructions.
//! * A fault changes nothing but the record of the fetched word, and never
//!   ends the host's process. Reads and writes beyond the memory, a seventeenth
//!   nested call, a return without a call and a key number above 15 are faults.
//! * Waiting for a key suspends the machine until the host reports a key
//!   going down. A key that is merely held does not end the wait.

use vstd::prelude::*;
use crate::fault::Fault;
use crate::font::{glyphs, FONT_SIZE};
use crate::opcode::{family_of, x_of, y_of, n_of, nn_of, nnn_of, word_of};

verus! {

/// Bytes of addressable memory.
pub const MEMORY_SIZE: usize = 4096;

/// Address at which a program is loaded and starts to run.
pub const PROGRAM_START: u16 = 0x200;

/// Columns of the display.
pub const SCREEN_WIDTH: usize = 64;

/// Rows of the display.
pub const SCREEN_HEIGHT: usize = 32;

/// Return addresses that the call stack can hold.
pub const STACK_DEPTH: usize = 16;

/// Number of the register that receives carry, borrow and collision flags.
pub const FLAG: usize = 0xF;

/// The state of the machine.
pub struct Machine {
    /// The instruction word fetched last.
    pub opcode: u16,
    /// The sixteen general registers.
    pub v: Seq<u8>,
    /// The index register.
    pub i: u16,
    /// The program counter.
    pub pc: u16,
    /// The return addresses, the most recent one last.
    pub stack: Seq<u16>,
    /// The memory.
    pub mem: Seq<u8>,
    /// The display, by rows and then columns; a cell holds 0 or 1.
    pub screen: Seq<Seq<u8>>,
    /// Whether the display changed and has not been shown since.
    pub redraw: bool,
    /// The part of the display touched last: first row, first column, number
    /// of rows, number of columns.
    pub redraw_section: (usize, usize, usize, usize),
    /// Which of the sixteen keys are held down.
    pub keys: Seq<bool>,
    /// The delay timer.
    pub delay_t: u8,
    /// The sound timer.
    pub sound_t: u8,
    /// The register that waits for a key press, while the machine is suspended.
    pub waiting: Option<u8>,
}

/// A machine after an operation together with what the operation reports.
pub type Outcome = (Machine, Result<(), Fault>);

/// A display with every cell off.
pub open spec fn blank_screen() -> Seq<Seq<u8>> {
    Seq::new(SCREEN_HEIGHT as nat, |r: int| Seq::new(SCREEN_WIDTH as nat, |c: int| 0u8))
}

/// Whether the bit of `byte` in column `b` is set, column 0 being the most
/// significant bit.
pub open spec fn sprite_bit(byte: u8, b: u8) -> bool {
    byte & (0x80u8 >> b) != 0
}

/// The sum of two bytes, reduced modulo 256.
pub open spec fn wrapped_sum(a: u8, b: u8) -> u8 {
    ((a as int + b as int) % 256) as u8
}

/// The difference of two bytes, reduced modulo 256.
pub open spec fn wrapped_difference(a: u8, b: u8) -> u8 {
    ((a as int - b as int) % 256) as u8
}

/// 1 if the sum of two bytes exceeds a byte, else 0.
pub open spec fn carry_flag(a: u8, b: u8) -> u8 {
    if a as int + b as int > 255 { 1 } else { 0 }
}

/// 1 if `b` can be subtracted from `a` without borrowing, else 0.
pub open spec fn no_borrow_flag(a: u8, b: u8) -> u8 {
    if a >= b { 1 } else { 0 }
}

/// The lowest-numbered key that is down in `after` and was up in `before`,
/// looking at the keys from `from` on.
pub open spec fn first_press(before: Seq<bool>, after: Seq<bool>, from: int) -> Option<u8>
    decreases 16 - from,
{
    if from < 0 || from >= 16 {
        None
    } else if after[from] && !before[from] {
        Some(from as u8)
    } else {
        first_press(before, after, from + 1)
    }
}

impl Machine {
    /// The shape that every machine has: sixteen registers and keys, a full
    /// memory and display, cells of 0 or 1, a stack within its depth.
    pub open spec fn wf(self) -> bool {
        &&& self.v.len() == 16
        &&& self.stack.len() <= STACK_DEPTH
        &&& self.mem.len() == MEMORY_SIZE
        &&& self.screen.len() == SCREEN_HEIGHT
        &&& forall|r: int| 0 <= r < SCREEN_HEIGHT ==> (#[trigger] self.screen[r]).len() == SCREEN_WIDTH
        &&& forall|r: int, c: int|
            0 <= r < SCREEN_HEIGHT && 0 <= c < SCREEN_WIDTH ==> #[trigger] self.screen[r][c] <= 1
        &&& self.keys.len() == 16
        &&& (self.waiting matches Some(x) ==> x < 16)
    }

    /// The machine at power-on: everything zero, the program counter at the
    /// load address.
    pub open spec fn initial() -> Machine {
        Machine {
            opcode: 0,
            v: Seq::new(16, |k: int| 0u8),
            i: 0,
            pc: PROGRAM_START,
            stack: Seq::empty(),
            mem: Seq::new(MEMORY_SIZE as nat, |a: int| 0u8),
            screen: blank_screen(),
            redraw: false,
            redraw_section: (0, 0, 0, 0),
            keys: Seq::new(16, |k: int| false),
            delay_t: 0,
            sound_t: 0,
            waiting: None,
        }
    }

    /// Loading a program: the glyph table goes to the bottom of the memory,
    /// the program to the load address, and every other byte stays. A program
    /// that does not fit changes nothing and is reported.
    pub open spec fn load_rom(self, rom: Seq<u8>) -> Outcome {
        if PROGRAM_START + rom.len() > MEMORY_SIZE {
            (self, Err(Fault::LoadError))
        } else {
            (
                Machine {
                    mem: Seq::new(
                        MEMORY_SIZE as nat,
                        |a: int|
                            if a < FONT_SIZE {
                                glyphs()[a]
                            } else if PROGRAM_START <= a < PROGRAM_START + rom.len() {
                                rom[a - PROGRAM_START]
                            } else {
                                self.mem[a]
                            },
                    ),
                    ..self
                },
                Ok(()),
            )
        }
    }

    /// The value of the register that the `X` field names.
    pub open spec fn vx(self) -> u8 {
        self.v[x_of(self.opcode)]
    }

    /// The value of the register that the `Y` field names.
    pub open spec fn vy(self) -> u8 {
        self.v[y_of(self.opcode)]
    }

    /// The program counter moved forward by `by`, modulo 65536.
    pub open spec fn pc_plus(self, by: int) -> u16 {
        ((self.pc as int + by) % 0x10000) as u16
    }

    /// The machine with the program counter on the next instruction.
    pub open spec fn advance(self) -> Machine {
        Machine { pc: self.pc_plus(2), ..self }
    }

    /// The machine with the program counter past the next instruction if
    /// `condition` holds, on the next instruction if not.
    pub open spec fn skip_if(self, condition: bool) -> Machine {
        Machine { pc: self.pc_plus(if condition { 4 } else { 2 }), ..self }
    }

    /// The machine with `value` in register `X`.
    pub open spec fn with_vx(self, value: u8) -> Machine {
        Machine { v: self.v.update(x_of(self.opcode), value), ..self }
    }

    /// The machine with `flag` in the flag register and then `value` in
    /// register `X`. Where `X` is the flag register, `value` is what stays.
    pub open spec fn with_flag_and_vx(self, flag: u8, value: u8) -> Machine {
        Machine { v: self.v.update(FLAG as int, flag).update(x_of(self.opcode), value), ..self }
    }

    /// Instruction `00E0`: every cell of the display off, the whole display
    /// marked for redrawing.
    pub open spec fn screen_clear(self) -> Machine {
        Machine {
            screen: blank_screen(),
            redraw: true,
            redraw_section: (0, 0, SCREEN_HEIGHT, SCREEN_WIDTH),
            ..self
        }.advance()
    }

    /// Instruction `00EE`: return to the instruction after the most recent
    /// call. With an empty stack nothing changes and a fault is reported.
    pub open spec fn subroutine_return(self) -> Outcome {
        if self.stack.len() == 0 {
            (self, Err(Fault::StackUnderflow))
        } else {
            (
                Machine {
                    pc: ((self.stack.last() as int + 2) % 0x10000) as u16,
                    stack: self.stack.drop_last(),
                    ..self
                },
                Ok(()),
            )
        }
    }

    /// Instruction `1NNN`: continue at `NNN`.
    pub open spec fn jump_to_address(self) -> Machine {
        Machine { pc: nnn_of(self.opcode), ..self }
    }

    /// Instruction `2NNN`: remember the address of this instruction and
    /// continue at `NNN`. With a full stack nothing changes and a fault is
    /// reported.
    pub open spec fn call_subroutine(self) -> Outcome {
        if self.stack.len() >= STACK_DEPTH {
            (self, Err(Fault::StackOverflow))
        } else {
            (Machine { stack: self.stack.push(self.pc), pc: nnn_of(self.opcode), ..self }, Ok(()))
        }
    }

    /// Instruction `3XNN`: skip the next instruction if register `X` holds `NN`.
    pub open spec fn skip_if_vx(self) -> Machine {
        self.skip_if(self.vx() == nn_of(self.opcode))
    }

    /// Instruction `4XNN`: skip the next instruction unless register `X` holds
    /// `NN`.
    pub open spec fn skip_if_not_vx(self) -> Machine {
        self.skip_if(self.vx() != nn_of(self.opcode))
    }

    /// Instruction `5XY0`: skip the next instruction if registers `X` and `Y`
    /// hold the same value.
    pub open spec fn skip_if_vx_equals_vy(self) -> Machine {
        self.skip_if(self.vx() == self.vy())
    }

    /// Instruction `6XNN`: put `NN` into register `X`.
    pub open spec fn set_vx(self) -> Machine {
        self.with_vx(nn_of(self.opcode)).advance()
    }

    /// Instruction `7XNN`: add `NN` to register `X` modulo 256; no flag.
    pub open spec fn add_vx_no_carry(self) -> Machine {
        self.with_vx(wrapped_sum(self.vx(), nn_of(self.opcode))).advance()
    }

    /// Instruction `8XY0`: copy register `Y` into register `X`.
    pub open spec fn set_vx_to_vy(self) -> Machine {
        self.with_vx(self.vy()).advance()
    }

    /// Instruction `8XY1`: bitwise or of registers `X` and `Y` into `X`.
    pub open spec fn set_vx_or_vy(self) -> Machine {
        self.with_vx(self.vx() | self.vy()).advance()
    }

    /// Instruction `8XY2`: bitwise and of registers `X` and `Y` into `X`.
    pub open spec fn set_vx_and_vy(self) -> Machine {
        self.with_vx(self.vx() & self.vy()).advance()
    }

    /// Instruction `8XY3`: bitwise exclusive or of registers `X` and `Y` into
    /// `X`.
    pub open spec fn set_vx_xor_vy(self) -> Machine {
        self.with_vx(self.vx() ^ self.vy()).advance()
    }

    /// Instruction `8XY4`: the flag becomes the carry of `X + Y`, register `X`
    /// their sum modulo 256.
    pub open spec fn add_vy_to_vx_carry(self) -> Machine {
        self.with_flag_and_vx(
            carry_flag(self.vx(), self.vy()),
            wrapped_sum(self.vx(), self.vy()),
        ).advance()
    }

    /// Instruction `8XY5`: the flag becomes 1 if `X >= Y`, register `X` the
    /// difference `X - Y` modulo 256.
    pub open spec fn subtract_vy_from_vx_borrow(self) -> Machine {
        self.with_flag_and_vx(
            no_borrow_flag(self.vx(), self.vy()),
            wrapped_difference(self.vx(), self.vy()),
        ).advance()
    }

    /// Instruction `8XY6`: the flag becomes the lowest bit of register `X`,
    /// register `X` is halved.
    pub open spec fn vx_store_least_and_right_shift(self) -> Machine {
        self.with_flag_and_vx(self.vx() % 2, self.vx() / 2).advance()
    }

    /// Instruction `8XY7`: the flag becomes 1 if `Y >= X`, register `X` the
    /// difference `Y - X` modulo 256.
    pub open spec fn set_vx_to_vy_minus_vx(self) -> Machine {
        self.with_flag_and_vx(
            no_borrow_flag(self.vy(), self.vx()),
            wrapped_difference(self.vy(), self.vx()),
        ).advance()
    }

    /// Instruction `8XYE`: the flag becomes the highest bit of register `X`,
    /// register `X` is doubled modulo 256.
    pub open spec fn vx_store_most_and_left_shift(self) -> Machine {
        self.with_flag_and_vx(self.vx() / 128, wrapped_sum(self.vx(), self.vx())).advance()
    }

    /// Instruction `9XY0`: skip the next instruction if registers `X` and `Y`
    /// differ.
    pub open spec fn skip_if_vx_not_equals_vy(self) -> Machine {
        self.skip_if(self.vx() != self.vy())
    }

    /// Instruction `ANNN`: put `NNN` into the index register.
    pub open spec fn set_i(self) -> Machine {
        Machine { i: nnn_of(self.opcode), ..self }.advance()
    }

    /// Instruction `BNNN`: continue at `NNN` plus register 0.
    pub open spec fn jump_to_v0_plus_nnn(self) -> Machine {
        Machine { pc: ((self.v[0] as int + nnn_of(self.opcode) as int) % 0x10000) as u16, ..self }
    }

    /// Instruction `CXNN`: put the bitwise and of `random` and `NN` into
    /// register `X`.
    pub open spec fn rand_and(self, random: u8) -> Machine {
        self.with_vx(random & nn_of(self.opcode)).advance()
    }

    /// Whether drawing flips the cell in row `r`, column `c`: the sprite, laid
    /// with its top left corner at column `X`, row `Y` and wrapped round both
    /// edges of the display, has a set bit there.
    pub open spec fn sprite_covers(self, r: int, c: int) -> bool {
        let line = (r - self.vy()) % (SCREEN_HEIGHT as int);
        let bit = (c - self.vx()) % (SCREEN_WIDTH as int);
        &&& line < n_of(self.opcode)
        &&& bit < 8
        &&& sprite_bit(self.mem[self.i + line], bit as u8)
    }

    /// The display after drawing: the cells that the sprite covers flipped,
    /// the others as they were.
    pub open spec fn drawn_screen(self) -> Seq<Seq<u8>> {
        Seq::new(
            SCREEN_HEIGHT as nat,
            |r: int|
                Seq::new(
                    SCREEN_WIDTH as nat,
                    |c: int|
                        if self.sprite_covers(r, c) {
                            (1 - self.screen[r][c]) as u8
                        } else {
                            self.screen[r][c]
                        },
                ),
        )
    }

    /// Whether drawing turns off a cell that was on.
    pub open spec fn sprite_collides(self) -> bool {
        exists|r: int, c: int|
            0 <= r < SCREEN_HEIGHT && 0 <= c < SCREEN_WIDTH && self.screen[r][c] == 1
                && #[trigger] self.sprite_covers(r, c)
    }

    /// Instruction `DXYN`: draw the sprite of `N` rows that starts at the index
    /// register; the flag tells whether a cell was turned off. Where a row of
    /// the sprite lies beyond the memory nothing changes and a fault is
    /// reported.
    pub open spec fn draw(self) -> Outcome {
        if n_of(self.opcode) > 0 && self.i + n_of(self.opcode) > MEMORY_SIZE {
            (self, Err(Fault::OutOfBoundsAccess))
        } else {
            (
                Machine {
                    v: self.v.update(FLAG as int, if self.sprite_collides() { 1u8 } else { 0u8 }),
                    screen: self.drawn_screen(),
                    redraw: true,
                    redraw_section: (
                        self.vy() as usize,
                        self.vx() as usize,
                        n_of(self.opcode) as usize,
                        8,
                    ),
                    ..self
                }.advance(),
                Ok(()),
            )
        }
    }

    /// Instruction `EX9E`: skip the next instruction if the key that register
    /// `X` numbers is down. Where it numbers no key nothing changes and a
    /// fault is reported.
    pub open spec fn skip_if_pressed(self) -> Outcome {
        if self.vx() >= 16 {
            (self, Err(Fault::OutOfBoundsAccess))
        } else {
            (self.skip_if(self.keys[self.vx() as int]), Ok(()))
        }
    }

    /// Instruction `EXA1`: skip the next instruction if the key that register
    /// `X` numbers is up. Where it numbers no key nothing changes and a fault
    /// is reported.
    pub open spec fn skip_if_not_pressed(self) -> Outcome {
        if self.vx() >= 16 {
            (self, Err(Fault::OutOfBoundsAccess))
        } else {
            (self.skip_if(!self.keys[self.vx() as int]), Ok(()))
        }
    }

    /// Instruction `FX07`: copy the delay timer into register `X`.
    pub open spec fn set_vx_delay_t(self) -> Machine {
        self.with_vx(self.delay_t).advance()
    }

    /// Instruction `FX0A`: suspend the machine until a key is pressed. The
    /// program counter stays on this instruction meanwhile.
    pub open spec fn wait_for_key(self) -> Machine {
        Machine { waiting: Some(x_of(self.opcode) as u8), ..self }
    }

    /// Instruction `FX15`: copy register `X` into the delay timer.
    pub open spec fn set_delay_t_vx(self) -> Machine {
        Machine { delay_t: self.vx(), ..self }.advance()
    }

    /// Instruction `FX18`: copy register `X` into the sound timer.
    pub open spec fn set_sound_t_vx(self) -> Machine {
        Machine { sound_t: self.vx(), ..self }.advance()
    }

    /// Instruction `FX1E`: add register `X` to the index register modulo
    /// 65536.
    pub open spec fn add_i_vx_no_carry(self) -> Machine {
        Machine { i: ((self.i as int + self.vx() as int) % 0x10000) as u16, ..self }.advance()
    }

    /// Instruction `FX29`: point the index register at the glyph of the digit
    /// in register `X`; glyphs are five bytes each and start at address 0.
    pub open spec fn set_i_to_font_address(self) -> Machine {
        Machine { i: (self.vx() as int * 5) as u16, ..self }.advance()
    }

    /// Instruction `FX33`: write the hundreds, tens and ones digit of register
    /// `X` to the three bytes at the index register. Where one of them lies
    /// beyond the memory nothing changes and a fault is reported.
    pub open spec fn bcd(self) -> Outcome {
        if self.i + 2 >= MEMORY_SIZE {
            (self, Err(Fault::OutOfBoundsAccess))
        } else {
            (
                Machine {
                    mem: self.mem.update(self.i as int, self.vx() / 100).update(
                        self.i + 1,
                        (self.vx() % 100) / 10,
                    ).update(self.i + 2, self.vx() % 10),
                    ..self
                }.advance(),
                Ok(()),
            )
        }
    }

    /// Instruction `FX55`: copy registers 0 to `X` to the memory at the index
    /// register. Where one of the bytes lies beyond the memory nothing changes
    /// and a fault is reported.
    pub open spec fn dump_v0_to_vx(self) -> Outcome {
        let x = x_of(self.opcode);
        if self.i + x >= MEMORY_SIZE {
            (self, Err(Fault::OutOfBoundsAccess))
        } else {
            (
                Machine {
                    mem: Seq::new(
                        MEMORY_SIZE as nat,
                        |a: int|
                            if self.i <= a <= self.i + x {
                                self.v[a - self.i]
                            } else {
                                self.mem[a]
                            },
                    ),
                    ..self
                }.advance(),
                Ok(()),
            )
        }
    }

    /// Instruction `FX65`: copy the memory at the index register to registers
    /// 0 to `X`. Where one of the bytes lies beyond the memory nothing changes
    /// and a fault is reported.
    pub open spec fn fill_v0_to_vx(self) -> Outcome {
        let x = x_of(self.opcode);
        if self.i + x >= MEMORY_SIZE {
            (self, Err(Fault::OutOfBoundsAccess))
        } else {
            (
                Machine {
                    v: Seq::new(16, |k: int| if k <= x { self.mem[self.i + k] } else { self.v[k] }),
                    ..self
                }.advance(),
                Ok(()),
            )
        }
    }

    /// Whether the fetched word is an instruction of the machine.
    pub open spec fn recognized(op: u16) -> bool {
        let f = family_of(op);
        let n = n_of(op);
        let nn = nn_of(op);
        if f == 0x0 {
            op == 0x00E0 || op == 0x00EE
        } else if f == 0x5 || f == 0x9 {
            n == 0
        } else if f == 0x8 {
            n <= 7 || n == 0xE
        } else if f == 0xE {
            nn == 0x9E || nn == 0xA1
        } else if f == 0xF {
            nn == 0x07 || nn == 0x0A || nn == 0x15 || nn == 0x18 || nn == 0x1E || nn == 0x29
                || nn == 0x33 || nn == 0x55 || nn == 0x65
        } else {
            true
        }
    }

    /// The effect of the instruction in `opcode`. `random` is the byte that
    /// instruction `CXNN` combines with `NN`; no other instruction looks at
    /// it. A word that is no instruction changes nothing and is reported.
    pub open spec fn execute(self, random: u8) -> Outcome {
        let op = self.opcode;
        let f = family_of(op);
        let n = n_of(op);
        let nn = nn_of(op);
        if !Self::recognized(op) {
            (self, Err(Fault::DecodeError))
        } else if f == 0x0 {
            if op == 0x00E0 {
                (self.screen_clear(), Ok(()))
            } else {
                self.subroutine_return()
            }
        } else if f == 0x1 {
            (self.jump_to_address(), Ok(()))
        } else if f == 0x2 {
            self.call_subroutine()
        } else if f == 0x3 {
            (self.skip_if_vx(), Ok(()))
        } else if f == 0x4 {
            (self.skip_if_not_vx(), Ok(()))
        } else if f == 0x5 {
            (self.skip_if_vx_equals_vy(), Ok(()))
        } else if f == 0x6 {
            (self.set_vx(), Ok(()))
        } else if f == 0x7 {
            (self.add_vx_no_carry(), Ok(()))
        } else if f == 0x8 {
            if n == 0x0 {
                (self.set_vx_to_vy(), Ok(()))
            } else if n == 0x1 {
                (self.set_vx_or_vy(), Ok(()))
            } else if n == 0x2 {
                (self.set_vx_and_vy(), Ok(()))
            } else if n == 0x3 {
                (self.set_vx_xor_vy(), Ok(()))
            } else if n == 0x4 {
                (self.add_vy_to_vx_carry(), Ok(()))
            } else if n == 0x5 {
                (self.subtract_vy_from_vx_borrow(), Ok(()))
            } else if n == 0x6 {
                (self.vx_store_least_and_right_shift(), Ok(()))
            } else if n == 0x7 {
                (self.set_vx_to_vy_minus_vx(), Ok(()))
            } else {
                (self.vx_store_most_and_left_shift(), Ok(()))
            }
        } else if f == 0x9 {
            (self.skip_if_vx_not_equals_vy(), Ok(()))
        } else if f == 0xA {
            (self.set_i(), Ok(()))
        } else if f == 0xB {
            (self.jump_to_v0_plus_nnn(), Ok(()))
        } else if f == 0xC {
            (self.rand_and(random), Ok(()))
        } else if f == 0xD {
            self.draw()
        } else if f == 0xE {
            if nn == 0x9E {
                self.skip_if_pressed()
            } else {
                self.skip_if_not_pressed()
            }
        } else {
            if nn == 0x07 {
                (self.set_vx_delay_t(), Ok(()))
            } else if nn == 0x0A {
                (self.wait_for_key(), Ok(()))
            } else if nn == 0x15 {
                (self.set_delay_t_vx(), Ok(()))
            } else if nn == 0x18 {
                (self.set_sound_t_vx(), Ok(()))
            } else if nn == 0x1E {
                (self.add_i_vx_no_carry(), Ok(()))
            } else if nn == 0x29 {
                (self.set_i_to_font_address(), Ok(()))
            } else if nn == 0x33 {
                self.bcd()
            } else if nn == 0x55 {
                self.dump_v0_to_vx()
            } else {
                self.fill_v0_to_vx()
            }
        }
    }

    /// The word at the program counter, high byte first.
    pub open spec fn fetched(self) -> u16 {
        word_of(self.mem[self.pc as int], self.mem[self.pc + 1])
    }

    /// Whether the next cycle executes instruction `CXNN`, the one that asks
    /// for a random byte.
    pub open spec fn wants_random(self) -> bool {
        &&& self.waiting is None
        &&& self.pc as int + 1 < MEMORY_SIZE
        &&& family_of(self.fetched()) == 0xC
    }

    /// One cycle: fetch the word at the program counter into `opcode` and
    /// execute it. A suspended machine stays as it is. A program counter that
    /// leaves no room for a word changes nothing and is reported.
    pub open spec fn step(self, random: u8) -> Outcome {
        if self.waiting is Some {
            (self, Ok(()))
        } else if self.pc as int + 1 >= MEMORY_SIZE {
            (self, Err(Fault::OutOfBoundsAccess))
        } else {
            Machine { opcode: self.fetched(), ..self }.execute(random)
        }
    }

    /// One tick of the timers: each goes down by one and stays at zero.
    pub open spec fn tick(self) -> Machine {
        Machine {
            delay_t: if self.delay_t > 0 { (self.delay_t - 1) as u8 } else { 0 },
            sound_t: if self.sound_t > 0 { (self.sound_t - 1) as u8 } else { 0 },
            ..self
        }
    }

    /// The machine after `n` ticks of the timers.
    pub open spec fn ticks(self, n: nat) -> Machine
        decreases n,
    {
        if n == 0 {
            self
        } else {
            self.tick().ticks((n - 1) as nat)
        }
    }

    /// The suspended machine after key `key` was pressed: the waiting register
    /// holds the key, the program counter is past the wait instruction.
    pub open spec fn resume(self, key: u8) -> Machine {
        match self.waiting {
            Some(x) => Machine { v: self.v.update(x as int, key), waiting: None, ..self }.advance(),
            None => self,
        }
    }

    /// The machine after the host reported key `key` as down (`status`) or up.
    /// A key going down ends a wait.
    pub open spec fn set_key(self, key: u8, status: bool) -> Machine {
        let pressed = Machine { keys: self.keys.update(key as int, status), ..self };
        if status {
            pressed.resume(key)
        } else {
            pressed
        }
    }

    /// The machine after the host replaced the state of all keys. The
    /// lowest-numbered key that went down, if there is one, ends a wait.
    pub open spec fn set_keys(self, keys: Seq<bool>) -> Machine {
        let replaced = Machine { keys: keys, ..self };
        match first_press(self.keys, keys, 0) {
            Some(key) => replaced.resume(key),
            None => replaced,
        }
    }
}

} // verus!
