//! What holds of the machine model whatever program runs.

use vstd::prelude::*;
use crate::fault::Fault;
use crate::font::{FONT_SIZE, GLYPH_SIZE};
use crate::machine::{
    blank_screen, carry_flag, first_press, no_borrow_flag, sprite_bit, wrapped_difference, wrapped_sum,
    Machine, FLAG, MEMORY_SIZE, SCREEN_HEIGHT, SCREEN_WIDTH,
};
use crate::opcode::{family_of, n_of, nn_of, nnn_of, x_of, y_of};

verus! {

/// The fields of an instruction word name registers, a nibble, a family and an
/// address inside the memory.
pub proof fn lemma_fields_in_range(op: u16)
    ensures
        0 <= x_of(op) < 16,
        0 <= y_of(op) < 16,
        0 <= n_of(op) < 16,
        0 <= family_of(op) < 16,
        nnn_of(op) < MEMORY_SIZE,
{
}

/// Drawing keeps the shape of the machine: a flipped cell still holds 0 or 1.
pub proof fn lemma_draw_keeps_wf(m: Machine)
    requires
        m.wf(),
    ensures
        m.draw().0.wf(),
{
    let after = m.draw().0;
    if m.draw().1 is Ok {
        assert(after.screen == m.drawn_screen());
        assert forall|r: int, c: int|
            0 <= r < SCREEN_HEIGHT && 0 <= c < SCREEN_WIDTH implies #[trigger] after.screen[r][c]
            <= 1 by {
            assert(m.screen[r][c] <= 1);
        }
    }
}

/// Executing an instruction keeps the shape of the machine: the stack never
/// grows beyond its depth, the cells of the display stay 0 or 1, and a waiting
/// register is a register.
pub proof fn lemma_execute_keeps_wf(m: Machine, random: u8)
    requires
        m.wf(),
    ensures
        m.execute(random).0.wf(),
{
    lemma_fields_in_range(m.opcode);
    if family_of(m.opcode) == 0xD {
        lemma_draw_keeps_wf(m);
    } else {
        assert(m.execute(random).0.screen == m.screen || m.execute(random).0.screen
            == blank_screen());
    }
}

/// A cycle keeps the shape of the machine.
pub proof fn lemma_step_keeps_wf(m: Machine, random: u8)
    requires
        m.wf(),
    ensures
        m.step(random).0.wf(),
{
    if m.waiting is None && m.pc + 1 < MEMORY_SIZE {
        lemma_execute_keeps_wf(Machine { opcode: m.fetched(), ..m }, random);
    }
}

/// An instruction that reports a fault leaves the machine as it was.
pub proof fn lemma_fault_changes_nothing(m: Machine, random: u8)
    ensures
        m.execute(random).1 is Err ==> m.execute(random).0 == m,
{
}

/// A word that is no instruction is reported as such and changes nothing, and
/// no instruction is reported so.
pub proof fn lemma_decode_error_iff_unrecognized(m: Machine, random: u8)
    ensures
        !Machine::recognized(m.opcode) ==> m.execute(random) == (m, Err::<(), Fault>(Fault::DecodeError)),
        Machine::recognized(m.opcode) ==> m.execute(random).1 != Err::<(), Fault>(Fault::DecodeError),
{
}

/// A cycle that fetches a word that is no instruction reports it and changes
/// nothing but the record of the fetched word.
pub proof fn lemma_step_reports_unrecognized(m: Machine, random: u8)
    requires
        m.waiting is None,
        m.pc + 1 < MEMORY_SIZE,
        !Machine::recognized(m.fetched()),
    ensures
        m.step(random) == (Machine { opcode: m.fetched(), ..m }, Err::<(), Fault>(Fault::DecodeError)),
{
}

/// Only instruction `CXNN` depends on the random byte.
pub proof fn lemma_random_matters_to_one_instruction(m: Machine, one: u8, other: u8)
    ensures
        family_of(m.opcode) != 0xC ==> m.execute(one) == m.execute(other),
        !m.wants_random() ==> m.step(one) == m.step(other),
{
}

/// Only clearing and drawing touch the display and ask for it to be shown.
pub proof fn lemma_only_clear_and_draw_touch_the_display(m: Machine, random: u8)
    requires
        m.opcode != 0x00E0,
        family_of(m.opcode) != 0xD,
    ensures
        m.execute(random).0.screen == m.screen,
        m.execute(random).0.redraw == m.redraw,
        m.execute(random).0.redraw_section == m.redraw_section,
{
}

/// An instruction that completes has read and written memory only inside the
/// memory: the index register plus the offsets it used stayed below the end.
pub proof fn lemma_memory_access_in_bounds(m: Machine, random: u8)
    requires
        m.execute(random).1 is Ok,
    ensures
        family_of(m.opcode) == 0xD && n_of(m.opcode) > 0 ==> m.i + n_of(m.opcode) <= MEMORY_SIZE,
        family_of(m.opcode) == 0xF && nn_of(m.opcode) == 0x33 ==> m.i + 2 < MEMORY_SIZE,
        family_of(m.opcode) == 0xF && (nn_of(m.opcode) == 0x55 || nn_of(m.opcode) == 0x65) ==> m.i
            + x_of(m.opcode) < MEMORY_SIZE,
        family_of(m.opcode) == 0xE ==> m.vx() < 16,
{
}

/// Apart from jumps, calls, returns and waiting for a key, an instruction
/// that completes moves the program counter forward by 2, or by 4 if it is a
/// skip whose condition holds; a fault does not move it.
pub proof fn lemma_program_counter_moves(m: Machine, random: u8)
    requires
        Machine::recognized(m.opcode),
    ensures
        ({
            let f = family_of(m.opcode);
            let after = m.execute(random);
            let transfers = f == 0x1 || f == 0x2 || f == 0xB || m.opcode == 0x00EE || (f == 0xF
                && nn_of(m.opcode) == 0x0A);
            let skips = f == 0x3 || f == 0x4 || f == 0x5 || f == 0x9 || f == 0xE;
            &&& after.1 is Err ==> after.0.pc == m.pc
            &&& after.1 is Ok && !transfers && !skips ==> after.0.pc == m.pc_plus(2)
            &&& after.1 is Ok && skips ==> after.0.pc == m.pc_plus(2) || after.0.pc == m.pc_plus(4)
        }),
{
}

/// Add with carry: register `X` gets the sum modulo 256, and the flag is 1
/// exactly if the sum exceeds 255. The flag can be read afterwards unless `X`
/// is the flag register itself.
pub proof fn lemma_add_with_carry(m: Machine)
    requires
        m.wf(),
    ensures
        ({
            let after = m.add_vy_to_vx_carry();
            let sum = m.vx() as int + m.vy() as int;
            &&& after.v[x_of(m.opcode)] == sum % 256
            &&& x_of(m.opcode) != FLAG ==> (after.v[FLAG as int] == 1 <==> sum > 255)
            &&& x_of(m.opcode) != FLAG ==> (after.v[FLAG as int] == 0 <==> sum <= 255)
        }),
        forall|a: u8, b: u8| #[trigger] carry_flag(a, b) == 1 <==> a + b > 255,
        forall|a: u8, b: u8| #[trigger] carry_flag(a, b) == 0 <==> a + b <= 255,
        forall|a: u8, b: u8| #[trigger] wrapped_sum(a, b) == (a + b) % 256,
{
    lemma_fields_in_range(m.opcode);
}

/// Subtract with borrow: register `X` gets the difference modulo 256, and the
/// flag is 1 exactly if nothing had to be borrowed, that is if `X >= Y`. The
/// flag can be read afterwards unless `X` is the flag register itself.
pub proof fn lemma_subtract_with_borrow(m: Machine)
    requires
        m.wf(),
    ensures
        ({
            let after = m.subtract_vy_from_vx_borrow();
            &&& after.v[x_of(m.opcode)] == (m.vx() - m.vy()) % 256
            &&& x_of(m.opcode) != FLAG ==> (after.v[FLAG as int] == 1 <==> m.vx() >= m.vy())
            &&& x_of(m.opcode) != FLAG ==> (after.v[FLAG as int] == 0 <==> m.vx() < m.vy())
        }),
        forall|a: u8, b: u8| #[trigger] no_borrow_flag(a, b) == 1 <==> a >= b,
        forall|a: u8, b: u8| #[trigger] no_borrow_flag(a, b) == 0 <==> a < b,
        forall|a: u8, b: u8| #[trigger] wrapped_difference(a, b) == (a - b) % 256,
{
    lemma_fields_in_range(m.opcode);
}

/// Reversed subtract: register `X` gets `Y - X` modulo 256, and the flag is 1
/// exactly if `Y >= X`.
pub proof fn lemma_reverse_subtract_with_borrow(m: Machine)
    requires
        m.wf(),
    ensures
        ({
            let after = m.set_vx_to_vy_minus_vx();
            &&& after.v[x_of(m.opcode)] == (m.vy() - m.vx()) % 256
            &&& x_of(m.opcode) != FLAG ==> (after.v[FLAG as int] == 1 <==> m.vy() >= m.vx())
            &&& x_of(m.opcode) != FLAG ==> (after.v[FLAG as int] == 0 <==> m.vy() < m.vx())
        }),
{
    lemma_fields_in_range(m.opcode);
}

/// The columns of a sprite row are the binary digits of its byte, the one
/// worth 128 on the left and the one worth 1 on the right.
pub proof fn lemma_sprite_bits_are_binary_digits(byte: u8)
    ensures
        sprite_bit(byte, 0) == (byte / 128 % 2 == 1),
        sprite_bit(byte, 1) == (byte / 64 % 2 == 1),
        sprite_bit(byte, 2) == (byte / 32 % 2 == 1),
        sprite_bit(byte, 3) == (byte / 16 % 2 == 1),
        sprite_bit(byte, 4) == (byte / 8 % 2 == 1),
        sprite_bit(byte, 5) == (byte / 4 % 2 == 1),
        sprite_bit(byte, 6) == (byte / 2 % 2 == 1),
        sprite_bit(byte, 7) == (byte % 2 == 1),
{
    assert((byte & (0x80u8 >> 0u8) != 0) == (byte / 128 % 2 == 1) && (byte & (0x80u8 >> 1u8) != 0)
        == (byte / 64 % 2 == 1) && (byte & (0x80u8 >> 2u8) != 0) == (byte / 32 % 2 == 1) && (byte
        & (0x80u8 >> 3u8) != 0) == (byte / 16 % 2 == 1) && (byte & (0x80u8 >> 4u8) != 0) == (byte
        / 8 % 2 == 1) && (byte & (0x80u8 >> 5u8) != 0) == (byte / 4 % 2 == 1) && (byte & (0x80u8
        >> 6u8) != 0) == (byte / 2 % 2 == 1) && (byte & (0x80u8 >> 7u8) != 0) == (byte % 2 == 1))
        by (bit_vector);
}

/// The bit in row `line`, column `bit` of a sprite lands on the cell in row
/// `(Y + line) mod 32`, column `(X + bit) mod 64`: sprites wrap round both
/// edges of the display.
pub proof fn lemma_sprite_wraps(m: Machine, line: int, bit: int)
    requires
        0 <= line < n_of(m.opcode),
        0 <= bit < 8,
    ensures
        m.sprite_covers(
            (m.vy() + line) % (SCREEN_HEIGHT as int),
            (m.vx() + bit) % (SCREEN_WIDTH as int),
        ) == sprite_bit(m.mem[m.i + line], bit as u8),
{
    let r = (m.vy() + line) % (SCREEN_HEIGHT as int);
    let c = (m.vx() + bit) % (SCREEN_WIDTH as int);
    assert((r - m.vy()) % (SCREEN_HEIGHT as int) == line);
    assert((c - m.vx()) % (SCREEN_WIDTH as int) == bit);
}

/// Drawing on a cleared display turns on exactly the cells that the sprite
/// covers, and reports no collision.
pub proof fn lemma_draw_on_cleared_display(m: Machine, op: u16)
    requires
        m.wf(),
        n_of(op) == 0 || m.i + n_of(op) <= MEMORY_SIZE,
    ensures
        ({
            let cleared = Machine { opcode: op, ..m.screen_clear() };
            let drawn = cleared.draw().0;
            &&& cleared.draw().1 is Ok
            &&& drawn.v[FLAG as int] == 0
            &&& forall|r: int, c: int|
                0 <= r < SCREEN_HEIGHT && 0 <= c < SCREEN_WIDTH ==> (#[trigger] drawn.screen[r][c] == 1
                    <==> cleared.sprite_covers(r, c))
            &&& forall|r: int, c: int|
                0 <= r < SCREEN_HEIGHT && 0 <= c < SCREEN_WIDTH ==> (#[trigger] drawn.screen[r][c] == 0
                    <==> !cleared.sprite_covers(r, c))
        }),
{
    let cleared = Machine { opcode: op, ..m.screen_clear() };
    assert(!cleared.sprite_collides());
}

/// Drawing the same sprite at the same place a second time brings back the
/// display as it was before the first time.
pub proof fn lemma_draw_twice_restores(first: Machine, second: Machine)
    requires
        first.wf(),
        first.draw().1 is Ok,
        second.screen == first.draw().0.screen,
        second.vx() == first.vx(),
        second.vy() == first.vy(),
        second.i == first.i,
        n_of(second.opcode) == n_of(first.opcode),
        forall|a: int|
            first.i <= a < first.i + n_of(first.opcode) ==> second.mem[a] == first.mem[a],
    ensures
        second.draw().1 is Ok,
        second.draw().0.screen == first.screen,
{
    assert forall|r: int, c: int| second.sprite_covers(r, c) == first.sprite_covers(r, c) by {}
    assert(second.draw().0.screen =~~= first.screen);
}

/// Clearing the display and then drawing the same sprite twice at the same
/// place leaves every cell off.
pub proof fn lemma_clear_draw_draw_is_blank(m: Machine, op: u16, second: Machine)
    requires
        m.wf(),
        n_of(op) == 0 || m.i + n_of(op) <= MEMORY_SIZE,
        ({
            let first = Machine { opcode: op, ..m.screen_clear() };
            &&& second.screen == first.draw().0.screen
            &&& second.vx() == first.vx()
            &&& second.vy() == first.vy()
            &&& second.i == first.i
            &&& n_of(second.opcode) == n_of(op)
            &&& forall|a: int| first.i <= a < first.i + n_of(op) ==> second.mem[a] == first.mem[a]
        }),
    ensures
        second.draw().1 is Ok,
        second.draw().0.screen == blank_screen(),
{
    lemma_draw_twice_restores(Machine { opcode: op, ..m.screen_clear() }, second);
}

/// Storing registers 0 to `X` and loading them back from the same address
/// gives every one of them the value it had, whatever happened to the
/// registers in between. This holds for every `X`.
pub proof fn lemma_store_then_load_round_trips(m: Machine, later: Machine)
    requires
        m.wf(),
        m.dump_v0_to_vx().1 is Ok,
        later.i == m.i,
        x_of(later.opcode) == x_of(m.opcode),
        later.mem == m.dump_v0_to_vx().0.mem,
    ensures
        later.fill_v0_to_vx().1 is Ok,
        forall|k: int| 0 <= k <= x_of(m.opcode) ==> later.fill_v0_to_vx().0.v[k] == m.v[k],
        later.v == m.v && later.v.len() == 16 ==> later.fill_v0_to_vx().0.v == m.v,
{
    lemma_fields_in_range(m.opcode);
    if later.v == m.v && later.v.len() == 16 {
        assert(later.fill_v0_to_vx().0.v =~= m.v);
    }
}

/// The three bytes that `FX33` writes are the decimal digits of register `X`,
/// the hundreds first.
pub proof fn lemma_bcd_digits(m: Machine)
    requires
        m.wf(),
        m.bcd().1 is Ok,
    ensures
        ({
            let after = m.bcd().0;
            let hundreds = after.mem[m.i as int];
            let tens = after.mem[m.i + 1];
            let ones = after.mem[m.i + 2];
            &&& hundreds <= 2 && tens <= 9 && ones <= 9
            &&& 100 * hundreds + 10 * tens + ones == m.vx()
        }),
{
}

/// For a hexadecimal digit in register `X`, `FX29` points the index register
/// at a whole glyph of the table that is loaded with a program.
pub proof fn lemma_glyph_lies_in_font(m: Machine)
    requires
        m.vx() < 16,
    ensures
        m.set_i_to_font_address().i == GLYPH_SIZE * m.vx(),
        m.set_i_to_font_address().i + GLYPH_SIZE <= FONT_SIZE,
{
}

/// A call followed by the matching return continues at the instruction after
/// the call, with the stack as it was before the call.
pub proof fn lemma_call_then_return(m: Machine, callee: Machine)
    requires
        m.call_subroutine().1 is Ok,
        callee.stack == m.call_subroutine().0.stack,
    ensures
        m.call_subroutine().0.pc == nnn_of(m.opcode),
        m.call_subroutine().0.stack.last() == m.pc,
        callee.subroutine_return().1 is Ok,
        callee.subroutine_return().0.pc == m.pc_plus(2),
        callee.subroutine_return().0.stack == m.stack,
{
    assert(m.stack.push(m.pc).drop_last() =~= m.stack);
}

/// Among the keys from `from` on, `first_press` finds the lowest-numbered one
/// that went down, and finds none only if none went down.
pub proof fn lemma_first_press_is_lowest(before: Seq<bool>, after: Seq<bool>, from: int)
    requires
        0 <= from <= 16,
    ensures
        match first_press(before, after, from) {
            Some(key) => {
                &&& from <= key < 16
                &&& after[key as int] && !before[key as int]
                &&& forall|k: int| from <= k < key ==> !(after[k] && !before[k])
            },
            None => forall|k: int| from <= k < 16 ==> !(after[k] && !before[k]),
        },
    decreases 16 - from,
{
    if from < 16 && !(after[from] && !before[from]) {
        lemma_first_press_is_lowest(before, after, from + 1);
    }
}

/// A key going down ends a wait: the waiting register receives the number of
/// the key and the program continues after the wait instruction. A key going
/// up, or a key going down while nothing waits, moves nothing but the key.
pub proof fn lemma_key_press_ends_wait(m: Machine, key: u8)
    requires
        m.wf(),
        key < 16,
    ensures
        m.set_key(key, true).waiting is None,
        m.waiting matches Some(x) ==> m.set_key(key, true).v[x as int] == key && m.set_key(
            key,
            true,
        ).pc == m.pc_plus(2),
        m.waiting is None ==> m.set_key(key, true) == (Machine {
            keys: m.keys.update(key as int, true),
            ..m
        }),
        m.set_key(key, false) == (Machine { keys: m.keys.update(key as int, false), ..m }),
{
}

/// After `n` ticks a timer that stood at `t` stands at `t - n`, or at zero if
/// `n` is more than `t`: timers stop at zero.
pub proof fn lemma_timers_stop_at_zero(m: Machine, n: nat)
    ensures
        m.ticks(n).delay_t == if n <= m.delay_t { m.delay_t - n } else { 0 },
        m.ticks(n).sound_t == if n <= m.sound_t { m.sound_t - n } else { 0 },
        m.ticks(n) == (Machine { delay_t: m.ticks(n).delay_t, sound_t: m.ticks(n).sound_t, ..m }),
    decreases n,
{
    if n > 0 {
        lemma_timers_stop_at_zero(m.tick(), (n - 1) as nat);
    }
}

} // verus!
