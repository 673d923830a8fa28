use crate::error::InterpreterError;
use crate::machine::{
    is_random, lowest_pressed, lowest_pressed_from, sprite_bit, step, Machine, KEY_COUNT,
    MEMORY_SIZE, PROGRAM_START, STACK_DEPTH,
};
use crate::opcode::{digits, instruction_of, word_of, Instruction, Opcode};
use vstd::prelude::*;

verus! {

/// Taking a word apart gives back the digits it was put together from.
pub proof fn law_digits_of_word(d1: u8, d2: u8, d3: u8, d4: u8)
    requires
        d1 < 16,
        d2 < 16,
        d3 < 16,
        d4 < 16,
    ensures
        digits(word_of(d1, d2, d3, d4)) == (d1, d2, d3, d4),
        word_of(d1, d2, d3, d4) % 0x100 == d3 * 0x10 + d4,
        word_of(d1, d2, d3, d4) % 0x1000 == d2 * 0x100 + d3 * 0x10 + d4,
{
    let w: int = d1 * 0x1000 + d2 * 0x100 + d3 * 0x10 + d4;
    assert(0 <= w < 0x10000);
    assert(word_of(d1, d2, d3, d4) == w);
    assert(w / 0x1000 == d1);
    assert(w / 0x100 == d1 * 0x10 + d2);
    assert(w / 0x10 == d1 * 0x100 + d2 * 0x10 + d3);
    assert(w / 0x100 % 16 == d2);
    assert(w / 0x10 % 16 == d3);
    assert(w % 16 == d4);
    assert(w % 0x100 == d3 * 0x10 + d4);
    assert(w % 0x1000 == d2 * 0x100 + d3 * 0x10 + d4);
}

/// A well-formed machine stays well formed through every instruction, and
/// an instruction that fails leaves the machine as it was.
pub proof fn law_apply_keeps_shape(m: Machine, instruction: Instruction, random: u8)
    requires
        m.wf(),
        instruction.wf(),
    ensures
        m.apply(instruction, random).after.wf(),
        m.apply(instruction, random).result is Err ==> m.apply(instruction, random).after == m,
{
}

/// A whole cycle keeps a machine well formed. Where the cycle fails, the
/// machine is unchanged but for the program counter, which stands behind
/// the word if the word could be fetched.
pub proof fn law_tick_keeps_shape(m: Machine, random: u8)
    requires
        m.wf(),
    ensures
        m.tick(random).after.wf(),
        m.tick(random).result is Err ==> m.tick(random).after == m || m.tick(random).after == (
        Machine { pc: (m.pc + 2) as u16, ..m }),
{
    match m.fetch() {
        Ok((fetched, opcode)) => {
            law_decoded_is_well_formed(opcode.raw);
            match instruction_of(opcode.raw) {
                Some(instruction) => law_apply_keeps_shape(fetched, instruction, random),
                None => {},
            }
        },
        Err(_) => {},
    }
}

/// Whatever a word decodes to selects only registers that exist.
pub proof fn law_decoded_is_well_formed(raw: u16)
    ensures
        instruction_of(raw) matches Some(instruction) ==> instruction.wf(),
{
}

/// Only `Cxnn` looks at the random byte.
pub proof fn law_random_only_in_cxnn(m: Machine, opcode: Opcode, first: u8, second: u8)
    requires
        !is_random(opcode.raw),
    ensures
        m.execute(opcode, first) == m.execute(opcode, second),
{
}

/// `8xy4` adds register `y` to register `x`. Afterwards `VF` is 1 if the
/// sum is above 255 and 0 if it is not, and register `x`, unless it is `VF`
/// itself, holds the sum modulo 256. The other registers and the rest of
/// the machine are untouched.
pub proof fn law_add_sets_carry(m: Machine, x: u8, y: u8, random: u8)
    requires
        m.wf(),
        x < 16,
        y < 16,
    ensures
        ({
            let a = m.v(x);
            let b = m.v(y);
            let s = m.execute(Opcode { raw: word_of(8, x, y, 4) }, random);
            &&& s.result is Ok
            &&& s.after.v(0xF) == 1 <==> a + b > 255
            &&& s.after.v(0xF) == 0 <==> a + b <= 255
            &&& x != 0xF ==> s.after.v(x) == (a + b) % 256
            &&& forall|r: u8| r < 16 && r != x && r != 0xF ==> s.after.v(r) == m.v(r)
            &&& s.after == (Machine { registers: s.after.registers, ..m })
        }),
{
    law_digits_of_word(8, x, y, 4);
}

/// `8xy5` subtracts register `y` from register `x`. Afterwards `VF` is 1 if
/// nothing had to be borrowed, that is if `Vx >= Vy`, and 0 otherwise, and
/// register `x`, unless it is `VF` itself, holds the difference modulo 256.
pub proof fn law_subtract_sets_no_borrow(m: Machine, x: u8, y: u8, random: u8)
    requires
        m.wf(),
        x < 16,
        y < 16,
    ensures
        ({
            let a = m.v(x);
            let b = m.v(y);
            let s = m.execute(Opcode { raw: word_of(8, x, y, 5) }, random);
            &&& s.result is Ok
            &&& s.after.v(0xF) == 1 <==> a >= b
            &&& s.after.v(0xF) == 0 <==> a < b
            &&& x != 0xF ==> s.after.v(x) == (a - b) % 256
            &&& forall|r: u8| r < 16 && r != x && r != 0xF ==> s.after.v(r) == m.v(r)
            &&& s.after == (Machine { registers: s.after.registers, ..m })
        }),
{
    law_digits_of_word(8, x, y, 5);
}

/// `8xy7` subtracts register `x` from register `y` into register `x`, with
/// the same flag: 1 if nothing had to be borrowed.
pub proof fn law_subtract_from_sets_no_borrow(m: Machine, x: u8, y: u8, random: u8)
    requires
        m.wf(),
        x < 16,
        y < 16,
    ensures
        ({
            let a = m.v(x);
            let b = m.v(y);
            let s = m.execute(Opcode { raw: word_of(8, x, y, 7) }, random);
            &&& s.result is Ok
            &&& s.after.v(0xF) == 1 <==> b >= a
            &&& s.after.v(0xF) == 0 <==> b < a
            &&& x != 0xF ==> s.after.v(x) == (b - a) % 256
        }),
{
    law_digits_of_word(8, x, y, 7);
}

/// After `00E0` the screen has 32 rows of 64 pixels and every one is off.
pub proof fn law_clear_screen(m: Machine, random: u8)
    requires
        m.wf(),
    ensures
        ({
            let s = m.execute(Opcode { raw: 0x00E0 }, random);
            &&& s.result is Ok
            &&& s.after.screen.len() == 32
            &&& forall|y: int| 0 <= y < 32 ==> (#[trigger] s.after.screen[y]).len() == 64
            &&& forall|y: int, x: int| 0 <= y < 32 && 0 <= x < 64 ==> !s.after.screen[y][x]
            &&& s.after == (Machine { screen: s.after.screen, ..m })
        }),
{
}

/// Bit `col` of sprite row `row` lands on the pixel `col` to the right of
/// and `row` below the corner, wrapped at the edges of the screen, and that
/// pixel changes exactly if the bit is set. No two bits of a sprite land on
/// the same pixel.
pub proof fn law_draw_toggles_bit(m: Machine, x: u8, y: u8, n: u8, row: int, col: int)
    requires
        m.wf(),
        x < 16,
        y < 16,
        n < 16,
        0 <= row < n,
        0 <= col < 8,
        m.draw(x, y, n).result is Ok,
    ensures
        ({
            let py = (m.v(y) + row) % 32;
            let px = (m.v(x) + col) % 64;
            let lit = sprite_bit(m.memory[m.index + row], col);
            m.draw(x, y, n).after.screen[py][px] == (m.screen[py][px] != lit)
        }),
{
    let py = (m.v(y) + row) % 32;
    let px = (m.v(x) + col) % 64;
    assert((px - m.v(x)) % 64 == col);
    assert((py - m.v(y)) % 32 == row);
}

/// A pixel outside the eight columns and `n` rows that the sprite covers,
/// counted from its corner with wrapping, is left alone.
pub proof fn law_draw_leaves_rest(m: Machine, x: u8, y: u8, n: u8, px: int, py: int)
    requires
        m.wf(),
        x < 16,
        y < 16,
        n < 16,
        0 <= px < 64,
        0 <= py < 32,
        m.draw(x, y, n).result is Ok,
        (px - m.v(x)) % 64 >= 8 || (py - m.v(y)) % 32 >= n,
    ensures
        m.draw(x, y, n).after.screen[py][px] == m.screen[py][px],
{
}

/// Drawing reports a collision exactly if some pixel is lit and has a set
/// bit of the sprite on it.
pub proof fn law_collision_by_pixel(m: Machine, vx: u8, vy: u8, n: u8)
    requires
        m.wf(),
        n < 16,
    ensures
        m.collides(vx, vy, n) <==> exists|py: int, px: int|
            0 <= py < 32 && 0 <= px < 64 && m.screen[py][px] && #[trigger] m.sprite_lights(
                vx,
                vy,
                n,
                px,
                py,
            ),
{
    if m.collides(vx, vy, n) {
        let (row, col) = choose|row: int, col: int|
            0 <= row < n && 0 <= col < 8 && #[trigger] m.erases(vx, vy, row, col);
        let py = (vy + row) % 32;
        let px = (vx + col) % 64;
        assert((px - vx) % 64 == col);
        assert((py - vy) % 32 == row);
        assert(m.screen[py][px] && m.sprite_lights(vx, vy, n, px, py));
    }
    if exists|py: int, px: int|
        0 <= py < 32 && 0 <= px < 64 && m.screen[py][px] && #[trigger] m.sprite_lights(
            vx,
            vy,
            n,
            px,
            py,
        ) {
        let (py, px) = choose|py: int, px: int|
            0 <= py < 32 && 0 <= px < 64 && m.screen[py][px] && #[trigger] m.sprite_lights(
                vx,
                vy,
                n,
                px,
                py,
            );
        let col = (px - vx) % 64;
        let row = (py - vy) % 32;
        assert(px == (vx + col) % 64 && py == (vy + row) % 32);
        assert(m.erases(vx, vy, row, col));
    }
}

/// Drawing the same sprite twice at the same place, with the index register
/// and the two coordinate registers unchanged in between, gives back the
/// screen as it was before the first drawing. The second drawing reports a
/// collision exactly if the first one turned some pixel on.
pub proof fn law_draw_twice_restores(m: Machine, x: u8, y: u8, n: u8)
    requires
        m.wf(),
        x < 16,
        y < 16,
        n < 16,
        m.draw(x, y, n).result is Ok,
        m.draw(x, y, n).after.v(x) == m.v(x),
        m.draw(x, y, n).after.v(y) == m.v(y),
    ensures
        ({
            let first = m.draw(x, y, n).after;
            let second = first.draw(x, y, n);
            &&& second.result is Ok
            &&& second.after.screen == m.screen
            &&& second.after.v(0xF) == 1 <==> exists|py: int, px: int|
                0 <= py < 32 && 0 <= px < 64 && !m.screen[py][px] && #[trigger] m.sprite_lights(
                    m.v(x),
                    m.v(y),
                    n,
                    px,
                    py,
                )
            &&& second.after.v(0xF) == 0 || second.after.v(0xF) == 1
            &&& second.after == (Machine { registers: second.after.registers, ..m })
        }),
{
    let vx = m.v(x);
    let vy = m.v(y);
    let first = m.draw(x, y, n).after;
    let second = first.draw(x, y, n);
    assert forall|py: int, px: int| 0 <= py < 32 && 0 <= px < 64 implies first.sprite_lights(
        vx,
        vy,
        n,
        px,
        py,
    ) == m.sprite_lights(vx, vy, n, px, py) by {}
    assert(second.after.screen =~~= m.screen);
    law_collision_by_pixel(first, vx, vy, n);
    if first.collides(vx, vy, n) {
        let (py, px) = choose|py: int, px: int|
            0 <= py < 32 && 0 <= px < 64 && first.screen[py][px] && #[trigger] first.sprite_lights(
                vx,
                vy,
                n,
                px,
                py,
            );
        assert(!m.screen[py][px] && m.sprite_lights(vx, vy, n, px, py));
    }
    if exists|py: int, px: int|
        0 <= py < 32 && 0 <= px < 64 && !m.screen[py][px] && #[trigger] m.sprite_lights(
            vx,
            vy,
            n,
            px,
            py,
        ) {
        let (py, px) = choose|py: int, px: int|
            0 <= py < 32 && 0 <= px < 64 && !m.screen[py][px] && #[trigger] m.sprite_lights(
                vx,
                vy,
                n,
                px,
                py,
            );
        assert(first.screen[py][px] && first.sprite_lights(vx, vy, n, px, py));
    }
    assert(second.after =~~= (Machine { registers: second.after.registers, ..m }));
}

/// The key that `Fx0A` reports is held down and no key below it is; it
/// reports none exactly if no key is held down.
pub proof fn law_lowest_pressed(keys: Seq<bool>)
    requires
        keys.len() == KEY_COUNT,
    ensures
        match lowest_pressed(keys) {
            Some(key) => key < 16 && keys[key as int] && forall|k: int| 0 <= k < key ==> !keys[k],
            None => forall|k: int| 0 <= k < 16 ==> !keys[k],
        },
{
    lemma_lowest_pressed_from(keys, 0);
}

proof fn lemma_lowest_pressed_from(keys: Seq<bool>, from: int)
    requires
        keys.len() == KEY_COUNT,
        0 <= from <= 16,
    ensures
        match lowest_pressed_from(keys, from) {
            Some(key) => from <= key < 16 && keys[key as int] && forall|k: int|
                from <= k < key ==> !keys[k],
            None => forall|k: int| from <= k < 16 ==> !keys[k],
        },
    decreases 16 - from,
{
    if from < 16 && !keys[from] {
        lemma_lowest_pressed_from(keys, from + 1);
    }
}

/// `Fx0A` with no key held down: the cycle succeeds and leaves the machine
/// exactly as it was, program counter included, so the same instruction is
/// met at the next cycle. With key `key` then pressed, the next cycle puts
/// `key` into register `x` and leaves the program counter behind the
/// instruction.
pub proof fn law_wait_key_repeats(m: Machine, x: u8, key: u8, random: u8)
    requires
        m.wf(),
        x < 16,
        key < 16,
        m.pc + 1 < MEMORY_SIZE,
        m.memory[m.pc as int] == 0xF0 + x,
        m.memory[m.pc + 1] == 0x0A,
        forall|k: int| 0 <= k < 16 ==> !m.keys[k],
    ensures
        m.tick(random) == step(m, Ok(())),
        ({
            let pressed = m.with_key(key as int, true);
            let s = pressed.tick(random);
            &&& s.result is Ok
            &&& s.after.v(x) == key
            &&& s.after.pc == m.pc + 2
            &&& s.after == (Machine { pc: (m.pc + 2) as u16, ..pressed.set_v(x, key) })
        }),
{
    law_digits_of_word(0xF, x, 0, 0xA);
    let raw = (m.memory[m.pc as int] * 256 + m.memory[m.pc + 1]) as u16;
    assert(raw == word_of(0xF, x, 0, 0xA));
    assert(instruction_of(raw) == Some(Instruction::WaitKey { x }));
    law_lowest_pressed(m.keys);
    let fetched = Machine { pc: (m.pc + 2) as u16, ..m };
    assert(m.fetch() == Ok::<(Machine, Opcode), InterpreterError>((fetched, Opcode { raw })));
    assert(fetched.wait_key(x).after =~~= m);
    let pressed = m.with_key(key as int, true);
    law_lowest_pressed(pressed.keys);
    assert(pressed.keys[key as int]);
    assert(lowest_pressed(pressed.keys) == Some(key));
    let refetched = Machine { pc: (m.pc + 2) as u16, ..pressed };
    assert(pressed.fetch() == Ok::<(Machine, Opcode), InterpreterError>(
        (refetched, Opcode { raw }),
    ));
    assert(pressed.tick(random).after =~~= (Machine {
        pc: (m.pc + 2) as u16,
        ..pressed.set_v(x, key)
    }));
}

/// A call followed by a return: with `2nnn` at the program counter, room
/// on the stack and `00EE` at `nnn`, two cycles succeed and leave the
/// machine as it was but for the program counter, which stands behind the
/// call, two above where it stood.
pub proof fn law_call_then_return(m: Machine, nnn: u16, first: u8, second: u8)
    requires
        m.wf(),
        nnn < 0x1000,
        m.pc + 1 < MEMORY_SIZE,
        m.memory[m.pc as int] == 0x20 + nnn / 0x100,
        m.memory[m.pc + 1] == nnn % 0x100,
        nnn + 1 < MEMORY_SIZE,
        m.memory[nnn as int] == 0x00,
        m.memory[nnn + 1] == 0xEE,
        m.stack.len() < STACK_DEPTH,
    ensures
        ({
            let called = m.tick(first);
            let returned = called.after.tick(second);
            &&& called.result is Ok
            &&& called.after.pc == nnn
            &&& called.after.stack == m.stack.push((m.pc + 2) as u16)
            &&& returned.result is Ok
            &&& returned.after.pc == m.pc + 2
            &&& returned.after == (Machine { pc: (m.pc + 2) as u16, ..m })
        }),
{
    let raw = (m.memory[m.pc as int] * 256 + m.memory[m.pc + 1]) as u16;
    assert(raw == 0x2000 + nnn);
    assert(raw / 0x1000 == 2);
    assert(raw % 0x1000 == nnn);
    assert(instruction_of(raw) == Some(Instruction::Call { nnn }));
    let called = m.tick(first);
    assert(called.after.stack.drop_last() =~= m.stack);
    let back = (called.after.memory[nnn as int] * 256 + called.after.memory[nnn + 1]) as u16;
    assert(back == 0x00EE);
    assert(instruction_of(back) == Some(Instruction::Return));
    let returned = called.after.tick(second);
    assert(returned.after =~~= (Machine { pc: (m.pc + 2) as u16, ..m }));
}

/// Loading a program and reading memory back from the program start gives
/// the program, byte for byte; what lies outside it, the font included, is
/// as before.
pub proof fn law_program_round_trip(m: Machine, program: Seq<u8>)
    requires
        m.wf(),
        Machine::program_fits(program.len()),
    ensures
        m.with_program(program).memory.subrange(
            PROGRAM_START as int,
            PROGRAM_START + program.len(),
        ) == program,
        m.with_program(program).memory.subrange(0, PROGRAM_START as int) == m.memory.subrange(
            0,
            PROGRAM_START as int,
        ),
        m.with_program(program).memory.subrange(
            PROGRAM_START + program.len(),
            MEMORY_SIZE as int,
        ) == m.memory.subrange(PROGRAM_START + program.len(), MEMORY_SIZE as int),
        m.with_program(program).wf(),
{
}

/// Stepping the timers takes each down by exactly one and never below
/// zero.
pub proof fn law_timers_count_down(m: Machine)
    ensures
        ({
            let after = m.with_timers_stepped();
            &&& after.delay_timer == if m.delay_timer == 0 {
                0int
            } else {
                m.delay_timer - 1
            }
            &&& after.sound_timer == if m.sound_timer == 0 {
                0int
            } else {
                m.sound_timer - 1
            }
            &&& after == (Machine {
                delay_timer: after.delay_timer,
                sound_timer: after.sound_timer,
                ..m
            })
        }),
{
}

/// What an instruction may touch. The keypad is never written. Memory is
/// written only by `Fx33` and `Fx55`, the screen only by `00E0` and `Dxyn`,
/// the timers only by `Fx15` and `Fx18`, the stack only by `2nnn` and
/// `00EE`, the index register only by `Annn`, `Fx1E` and `Fx29`.
pub proof fn law_instruction_footprint(m: Machine, instruction: Instruction, random: u8)
    requires
        m.wf(),
        instruction.wf(),
    ensures
        ({
            let after = m.apply(instruction, random).after;
            &&& after.keys == m.keys
            &&& !(instruction is Decimal || instruction is Store) ==> after.memory == m.memory
            &&& !(instruction is ClearScreen || instruction is Draw) ==> after.screen == m.screen
            &&& !(instruction is SetDelay) ==> after.delay_timer == m.delay_timer
            &&& !(instruction is SetSound) ==> after.sound_timer == m.sound_timer
            &&& !(instruction is Call || instruction is Return) ==> after.stack == m.stack
            &&& !(instruction is LoadIndex || instruction is AddIndex || instruction is Glyph)
                ==> after.index == m.index
        }),
{
}

/// `Fx33` and `Fx55` write only where they are told to: three bytes, or
/// `x + 1` bytes, from the index register upwards. The font is overwritten
/// only if the index register points into it.
pub proof fn law_stores_stay_in_range(m: Machine, x: u8, address: int)
    requires
        m.wf(),
        x < 16,
        0 <= address < MEMORY_SIZE,
    ensures
        !(m.index <= address <= m.index + 2) ==> m.store_decimal(x).after.memory[address]
            == m.memory[address],
        !(m.index <= address <= m.index + x) ==> m.store_registers(x).after.memory[address]
            == m.memory[address],
{
}

/// The shifts report the bit that falls out: `8xy6` the lowest bit of the
/// register as it was, `8xyE` the highest. The flag is written last, so it
/// stands in `VF` even where `VF` is the register that is shifted.
pub proof fn law_shifts_report_lost_bit(m: Machine, x: u8, y: u8, random: u8)
    requires
        m.wf(),
        x < 16,
        y < 16,
    ensures
        ({
            let value = m.v(x);
            let right = m.execute(Opcode { raw: word_of(8, x, y, 6) }, random);
            let left = m.execute(Opcode { raw: word_of(8, x, y, 0xE) }, random);
            &&& right.result is Ok
            &&& right.after.v(0xF) == value % 2
            &&& x != 0xF ==> right.after.v(x) == value / 2
            &&& left.result is Ok
            &&& left.after.v(0xF) == value / 128
            &&& x != 0xF ==> left.after.v(x) == (value * 2) % 256
        }),
{
    law_digits_of_word(8, x, y, 6);
    law_digits_of_word(8, x, y, 0xE);
}

/// `7xnn` adds with wrap-around and leaves the flag alone.
pub proof fn law_add_byte_wraps(m: Machine, x: u8, nn: u8, random: u8)
    requires
        m.wf(),
        x < 16,
    ensures
        ({
            let s = m.execute(Opcode { raw: word_of(7, x, nn / 16, nn % 16) }, random);
            &&& s.result is Ok
            &&& s.after.v(x) == (m.v(x) + nn) % 256
            &&& x != 0xF ==> s.after.v(0xF) == m.v(0xF)
            &&& s.after == m.set_v(x, s.after.v(x))
        }),
{
    law_digits_of_word(7, x, nn / 16, nn % 16);
}

/// Where the program counter stands after a cycle that could fetch its
/// word at `pc`: at the target after a jump, a call or a return that
/// succeeds; still at `pc` while `Fx0A` waits; at `pc + 4` after a skip
/// that is taken; and at `pc + 2`, behind the word, in every other case,
/// whether the instruction succeeds or fails. It only ever moves by whole
/// words unless a jump says otherwise.
pub proof fn law_tick_moves_by_words(m: Machine, random: u8)
    requires
        m.wf(),
        m.pc + 1 < MEMORY_SIZE,
    ensures
        ({
            let s = m.tick(random);
            let raw = (m.memory[m.pc as int] * 256 + m.memory[m.pc + 1]) as u16;
            match instruction_of(raw) {
                Some(Instruction::Jump { nnn }) => s.after.pc == nnn,
                Some(Instruction::Call { nnn }) => s.after.pc == if s.result is Ok {
                    nnn as int
                } else {
                    m.pc + 2
                },
                Some(Instruction::JumpOffset { nnn }) => s.after.pc == nnn + m.v(0),
                Some(Instruction::Return) => s.after.pc == if s.result is Ok {
                    m.stack.last() as int
                } else {
                    m.pc + 2
                },
                Some(Instruction::WaitKey { x }) => s.after.pc == if lowest_pressed(m.keys) is None {
                    m.pc as int
                } else {
                    m.pc + 2
                },
                Some(Instruction::SkipIfEqual { .. })
                | Some(Instruction::SkipIfNotEqual { .. })
                | Some(Instruction::SkipIfSame { .. })
                | Some(Instruction::SkipIfDifferent { .. })
                | Some(Instruction::SkipIfKey { .. })
                | Some(Instruction::SkipIfNoKey { .. }) => s.after.pc == m.pc + 2 || (s.result is Ok
                    && s.after.pc == m.pc + 4),
                _ => s.after.pc == m.pc + 2,
            }
        }),
{
    let raw = (m.memory[m.pc as int] * 256 + m.memory[m.pc + 1]) as u16;
    law_decoded_is_well_formed(raw);
}

} // verus!
