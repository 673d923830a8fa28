use crate::error::{CapacityError, InterpreterError, OutOfRange};
use crate::fonts::{font_sprites, font_table, FONT_SPRITES_SIZE, GLYPH_SIZE};
use crate::machine::{
    blank_screen, is_random, lowest_pressed, lowest_pressed_from, sprite_bit, step, Machine,
    DISPLAY_HEIGHT, DISPLAY_WIDTH, FLAG_REGISTER, KEY_COUNT, MEMORY_SIZE, PROGRAM_START,
    REGISTER_COUNT, STACK_DEPTH,
};
use crate::opcode::{Instruction, Opcode};
use crate::rom::Ch8Rom;
use vstd::prelude::*;

verus! {

/// Asks the `rand` crate's `random` for a byte from the thread's generator.
/// Nothing is claimed of the byte: it may be any, and differ from call to
/// call.
#[verifier::external_body]
fn random_byte() -> (byte: u8) {
    rand::random::<u8>()
}

/// The virtual machine: memory, registers, call stack, keypad, timers and
/// screen, with the interpreter that drives them.
///
/// The host loads a program, then calls `tick` some number of times for
/// each frame it paints and `update_timers` once, and reads the screen and
/// the timers in between. The machine has one writer: whatever changes it
/// takes it by `&mut`, so no two cycles, and no cycle and key change, can
/// run at once.
#[derive(Debug)]
pub struct VM {
    memory: [u8; 4096],
    registers: [u8; 16],
    index: u16,
    pc: u16,
    stack: [u16; 16],
    stack_pointer: usize,
    keyboard: [bool; 16],
    delay_timer: u8,
    sound_timer: u8,
    vram: [[bool; 64]; 32],
}

/// The pixel at (`px`, `py`) once the first `k` bits of a sprite have been
/// drawn, counted row after row, eight to a row.
spec fn painted(before: Machine, vx: u8, vy: u8, n: u8, k: int, px: int, py: int) -> bool {
    let col = (px - vx) % (DISPLAY_WIDTH as int);
    let row = (py - vy) % (DISPLAY_HEIGHT as int);
    before.screen[py][px] != (col < 8 && row < n && row * 8 + col < k && sprite_bit(
        before.memory[before.index + row],
        col,
    ))
}

/// Whether one of the first `k` bits of a sprite turns a lit pixel off.
spec fn collided(before: Machine, vx: u8, vy: u8, k: int) -> bool {
    exists|row: int, col: int|
        0 <= row && 0 <= col < 8 && row * 8 + col < k && #[trigger] before.erases(vx, vy, row, col)
}

impl View for VM {
    type V = Machine;

    closed spec fn view(&self) -> Machine {
        Machine {
            memory: self.memory@,
            registers: self.registers@,
            index: self.index,
            pc: self.pc,
            stack: self.stack@.take(self.stack_pointer as int),
            keys: self.keyboard@,
            delay_timer: self.delay_timer,
            sound_timer: self.sound_timer,
            screen: Seq::new(DISPLAY_HEIGHT as nat, |y: int| self.vram@[y]@),
        }
    }
}

impl Clone for VM {
    fn clone(&self) -> (copy: VM)
        ensures
            copy@ == self@,
    {
        proof {
            use_type_invariant(self);
        }
        VM {
            memory: self.memory,
            registers: self.registers,
            index: self.index,
            pc: self.pc,
            stack: self.stack,
            stack_pointer: self.stack_pointer,
            keyboard: self.keyboard,
            delay_timer: self.delay_timer,
            sound_timer: self.sound_timer,
            vram: self.vram,
        }
    }
}

impl VM {
    #[verifier::type_invariant]
    spec fn inv(self) -> bool {
        self.stack_pointer <= STACK_DEPTH
    }

    /// A machine as it is switched on.
    pub fn new() -> (vm: VM)
        ensures
            vm@ == Machine::power_on(),
            vm@.wf(),
    {
        let font = font_sprites();
        let mut memory = [0u8; 4096];
        let mut a: usize = 0;
        while a < FONT_SPRITES_SIZE
            invariant
                a <= FONT_SPRITES_SIZE,
                font@ == font_table(),
                forall|b: int| 0 <= b < a ==> memory@[b] == font_table()[b],
                forall|b: int| a <= b < MEMORY_SIZE ==> memory@[b] == 0u8,
            decreases FONT_SPRITES_SIZE - a,
        {
            memory[a] = font[a];
            a = a + 1;
        }
        let vm = VM {
            memory,
            registers: [0u8; 16],
            index: 0,
            pc: 0x200,
            stack: [0u16; 16],
            stack_pointer: 0,
            keyboard: [false; 16],
            delay_timer: 0,
            sound_timer: 0,
            vram: [[false; 64]; 32],
        };
        assert(vm@ =~~= Machine::power_on());
        vm
    }

    /// Puts the machine back as it was switched on: memory, registers,
    /// stack, keypad, timers and screen cleared, the font installed, the
    /// program counter at the program start.
    pub fn reset(&mut self)
        ensures
            final(self)@ == Machine::power_on(),
            final(self)@.wf(),
    {
        *self = VM::new();
    }

    /// Writes the font over the lowest addresses of memory.
    pub fn load_sprites(&mut self)
        ensures
            final(self)@ == old(self)@.with_font(),
            final(self)@.wf(),
    {
        proof {
            use_type_invariant(&*self);
        }
        let font = font_sprites();
        let mut memory = self.memory;
        let mut a: usize = 0;
        while a < FONT_SPRITES_SIZE
            invariant
                a <= FONT_SPRITES_SIZE,
                font@ == font_table(),
                forall|b: int| 0 <= b < a ==> memory@[b] == font_table()[b],
                forall|b: int| a <= b < MEMORY_SIZE ==> memory@[b] == self.memory@[b],
            decreases FONT_SPRITES_SIZE - a,
        {
            memory[a] = font[a];
            a = a + 1;
        }
        self.memory = memory;
    }

    /// Copies a program into memory from the program start upwards. A
    /// program that does not fit is refused and nothing is written.
    pub fn load_rom(&mut self, data: &[u8]) -> (loaded: Result<(), CapacityError>)
        ensures
            Machine::program_fits(data@.len()) ==> loaded == Ok::<(), CapacityError>(())
                && final(self)@ == old(self)@.with_program(data@),
            !Machine::program_fits(data@.len()) ==> loaded == Err::<(), CapacityError>(
                CapacityError,
            ) && final(self)@ == old(self)@,
            final(self)@.wf(),
    {
        proof {
            use_type_invariant(&*self);
        }
        if data.len() > MEMORY_SIZE - PROGRAM_START {
            return Err(CapacityError);
        }
        let mut memory = self.memory;
        let mut i: usize = 0;
        while i < data.len()
            invariant
                i <= data@.len() <= MEMORY_SIZE - PROGRAM_START,
                forall|b: int|
                    PROGRAM_START <= b < PROGRAM_START + i ==> memory@[b] == data@[b
                        - PROGRAM_START],
                forall|b: int|
                    0 <= b < MEMORY_SIZE && !(PROGRAM_START <= b < PROGRAM_START + i)
                        ==> memory@[b] == self.memory@[b],
            decreases data@.len() - i,
        {
            memory[PROGRAM_START + i] = data[i];
            i = i + 1;
        }
        self.memory = memory;
        Ok(())
    }

    /// Makes the machine ready to run a program: copies it into memory
    /// from the program start upwards and installs the font. A program
    /// that does not fit is refused and nothing is written.
    pub fn initialize(&mut self, rom: &Ch8Rom) -> (loaded: Result<(), CapacityError>)
        ensures
            Machine::program_fits(rom@.len()) ==> loaded == Ok::<(), CapacityError>(())
                && final(self)@ == old(self)@.with_program(rom@).with_font(),
            !Machine::program_fits(rom@.len()) ==> loaded == Err::<(), CapacityError>(
                CapacityError,
            ) && final(self)@ == old(self)@,
            final(self)@.wf(),
    {
        match self.load_rom(rom.memory().as_slice()) {
            Ok(()) => {
                self.load_sprites();
                Ok(())
            },
            Err(error) => Err(error),
        }
    }

    /// Marks key `idx` as held down or released.
    pub fn presskey(&mut self, idx: usize, pressed: bool)
        requires
            idx < KEY_COUNT,
        ensures
            final(self)@ == old(self)@.with_key(idx as int, pressed),
            final(self)@.wf(),
    {
        proof {
            use_type_invariant(&*self);
        }
        self.keyboard[idx] = pressed;
    }

    /// Marks key `index` as held down or released; refuses an index that
    /// the keypad does not have and then changes nothing.
    pub fn set_key(&mut self, index: usize, pressed: bool) -> (set: Result<(), OutOfRange>)
        ensures
            index < KEY_COUNT ==> set == Ok::<(), OutOfRange>(()) && final(self)@ == old(
                self,
            )@.with_key(index as int, pressed),
            index >= KEY_COUNT ==> set == Err::<(), OutOfRange>(OutOfRange) && final(self)@ == old(
                self,
            )@,
            final(self)@.wf(),
    {
        proof {
            use_type_invariant(&*self);
        }
        if index < KEY_COUNT {
            self.presskey(index, pressed);
            Ok(())
        } else {
            Err(OutOfRange)
        }
    }

    /// The framebuffer, row by row: 32 rows of 64 pixels, `true` for a
    /// pixel that is on. Reading it changes nothing.
    pub fn display(&self) -> (screen: &[[bool; 64]; 32])
        ensures
            screen@.len() == DISPLAY_HEIGHT,
            forall|y: int|
                0 <= y < DISPLAY_HEIGHT ==> (#[trigger] screen@[y])@ == self@.screen[y],
            self@.wf(),
    {
        proof {
            use_type_invariant(self);
        }
        &self.vram
    }

    /// The delay timer.
    pub fn delay_timer(&self) -> (value: u8)
        ensures
            value == self@.delay_timer,
    {
        self.delay_timer
    }

    /// The sound timer.
    pub fn sound_timer(&self) -> (value: u8)
        ensures
            value == self@.sound_timer,
    {
        self.sound_timer
    }

    /// The program counter.
    pub fn pc(&self) -> (value: u16)
        ensures
            value == self@.pc,
    {
        self.pc
    }

    /// The index register.
    pub fn index(&self) -> (value: u16)
        ensures
            value == self@.index,
    {
        self.index
    }

    /// The sixteen general registers.
    pub fn registers(&self) -> (values: &[u8; 16])
        ensures
            values@ == self@.registers,
    {
        &self.registers
    }

    /// The whole of memory.
    pub fn memory(&self) -> (bytes: &[u8; 4096])
        ensures
            bytes@ == self@.memory,
    {
        &self.memory
    }

    /// The sixteen keys: `true` for one that is held down.
    pub fn keyboard(&self) -> (keys: &[bool; 16])
        ensures
            keys@ == self@.keys,
    {
        &self.keyboard
    }

    /// How many calls have not returned yet.
    pub fn stack_depth(&self) -> (depth: usize)
        ensures
            depth == self@.stack.len(),
            depth <= STACK_DEPTH,
    {
        proof {
            use_type_invariant(self);
        }
        self.stack_pointer
    }

    /// Steps both timers once: each goes down by one unless it is zero.
    /// Returns whether the sound timer went from one to zero, which is
    /// when the host is to sound its tone.
    pub fn update_timers(&mut self) -> (beep: bool)
        ensures
            final(self)@ == old(self)@.with_timers_stepped(),
            beep == (old(self)@.sound_timer == 1),
            final(self)@.wf(),
    {
        proof {
            use_type_invariant(&*self);
        }
        if self.delay_timer > 0 {
            self.delay_timer = self.delay_timer - 1;
        }
        let beep = self.sound_timer == 1;
        if self.sound_timer > 0 {
            self.sound_timer = self.sound_timer - 1;
        }
        beep
    }

    /// Reads the word at the program counter, high byte first, and moves
    /// the program counter behind it, before anything is executed. Where
    /// either byte lies outside memory the fetch fails and nothing moves.
    pub fn fetch(&mut self) -> (fetched: Result<Opcode, InterpreterError>)
        ensures
            match old(self)@.fetch() {
                Ok((machine, opcode)) => fetched == Ok::<Opcode, InterpreterError>(opcode)
                    && final(self)@ == machine,
                Err(error) => fetched == Err::<Opcode, InterpreterError>(error) && final(self)@
                    == old(self)@,
            },
            final(self)@.wf(),
    {
        proof {
            use_type_invariant(&*self);
        }
        let pc = self.pc as usize;
        if pc + 1 >= MEMORY_SIZE {
            return Err(InterpreterError::OutOfBounds);
        }
        let high = self.memory[pc];
        let low = self.memory[pc + 1];
        let raw = ((high as u16) << 8) | (low as u16);
        assert(((high as u16) << 8) | (low as u16) == high * 256 + low) by (bit_vector);
        self.pc = self.pc + 2;
        Ok(Opcode { raw })
    }

    /// Writes a register.
    fn set_v(&mut self, x: u8, value: u8)
        requires
            x < REGISTER_COUNT,
        ensures
            final(self)@ == old(self)@.set_v(x, value),
    {
        proof {
            use_type_invariant(&*self);
        }
        self.registers[x as usize] = value;
    }

    /// Writes a register and then the flag into `VF`.
    fn set_v_and_flag(&mut self, x: u8, value: u8, raised: bool)
        requires
            x < REGISTER_COUNT,
        ensures
            final(self)@ == old(self)@.set_v_and_flag(x, value, raised),
    {
        proof {
            use_type_invariant(&*self);
        }
        self.registers[x as usize] = value;
        self.registers[FLAG_REGISTER] = if raised {
            1
        } else {
            0
        };
    }

    /// Steps over the next instruction where the condition holds.
    fn skip_if(&mut self, condition: bool) -> (done: Result<(), InterpreterError>)
        ensures
            step(final(self)@, done) == old(self)@.skip_if(condition),
    {
        proof {
            use_type_invariant(&*self);
        }
        if !condition {
            Ok(())
        } else if self.pc > u16::MAX - 2 {
            Err(InterpreterError::OutOfBounds)
        } else {
            self.pc = self.pc + 2;
            Ok(())
        }
    }

    /// Puts a return address on the stack.
    fn push(&mut self, value: u16) -> (done: Result<(), InterpreterError>)
        ensures
            old(self)@.stack.len() < STACK_DEPTH ==> done == Ok::<(), InterpreterError>(())
                && final(self)@ == (Machine { stack: old(self)@.stack.push(value), ..old(self)@ }),
            old(self)@.stack.len() >= STACK_DEPTH ==> done == Err::<(), InterpreterError>(
                InterpreterError::StackOverflow,
            ) && final(self)@ == old(self)@,
    {
        proof {
            use_type_invariant(&*self);
        }
        if self.stack_pointer >= STACK_DEPTH {
            return Err(InterpreterError::StackOverflow);
        }
        self.stack[self.stack_pointer] = value;
        self.stack_pointer = self.stack_pointer + 1;
        Ok(())
    }

    /// Takes the latest return address off the stack.
    fn pop(&mut self) -> (popped: Result<u16, InterpreterError>)
        ensures
            old(self)@.stack.len() > 0 ==> popped == Ok::<u16, InterpreterError>(
                old(self)@.stack.last(),
            ) && final(self)@ == (Machine { stack: old(self)@.stack.drop_last(), ..old(self)@ }),
            old(self)@.stack.len() == 0 ==> popped == Err::<u16, InterpreterError>(
                InterpreterError::StackUnderflow,
            ) && final(self)@ == old(self)@,
    {
        proof {
            use_type_invariant(&*self);
        }
        if self.stack_pointer == 0 {
            return Err(InterpreterError::StackUnderflow);
        }
        self.stack_pointer = self.stack_pointer - 1;
        let value = self.stack[self.stack_pointer];
        Ok(value)
    }

    /// `00E0`: turns every pixel off.
    fn clear_screen(&mut self)
        ensures
            final(self)@ == (Machine { screen: blank_screen(), ..old(self)@ }),
    {
        proof {
            use_type_invariant(&*self);
        }
        self.vram = [[false; 64]; 32];
        assert(self@ =~~= (Machine { screen: blank_screen(), ..old(self)@ }));
    }

    /// `00EE`: returns to the address on top of the stack.
    fn ret(&mut self) -> (done: Result<(), InterpreterError>)
        ensures
            step(final(self)@, done) == old(self)@.apply(Instruction::Return, 0),
    {
        match self.pop() {
            Ok(address) => {
                proof {
                    use_type_invariant(&*self);
                }
                self.pc = address;
                Ok(())
            },
            Err(error) => Err(error),
        }
    }

    /// `1nnn`: goes on at `address`.
    fn jmp(&mut self, address: u16)
        ensures
            final(self)@ == (Machine { pc: address, ..old(self)@ }),
    {
        proof {
            use_type_invariant(&*self);
        }
        self.pc = address;
    }

    /// `2nnn`: calls the routine at `address`; the return address is that of
    /// the instruction behind the call.
    fn bl(&mut self, address: u16) -> (done: Result<(), InterpreterError>)
        ensures
            step(final(self)@, done) == old(self)@.apply((Instruction::Call { nnn: address }), 0),
    {
        let here = self.pc;
        match self.push(here) {
            Ok(()) => {
                self.jmp(address);
                Ok(())
            },
            Err(error) => Err(error),
        }
    }

    /// `3xnn`: skips if `Vx` equals `nn`.
    fn skip_if_vx_eq_nn(&mut self, x: u8, nn: u8) -> (done: Result<(), InterpreterError>)
        requires
            x < REGISTER_COUNT,
        ensures
            step(final(self)@, done) == old(self)@.skip_if(old(self)@.v(x) == nn),
    {
        let equal = self.registers[x as usize] == nn;
        self.skip_if(equal)
    }

    /// `4xnn`: skips if `Vx` differs from `nn`.
    fn skip_if_vx_ne_nn(&mut self, x: u8, nn: u8) -> (done: Result<(), InterpreterError>)
        requires
            x < REGISTER_COUNT,
        ensures
            step(final(self)@, done) == old(self)@.skip_if(old(self)@.v(x) != nn),
    {
        let differs = self.registers[x as usize] != nn;
        self.skip_if(differs)
    }

    /// `5xy0`: skips if `Vx` equals `Vy`.
    fn skip_if_vx_eq_vy(&mut self, x: u8, y: u8) -> (done: Result<(), InterpreterError>)
        requires
            x < REGISTER_COUNT,
            y < REGISTER_COUNT,
        ensures
            step(final(self)@, done) == old(self)@.skip_if(old(self)@.v(x) == old(self)@.v(y)),
    {
        let equal = self.registers[x as usize] == self.registers[y as usize];
        self.skip_if(equal)
    }

    /// `9xy0`: skips if `Vx` differs from `Vy`.
    fn skip_if_vx_ne_vy(&mut self, x: u8, y: u8) -> (done: Result<(), InterpreterError>)
        requires
            x < REGISTER_COUNT,
            y < REGISTER_COUNT,
        ensures
            step(final(self)@, done) == old(self)@.skip_if(old(self)@.v(x) != old(self)@.v(y)),
    {
        let differs = self.registers[x as usize] != self.registers[y as usize];
        self.skip_if(differs)
    }

    /// `6xnn`: `Vx` becomes `nn`.
    fn set_vx_nn(&mut self, x: u8, nn: u8)
        requires
            x < REGISTER_COUNT,
        ensures
            final(self)@ == old(self)@.set_v(x, nn),
    {
        self.set_v(x, nn)
    }

    /// `7xnn`: adds `nn` to `Vx`, wrapping, without a flag.
    fn add_nn_to_vx(&mut self, x: u8, nn: u8)
        requires
            x < REGISTER_COUNT,
        ensures
            final(self)@ == old(self)@.set_v(x, ((old(self)@.v(x) + nn) % 256) as u8),
    {
        let sum = self.registers[x as usize] as u16 + nn as u16;
        self.set_v(x, (sum % 256) as u8)
    }

    /// `8xy0`: `Vx` becomes `Vy`.
    fn set_vx_vy(&mut self, x: u8, y: u8)
        requires
            x < REGISTER_COUNT,
            y < REGISTER_COUNT,
        ensures
            final(self)@ == old(self)@.set_v(x, old(self)@.v(y)),
    {
        let value = self.registers[y as usize];
        self.set_v(x, value)
    }

    /// `8xy1`: `Vx` becomes `Vx` or `Vy`, bit by bit.
    fn vx_or_eq_vy(&mut self, x: u8, y: u8)
        requires
            x < REGISTER_COUNT,
            y < REGISTER_COUNT,
        ensures
            final(self)@ == old(self)@.set_v(x, old(self)@.v(x) | old(self)@.v(y)),
    {
        let value = self.registers[x as usize] | self.registers[y as usize];
        self.set_v(x, value)
    }

    /// `8xy2`: `Vx` becomes `Vx` and `Vy`, bit by bit.
    fn vx_and_eq_vy(&mut self, x: u8, y: u8)
        requires
            x < REGISTER_COUNT,
            y < REGISTER_COUNT,
        ensures
            final(self)@ == old(self)@.set_v(x, old(self)@.v(x) & old(self)@.v(y)),
    {
        let value = self.registers[x as usize] & self.registers[y as usize];
        self.set_v(x, value)
    }

    /// `8xy3`: `Vx` becomes `Vx` exclusive-or `Vy`, bit by bit.
    fn vx_xor_eq_vy(&mut self, x: u8, y: u8)
        requires
            x < REGISTER_COUNT,
            y < REGISTER_COUNT,
        ensures
            final(self)@ == old(self)@.set_v(x, old(self)@.v(x) ^ old(self)@.v(y)),
    {
        let value = self.registers[x as usize] ^ self.registers[y as usize];
        self.set_v(x, value)
    }

    /// `8xy4`: adds `Vy` to `Vx`; `VF` tells whether the sum was carried.
    fn add_vy_to_vx(&mut self, x: u8, y: u8)
        requires
            x < REGISTER_COUNT,
            y < REGISTER_COUNT,
        ensures
            step(final(self)@, Ok(())) == old(self)@.apply((Instruction::Add { x, y }), 0),
    {
        let sum = self.registers[x as usize] as u16 + self.registers[y as usize] as u16;
        self.set_v_and_flag(x, (sum % 256) as u8, sum > 255)
    }

    /// `8xy5`: subtracts `Vy` from `Vx`; `VF` is 1 if nothing was borrowed.
    fn sub_vy_from_vx(&mut self, x: u8, y: u8)
        requires
            x < REGISTER_COUNT,
            y < REGISTER_COUNT,
        ensures
            step(final(self)@, Ok(())) == old(self)@.apply((Instruction::Subtract { x, y }), 0),
    {
        let minuend = self.registers[x as usize];
        let subtrahend = self.registers[y as usize];
        let difference = (256 + minuend as u16 - subtrahend as u16) % 256;
        self.set_v_and_flag(x, difference as u8, minuend >= subtrahend)
    }

    /// `8xy7`: `Vx` becomes `Vy` less `Vx`; `VF` is 1 if nothing was borrowed.
    fn sub_vx_from_vy(&mut self, x: u8, y: u8)
        requires
            x < REGISTER_COUNT,
            y < REGISTER_COUNT,
        ensures
            step(final(self)@, Ok(())) == old(self)@.apply(
                (Instruction::SubtractFrom { x, y }),
                0,
            ),
    {
        let minuend = self.registers[y as usize];
        let subtrahend = self.registers[x as usize];
        let difference = (256 + minuend as u16 - subtrahend as u16) % 256;
        self.set_v_and_flag(x, difference as u8, minuend >= subtrahend)
    }

    /// `8xy6`: shifts `Vx` right by one; `VF` takes the bit that falls out.
    fn rshift_vx(&mut self, x: u8)
        requires
            x < REGISTER_COUNT,
        ensures
            step(final(self)@, Ok(())) == old(self)@.apply((Instruction::ShiftRight { x }), 0),
    {
        let value = self.registers[x as usize];
        assert(value >> 1u8 == value / 2 && (value & 1u8 == 1u8) == (value % 2 == 1))
            by (bit_vector);
        self.set_v_and_flag(x, value >> 1u8, value & 1 == 1)
    }

    /// `8xyE`: shifts `Vx` left by one; `VF` takes the bit that falls out.
    fn lshift_vx(&mut self, x: u8)
        requires
            x < REGISTER_COUNT,
        ensures
            step(final(self)@, Ok(())) == old(self)@.apply((Instruction::ShiftLeft { x }), 0),
    {
        let value = self.registers[x as usize];
        assert(value << 1u8 == (value * 2) % 256 && (value & 0x80u8 == 0x80u8) == (value >= 128))
            by (bit_vector);
        self.set_v_and_flag(x, value << 1u8, value & 0x80 == 0x80)
    }

    /// `Annn`: the index register becomes `address`.
    fn set_vx_vi(&mut self, address: u16)
        ensures
            final(self)@ == (Machine { index: address, ..old(self)@ }),
    {
        proof {
            use_type_invariant(&*self);
        }
        self.index = address;
    }

    /// `Bnnn`: goes on at `address` plus `V0`.
    fn jmp_v0_off_nnn(&mut self, address: u16)
        requires
            address < 0x1000,
        ensures
            step(final(self)@, Ok(())) == old(self)@.apply(
                (Instruction::JumpOffset { nnn: address }),
                0,
            ),
    {
        let target = address + self.registers[0] as u16;
        self.jmp(target)
    }

    /// `Cxnn`: `Vx` becomes the random byte masked with `nn`.
    fn vx_rand_and_nn(&mut self, x: u8, nn: u8, random: u8)
        requires
            x < REGISTER_COUNT,
        ensures
            final(self)@ == old(self)@.set_v(x, random & nn),
    {
        self.set_v(x, random & nn)
    }

    /// `Ex9E`: skips if the key that `Vx` names is held down.
    fn skip_if_key(&mut self, x: u8) -> (done: Result<(), InterpreterError>)
        requires
            x < REGISTER_COUNT,
        ensures
            step(final(self)@, done) == old(self)@.apply((Instruction::SkipIfKey { x }), 0),
    {
        let key = self.registers[x as usize] as usize;
        if key >= KEY_COUNT {
            return Err(InterpreterError::OutOfRange);
        }
        let pressed = self.keyboard[key];
        self.skip_if(pressed)
    }

    /// `ExA1`: skips if the key that `Vx` names is not held down.
    fn skip_if_not_key(&mut self, x: u8) -> (done: Result<(), InterpreterError>)
        requires
            x < REGISTER_COUNT,
        ensures
            step(final(self)@, done) == old(self)@.apply((Instruction::SkipIfNoKey { x }), 0),
    {
        let key = self.registers[x as usize] as usize;
        if key >= KEY_COUNT {
            return Err(InterpreterError::OutOfRange);
        }
        let pressed = self.keyboard[key];
        self.skip_if(!pressed)
    }

    /// `Fx07`: `Vx` becomes the delay timer.
    fn set_vx_dt(&mut self, x: u8)
        requires
            x < REGISTER_COUNT,
        ensures
            final(self)@ == old(self)@.set_v(x, old(self)@.delay_timer),
    {
        let value = self.delay_timer;
        self.set_v(x, value)
    }

    /// `Fx15`: the delay timer becomes `Vx`.
    fn set_dt(&mut self, x: u8)
        requires
            x < REGISTER_COUNT,
        ensures
            final(self)@ == (Machine { delay_timer: old(self)@.v(x), ..old(self)@ }),
    {
        proof {
            use_type_invariant(&*self);
        }
        self.delay_timer = self.registers[x as usize];
    }

    /// `Fx18`: the sound timer becomes `Vx`.
    fn set_st(&mut self, x: u8)
        requires
            x < REGISTER_COUNT,
        ensures
            final(self)@ == (Machine { sound_timer: old(self)@.v(x), ..old(self)@ }),
    {
        proof {
            use_type_invariant(&*self);
        }
        self.sound_timer = self.registers[x as usize];
    }

    /// `Fx1E`: adds `Vx` to the index register, wrapping at sixteen bits.
    fn add_vx_to_vi(&mut self, x: u8)
        requires
            x < REGISTER_COUNT,
        ensures
            step(final(self)@, Ok(())) == old(self)@.apply((Instruction::AddIndex { x }), 0),
    {
        let sum = self.index as u32 + self.registers[x as usize] as u32;
        self.set_vx_vi((sum % 0x10000) as u16)
    }

    /// `Fx29`: points the index register at the glyph for the digit in `Vx`.
    fn set_font_address_vi(&mut self, x: u8)
        requires
            x < REGISTER_COUNT,
        ensures
            step(final(self)@, Ok(())) == old(self)@.apply((Instruction::Glyph { x }), 0),
    {
        let address = self.registers[x as usize] as u16 * GLYPH_SIZE as u16;
        self.set_vx_vi(address)
    }

    /// `Fx0A`: takes the lowest key that is held down into `Vx`; with no key
    /// down, steps back onto itself so that it runs again at the next cycle.
    fn wait_for_key(&mut self, x: u8) -> (done: Result<(), InterpreterError>)
        requires
            x < REGISTER_COUNT,
        ensures
            step(final(self)@, done) == old(self)@.wait_key(x),
    {
        proof {
            use_type_invariant(&*self);
        }
        let mut key: u8 = 0;
        while key < 16
            invariant
                key <= 16,
                x < REGISTER_COUNT,
                *self == *old(self),
                self.stack_pointer <= STACK_DEPTH,
                lowest_pressed(self.keyboard@) == lowest_pressed_from(self.keyboard@, key as int),
            decreases 16 - key,
        {
            if self.keyboard[key as usize] {
                self.set_v(x, key);
                return Ok(());
            }
            key = key + 1;
        }
        if self.pc < 2 {
            return Err(InterpreterError::OutOfBounds);
        }
        self.pc = self.pc - 2;
        Ok(())
    }

    /// `Fx33`: writes the hundreds, tens and ones of `Vx` at the index register.
    fn bcd_vx(&mut self, x: u8) -> (done: Result<(), InterpreterError>)
        requires
            x < REGISTER_COUNT,
        ensures
            step(final(self)@, done) == old(self)@.store_decimal(x),
    {
        proof {
            use_type_invariant(&*self);
        }
        let base = self.index as usize;
        if base + 2 >= MEMORY_SIZE {
            return Err(InterpreterError::OutOfBounds);
        }
        let value = self.registers[x as usize];
        self.memory[base] = value / 100;
        self.memory[base + 1] = (value / 10) % 10;
        self.memory[base + 2] = value % 10;
        Ok(())
    }

    /// `Fx55`: writes `V0` to `Vx` at the index register.
    fn set_v0_sub_vx_info_i(&mut self, x: u8) -> (done: Result<(), InterpreterError>)
        requires
            x < REGISTER_COUNT,
        ensures
            step(final(self)@, done) == old(self)@.store_registers(x),
    {
        proof {
            use_type_invariant(&*self);
        }
        let base = self.index as usize;
        if base + x as usize >= MEMORY_SIZE {
            return Err(InterpreterError::OutOfBounds);
        }
        let mut memory = self.memory;
        let mut i: usize = 0;
        while i <= x as usize
            invariant
                i <= x + 1,
                x < REGISTER_COUNT,
                base == self.index,
                base + x < MEMORY_SIZE,
                forall|a: int| base <= a < base + i ==> memory@[a] == self.registers@[a - base],
                forall|a: int|
                    0 <= a < MEMORY_SIZE && !(base <= a < base + i) ==> memory@[a]
                        == self.memory@[a],
            decreases x + 1 - i,
        {
            memory[base + i] = self.registers[i];
            i = i + 1;
        }
        self.memory = memory;
        Ok(())
    }

    /// `Fx65`: reads `V0` to `Vx` from the index register.
    fn load_i_into_v0_vx(&mut self, x: u8) -> (done: Result<(), InterpreterError>)
        requires
            x < REGISTER_COUNT,
        ensures
            step(final(self)@, done) == old(self)@.restore_registers(x),
    {
        proof {
            use_type_invariant(&*self);
        }
        let base = self.index as usize;
        if base + x as usize >= MEMORY_SIZE {
            return Err(InterpreterError::OutOfBounds);
        }
        let mut registers = self.registers;
        let mut i: usize = 0;
        while i <= x as usize
            invariant
                i <= x + 1,
                x < REGISTER_COUNT,
                base == self.index,
                base + x < MEMORY_SIZE,
                forall|r: int| 0 <= r < i ==> registers@[r] == self.memory@[base + r],
                forall|r: int| i <= r < REGISTER_COUNT ==> registers@[r] == self.registers@[r],
            decreases x + 1 - i,
        {
            registers[i] = self.memory[base + i];
            i = i + 1;
        }
        self.registers = registers;
        Ok(())
    }

    /// Everything but the screen is the same in both machines.
    spec fn same_but_screen(self, other: VM) -> bool {
        &&& self.memory == other.memory
        &&& self.registers == other.registers
        &&& self.index == other.index
        &&& self.pc == other.pc
        &&& self.stack == other.stack
        &&& self.stack_pointer == other.stack_pointer
        &&& self.keyboard == other.keyboard
        &&& self.delay_timer == other.delay_timer
        &&& self.sound_timer == other.sound_timer
    }

    /// `Dxyn`: draws the `n` rows at the index register with their corner at
    /// (`Vx`, `Vy`). Every set bit flips its pixel; `VF` tells whether a lit
    /// pixel went off. Each pixel is looked at before it is flipped.
    fn draw(&mut self, x: u8, y: u8, n: u8) -> (done: Result<(), InterpreterError>)
        requires
            x < REGISTER_COUNT,
            y < REGISTER_COUNT,
            n < 16,
        ensures
            step(final(self)@, done) == old(self)@.draw(x, y, n),
    {
        proof {
            use_type_invariant(&*self);
        }
        let base = self.index as usize;
        if n > 0 && base + n as usize > MEMORY_SIZE {
            return Err(InterpreterError::OutOfBounds);
        }
        let vx = self.registers[x as usize];
        let vy = self.registers[y as usize];
        let ghost before = self@;
        let mut collision = false;
        let mut row: u8 = 0;
        while row < n
            invariant
                row <= n < 16,
                base == self.index,
                n > 0 ==> base + n <= MEMORY_SIZE,
                before == old(self)@,
                self.same_but_screen(*old(self)),
                self.stack_pointer <= STACK_DEPTH,
                forall|py: int, px: int|
                    0 <= py < DISPLAY_HEIGHT && 0 <= px < DISPLAY_WIDTH ==> self.vram@[py]@[px]
                        == #[trigger] painted(before, vx, vy, n, row * 8, px, py),
                collision == collided(before, vx, vy, row * 8),
            decreases n - row,
        {
            let byte = self.memory[base + row as usize];
            let py0 = (vy as usize + row as usize) % DISPLAY_HEIGHT;
            let mut col: u8 = 0;
            while col < 8
                invariant
                    col <= 8,
                    row < n < 16,
                    base == self.index,
                    n > 0 ==> base + n <= MEMORY_SIZE,
                    before == old(self)@,
                    byte == before.memory[before.index + row],
                    py0 == (vy + row) % (DISPLAY_HEIGHT as int),
                    self.same_but_screen(*old(self)),
                    self.stack_pointer <= STACK_DEPTH,
                    forall|py: int, px: int|
                        0 <= py < DISPLAY_HEIGHT && 0 <= px < DISPLAY_WIDTH ==> self.vram@[py]@[px]
                            == #[trigger] painted(before, vx, vy, n, row * 8 + col, px, py),
                    collision == collided(before, vx, vy, row * 8 + col),
                decreases 8 - col,
            {
                let lit = (byte >> (7 - col)) & 1 == 1;
                let px0 = (vx as usize + col as usize) % DISPLAY_WIDTH;
                let ghost k = row * 8 + col;
                let ghost earlier = self.vram;
                let ghost collision_earlier = collision;
                assert(self.vram@[py0 as int]@[px0 as int] == painted(
                    before,
                    vx,
                    vy,
                    n,
                    k,
                    px0 as int,
                    py0 as int,
                ));
                if lit {
                    if self.vram[py0][px0] {
                        collision = true;
                    }
                    self.vram[py0][px0] = !self.vram[py0][px0];
                }
                proof {
                    // The pixel just visited belongs to this bit and to no
                    // other: taking the corner off again, modulo the screen,
                    // gives back the bit's column and row.
                    assert(lit == sprite_bit(byte, col as int));
                    assert((px0 - vx) % (DISPLAY_WIDTH as int) == col);
                    assert((py0 - vy) % (DISPLAY_HEIGHT as int) == row);
                    assert(before.erases(vx, vy, row as int, col as int) == (lit
                        && earlier@[py0 as int]@[px0 as int]));
                    assert forall|py: int, px: int|
                        0 <= py < DISPLAY_HEIGHT && 0 <= px < DISPLAY_WIDTH implies self.vram@[py]@[px]
                        == #[trigger] painted(before, vx, vy, n, k + 1, px, py) by {
                        assert(earlier@[py]@[px] == painted(before, vx, vy, n, k, px, py));
                        let c = (px - vx) % (DISPLAY_WIDTH as int);
                        let r = (py - vy) % (DISPLAY_HEIGHT as int);
                        if py == py0 && px == px0 {
                        } else {
                            assert(!(c == col && r == row));
                        }
                    }
                    if collided(before, vx, vy, k + 1) {
                        let (r, c) = choose|r: int, c: int|
                            0 <= r && 0 <= c < 8 && r * 8 + c < k + 1 && #[trigger] before.erases(
                                vx,
                                vy,
                                r,
                                c,
                            );
                        if r * 8 + c < k {
                            assert(collided(before, vx, vy, k));
                        } else {
                            assert(r == row && c == col);
                        }
                    }
                    if collision_earlier {
                        let (r, c) = choose|r: int, c: int|
                            0 <= r && 0 <= c < 8 && r * 8 + c < k && #[trigger] before.erases(
                                vx,
                                vy,
                                r,
                                c,
                            );
                        assert(before.erases(vx, vy, r, c) && r * 8 + c < k + 1);
                    }
                    if before.erases(vx, vy, row as int, col as int) {
                        assert(collided(before, vx, vy, k + 1));
                    }
                    assert(collision == collided(before, vx, vy, k + 1));
                }
                col = col + 1;
            }
            row = row + 1;
        }
        self.registers[FLAG_REGISTER] = if collision {
            1
        } else {
            0
        };
        proof {
            let after = old(self)@.draw(x, y, n).after;
            assert forall|py: int, px: int|
                0 <= py < DISPLAY_HEIGHT && 0 <= px < DISPLAY_WIDTH implies self.vram@[py]@[px]
                == after.screen[py][px] by {
                assert(self.vram@[py]@[px] == painted(before, vx, vy, n, n * 8, px, py));
            }
            if collided(before, vx, vy, n * 8) {
                let (r, c) = choose|r: int, c: int|
                    0 <= r && 0 <= c < 8 && r * 8 + c < n * 8 && #[trigger] before.erases(
                        vx,
                        vy,
                        r,
                        c,
                    );
                assert(r < n);
                assert(before.collides(vx, vy, n));
            }
            if before.collides(vx, vy, n) {
                let (r, c) = choose|r: int, c: int|
                    0 <= r < n && 0 <= c < 8 && #[trigger] before.erases(vx, vy, r, c);
                assert(r * 8 + c < n * 8);
                assert(collided(before, vx, vy, n * 8));
            }
            assert(self@ =~~= after);
        }
        Ok(())
    }

    /// Carries out a decoded instruction.
    fn apply(&mut self, instruction: Instruction, random: u8) -> (done: Result<
        (),
        InterpreterError,
    >)
        requires
            instruction.wf(),
        ensures
            step(final(self)@, done) == old(self)@.apply(instruction, random),
    {
        match instruction {
            Instruction::ClearScreen => {
                self.clear_screen();
                Ok(())
            },
            Instruction::Return => self.ret(),
            Instruction::Jump { nnn } => {
                self.jmp(nnn);
                Ok(())
            },
            Instruction::Call { nnn } => self.bl(nnn),
            Instruction::SkipIfEqual { x, nn } => self.skip_if_vx_eq_nn(x, nn),
            Instruction::SkipIfNotEqual { x, nn } => self.skip_if_vx_ne_nn(x, nn),
            Instruction::SkipIfSame { x, y } => self.skip_if_vx_eq_vy(x, y),
            Instruction::Load { x, nn } => {
                self.set_vx_nn(x, nn);
                Ok(())
            },
            Instruction::AddByte { x, nn } => {
                self.add_nn_to_vx(x, nn);
                Ok(())
            },
            Instruction::Move { x, y } => {
                self.set_vx_vy(x, y);
                Ok(())
            },
            Instruction::Or { x, y } => {
                self.vx_or_eq_vy(x, y);
                Ok(())
            },
            Instruction::And { x, y } => {
                self.vx_and_eq_vy(x, y);
                Ok(())
            },
            Instruction::Xor { x, y } => {
                self.vx_xor_eq_vy(x, y);
                Ok(())
            },
            Instruction::Add { x, y } => {
                self.add_vy_to_vx(x, y);
                Ok(())
            },
            Instruction::Subtract { x, y } => {
                self.sub_vy_from_vx(x, y);
                Ok(())
            },
            Instruction::ShiftRight { x } => {
                self.rshift_vx(x);
                Ok(())
            },
            Instruction::SubtractFrom { x, y } => {
                self.sub_vx_from_vy(x, y);
                Ok(())
            },
            Instruction::ShiftLeft { x } => {
                self.lshift_vx(x);
                Ok(())
            },
            Instruction::SkipIfDifferent { x, y } => self.skip_if_vx_ne_vy(x, y),
            Instruction::LoadIndex { nnn } => {
                self.set_vx_vi(nnn);
                Ok(())
            },
            Instruction::JumpOffset { nnn } => {
                self.jmp_v0_off_nnn(nnn);
                Ok(())
            },
            Instruction::Random { x, nn } => {
                self.vx_rand_and_nn(x, nn, random);
                Ok(())
            },
            Instruction::Draw { x, y, n } => self.draw(x, y, n),
            Instruction::SkipIfKey { x } => self.skip_if_key(x),
            Instruction::SkipIfNoKey { x } => self.skip_if_not_key(x),
            Instruction::ReadDelay { x } => {
                self.set_vx_dt(x);
                Ok(())
            },
            Instruction::WaitKey { x } => self.wait_for_key(x),
            Instruction::SetDelay { x } => {
                self.set_dt(x);
                Ok(())
            },
            Instruction::SetSound { x } => {
                self.set_st(x);
                Ok(())
            },
            Instruction::AddIndex { x } => {
                self.add_vx_to_vi(x);
                Ok(())
            },
            Instruction::Glyph { x } => {
                self.set_font_address_vi(x);
                Ok(())
            },
            Instruction::Decimal { x } => self.bcd_vx(x),
            Instruction::Store { x } => self.set_v0_sub_vx_info_i(x),
            Instruction::Restore { x } => self.load_i_into_v0_vx(x),
        }
    }

    /// Decodes and executes a fetched word, with `random` as the byte that
    /// `Cxnn` masks. A word that is no instruction is reported, never
    /// skipped. An instruction that fails changes nothing.
    pub fn execute_with(&mut self, opcode: Opcode, random: u8) -> (done: Result<
        (),
        InterpreterError,
    >)
        ensures
            step(final(self)@, done) == old(self)@.execute(opcode, random),
            final(self)@.wf(),
    {
        proof {
            use_type_invariant(&*self);
        }
        let done = match opcode.decode() {
            Some(instruction) => self.apply(instruction, random),
            None => Err(InterpreterError::UnknownOpcode(opcode.raw)),
        };
        proof {
            use_type_invariant(&*self);
        }
        done
    }

    /// Decodes and executes a fetched word. `Cxnn` takes its byte from the
    /// random generator, so of that instruction the contract says only
    /// that some byte was masked; every other instruction is determined.
    pub fn execute(&mut self, opcode: Opcode) -> (done: Result<(), InterpreterError>)
        ensures
            exists|random: u8|
                step(final(self)@, done) == #[trigger] old(self)@.execute(opcode, random),
            !is_random(opcode.raw) ==> step(final(self)@, done) == old(self)@.execute(opcode, 0),
            final(self)@.wf(),
    {
        proof {
            use_type_invariant(&*self);
        }
        let done = match opcode.decode() {
            Some(Instruction::Random { x, nn }) => {
                let random = random_byte();
                let done = self.apply(Instruction::Random { x, nn }, random);
                assert(step(self@, done) == old(self)@.execute(opcode, random));
                done
            },
            Some(instruction) => self.apply(instruction, 0),
            None => Err(InterpreterError::UnknownOpcode(opcode.raw)),
        };
        proof {
            use_type_invariant(&*self);
        }
        done
    }

    /// One cycle with `random` as the byte that `Cxnn` masks: fetch the
    /// word at the program counter, move the program counter behind it,
    /// decode, execute.
    pub fn tick_with(&mut self, random: u8) -> (done: Result<(), InterpreterError>)
        ensures
            step(final(self)@, done) == old(self)@.tick(random),
            final(self)@.wf(),
    {
        match self.fetch() {
            Ok(opcode) => self.execute_with(opcode, random),
            Err(error) => Err(error),
        }
    }

    /// One cycle: fetch, decode, execute exactly one instruction. Timers
    /// are not touched; the host steps them at its own pace.
    pub fn tick(&mut self) -> (done: Result<(), InterpreterError>)
        ensures
            exists|random: u8| step(final(self)@, done) == #[trigger] old(self)@.tick(random),
            !old(self)@.draws_random() ==> step(final(self)@, done) == old(self)@.tick(0),
            final(self)@.wf(),
    {
        match self.fetch() {
            Ok(opcode) => {
                let ghost fetched = self@;
                let done = self.execute(opcode);
                proof {
                    let random = choose|random: u8|
                        step(self@, done) == #[trigger] fetched.execute(opcode, random);
                    assert(step(self@, done) == old(self)@.tick(random));
                }
                done
            },
            Err(error) => Err(error),
        }
    }
}

} // verus!
