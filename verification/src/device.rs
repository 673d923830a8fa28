use crate::display::{Cell, Display};
use crate::error::{CapacityError, InterpreterError};
use crate::machine::{step, Machine, Step};
use crate::rom::Ch8Rom;
use crate::vm::VM;
use vstd::prelude::*;

verus! {

/// A key of the host's keyboard, as far as the machine cares.
#[derive(Clone, Copy, Debug, PartialEq, Eq, Structural)]
pub enum Keycode {
    Num1,
    Num2,
    Num3,
    Num4,
    Q,
    W,
    E,
    R,
    A,
    S,
    D,
    F,
    Z,
    X,
    C,
    V,
    Escape,
    Other,
}

/// What the host's window reports.
#[derive(Clone, Copy, Debug, PartialEq, Eq, Structural)]
pub enum Input {
    /// The window was closed.
    Quit,
    /// A key went down.
    KeyDown(Keycode),
    /// A key came up.
    KeyUp(Keycode),
    /// Anything else.
    Other,
}

/// The keypad key that a keyboard key stands for when the four rows of
/// the keyboard are numbered straight through, `1` to `V` as 0 to 15.
pub open spec fn row_major_key(key: Keycode) -> Option<usize> {
    match key {
        Keycode::Num1 => Some(0usize),
        Keycode::Num2 => Some(1usize),
        Keycode::Num3 => Some(2usize),
        Keycode::Num4 => Some(3usize),
        Keycode::Q => Some(4usize),
        Keycode::W => Some(5usize),
        Keycode::E => Some(6usize),
        Keycode::R => Some(7usize),
        Keycode::A => Some(8usize),
        Keycode::S => Some(9usize),
        Keycode::D => Some(10usize),
        Keycode::F => Some(11usize),
        Keycode::Z => Some(12usize),
        Keycode::X => Some(13usize),
        Keycode::C => Some(14usize),
        Keycode::V => Some(15usize),
        Keycode::Escape | Keycode::Other => None,
    }
}

/// The keypad key that a keyboard key stands for when the keyboard block
/// is laid over the hexadecimal keypad:
///
/// ```text
/// 1 2 3 4      1 2 3 C
/// Q W E R  for 4 5 6 D
/// A S D F      7 8 9 E
/// Z X C V      A 0 B F
/// ```
pub open spec fn keypad_key(key: Keycode) -> Option<usize> {
    match key {
        Keycode::Num1 => Some(0x1usize),
        Keycode::Num2 => Some(0x2usize),
        Keycode::Num3 => Some(0x3usize),
        Keycode::Num4 => Some(0xCusize),
        Keycode::Q => Some(0x4usize),
        Keycode::W => Some(0x5usize),
        Keycode::E => Some(0x6usize),
        Keycode::R => Some(0xDusize),
        Keycode::A => Some(0x7usize),
        Keycode::S => Some(0x8usize),
        Keycode::D => Some(0x9usize),
        Keycode::F => Some(0xEusize),
        Keycode::Z => Some(0xAusize),
        Keycode::X => Some(0x0usize),
        Keycode::C => Some(0xBusize),
        Keycode::V => Some(0xFusize),
        Keycode::Escape | Keycode::Other => None,
    }
}

/// The keypad key for a keyboard key, by the keypad's own layout.
pub fn update_keypress(key: Keycode) -> (index: Option<usize>)
    ensures
        index == keypad_key(key),
        index matches Some(k) ==> k < 16,
{
    match key {
        Keycode::Num1 => Some(0x1),
        Keycode::Num2 => Some(0x2),
        Keycode::Num3 => Some(0x3),
        Keycode::Num4 => Some(0xC),
        Keycode::Q => Some(0x4),
        Keycode::W => Some(0x5),
        Keycode::E => Some(0x6),
        Keycode::R => Some(0xD),
        Keycode::A => Some(0x7),
        Keycode::S => Some(0x8),
        Keycode::D => Some(0x9),
        Keycode::F => Some(0xE),
        Keycode::Z => Some(0xA),
        Keycode::X => Some(0x0),
        Keycode::C => Some(0xB),
        Keycode::V => Some(0xF),
        _ => None,
    }
}

/// Whether an input ends the run: the window closing, or Escape going down.
pub open spec fn ends_run(input: Input) -> bool {
    input == Input::Quit || input == Input::KeyDown(Keycode::Escape)
}

/// The machine after an input: a key of the block that goes down or comes
/// up sets its keypad key, by the straight numbering; nothing else changes
/// anything.
pub open spec fn after_input(m: Machine, input: Input) -> Machine {
    match input {
        Input::KeyDown(key) => match row_major_key(key) {
            Some(k) => m.with_key(k as int, true),
            None => m,
        },
        Input::KeyUp(key) => match row_major_key(key) {
            Some(k) => m.with_key(k as int, false),
            None => m,
        },
        _ => m,
    }
}

/// The machine after as many cycles as there are bytes in `randoms`, cycle
/// `i` with byte `i` for `Cxnn`. The first cycle that fails ends the run.
pub open spec fn ticks(m: Machine, randoms: Seq<u8>) -> Step
    decreases randoms.len(),
{
    if randoms.len() == 0 {
        m.ok()
    } else {
        let before = ticks(m, randoms.drop_last());
        if before.result is Err {
            before
        } else {
            before.after.tick(randoms.last())
        }
    }
}

/// A machine with the program it is to run, driven by a host that feeds it
/// inputs and paints its screen.
#[derive(Debug)]
pub struct Device {
    pub vm: VM,
    pub rom: Ch8Rom,
}

impl Device {
    /// A machine as switched on, with `rom` waiting to be loaded.
    pub fn new(rom: Ch8Rom) -> (device: Device)
        ensures
            device.vm@ == Machine::power_on(),
            device.rom == rom,
    {
        Device { vm: VM::new(), rom }
    }

    /// Loads the program and the font. A program that does not fit is
    /// refused and nothing is written.
    pub fn initialize(&mut self) -> (loaded: Result<(), CapacityError>)
        ensures
            Machine::program_fits(old(self).rom@.len()) ==> loaded == Ok::<(), CapacityError>(())
                && final(self).vm@ == old(self).vm@.with_program(old(self).rom@).with_font(),
            !Machine::program_fits(old(self).rom@.len()) ==> loaded == Err::<(), CapacityError>(
                CapacityError,
            ) && final(self).vm@ == old(self).vm@,
            final(self).rom == old(self).rom,
    {
        self.vm.initialize(&self.rom)
    }

    /// The keypad key for a keyboard key, the block numbered straight
    /// through.
    pub fn key_index(key: Keycode) -> (index: Option<usize>)
        ensures
            index == row_major_key(key),
            index matches Some(k) ==> k < 16,
    {
        match key {
            Keycode::Num1 => Some(0),
            Keycode::Num2 => Some(1),
            Keycode::Num3 => Some(2),
            Keycode::Num4 => Some(3),
            Keycode::Q => Some(4),
            Keycode::W => Some(5),
            Keycode::E => Some(6),
            Keycode::R => Some(7),
            Keycode::A => Some(8),
            Keycode::S => Some(9),
            Keycode::D => Some(10),
            Keycode::F => Some(11),
            Keycode::Z => Some(12),
            Keycode::X => Some(13),
            Keycode::C => Some(14),
            Keycode::V => Some(15),
            _ => None,
        }
    }

    /// Takes one input from the host. Returns whether the run goes on.
    pub fn handle(&mut self, input: Input) -> (running: bool)
        ensures
            running == !ends_run(input),
            final(self).vm@ == after_input(old(self).vm@, input),
            final(self).rom == old(self).rom,
    {
        match input {
            Input::Quit => false,
            Input::KeyDown(Keycode::Escape) => false,
            Input::KeyDown(key) => {
                match Device::key_index(key) {
                    Some(k) => self.vm.presskey(k, true),
                    None => {},
                }
                true
            },
            Input::KeyUp(key) => {
                match Device::key_index(key) {
                    Some(k) => self.vm.presskey(k, false),
                    None => {},
                }
                true
            },
            Input::Other => true,
        }
    }

    /// Runs the machine for one frame: `TICKS_PER_FRAME` cycles, then one
    /// step of the timers. Returns whether the tone is to sound. A cycle
    /// that fails ends the frame at once, with the timers as they were.
    pub fn frame(&mut self) -> (done: Result<bool, InterpreterError>)
        ensures
            exists|randoms: Seq<u8>|
                randoms.len() == Display::TICKS_PER_FRAME && match (#[trigger] ticks(
                    old(self).vm@,
                    randoms,
                )).result {
                    Ok(()) => done == Ok::<bool, InterpreterError>(
                        ticks(old(self).vm@, randoms).after.sound_timer == 1,
                    ) && final(self).vm@ == ticks(
                        old(self).vm@,
                        randoms,
                    ).after.with_timers_stepped(),
                    Err(error) => done == Err::<bool, InterpreterError>(error) && final(self).vm@
                        == ticks(old(self).vm@, randoms).after,
                },
            final(self).rom == old(self).rom,
    {
        let ghost mut randoms: Seq<u8> = Seq::empty();
        let mut i: usize = 0;
        while i < Display::TICKS_PER_FRAME
            invariant
                i <= Display::TICKS_PER_FRAME,
                randoms.len() == i,
                self.rom == old(self).rom,
                ticks(old(self).vm@, randoms) == step(self.vm@, Ok(())),
            decreases Display::TICKS_PER_FRAME - i,
        {
            let ghost before = self.vm@;
            let done = self.vm.tick();
            proof {
                let random = choose|random: u8|
                    step(self.vm@, done) == #[trigger] before.tick(random);
                let longer = randoms.push(random);
                assert(longer.drop_last() =~= randoms);
                assert(ticks(old(self).vm@, longer) == step(self.vm@, done));
                randoms = longer;
            }
            match done {
                Ok(()) => {},
                Err(error) => {
                    proof {
                        lemma_ticks_stay_failed(
                            old(self).vm@,
                            randoms,
                            Display::TICKS_PER_FRAME as nat,
                        );
                    }
                    return Err(error);
                },
            }
            i = i + 1;
        }
        let beep = self.vm.update_timers();
        Ok(beep)
    }

    /// The squares for the host to paint, one for each pixel.
    pub fn draw_screen(&self) -> (cells: Vec<Cell>)
        ensures
            cells@.len() == Display::WIDTH * Display::HEIGHT,
            forall|y: int, x: int|
                0 <= y < Display::HEIGHT && 0 <= x < Display::WIDTH ==> cells@[y * Display::WIDTH
                    + x] == crate::display::cell_of(x, y, self.vm@.screen[y][x]),
    {
        let screen = self.vm.display();
        let display = Display::new(screen);
        let cells = display.cells();
        assert forall|y: int, x: int|
            0 <= y < Display::HEIGHT && 0 <= x < Display::WIDTH implies cells@[y * Display::WIDTH
            + x] == crate::display::cell_of(x, y, self.vm@.screen[y][x]) by {
            assert(display@[y] == screen@[y]@);
            assert(screen@[y]@ == self.vm@.screen[y]);
        }
        cells
    }
}

/// A run that has failed stays as it is however many more cycles are asked
/// of it.
proof fn lemma_ticks_stay_failed(m: Machine, randoms: Seq<u8>, total: nat)
    requires
        ticks(m, randoms).result is Err,
        randoms.len() <= total,
    ensures
        exists|longer: Seq<u8>| longer.len() == total && #[trigger] ticks(m, longer) == ticks(
            m,
            randoms,
        ),
    decreases total - randoms.len(),
{
    if randoms.len() < total {
        let next = randoms.push(0u8);
        assert(next.drop_last() =~= randoms);
        assert(ticks(m, next) == ticks(m, randoms));
        lemma_ticks_stay_failed(m, next, total);
    }
}

} // verus!
