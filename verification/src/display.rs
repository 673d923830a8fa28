use vstd::prelude::*;

verus! {

/// A copy of the screen for the host to paint: one byte a pixel, zero for
/// off, row by row.
#[derive(Debug)]
pub struct Display {
    vram: Vec<Vec<u8>>,
}

/// One square of the window: where it lies, how large it is, and whether
/// it is to be painted bright.
#[derive(Clone, Copy, Debug, PartialEq, Eq, Structural)]
pub struct Cell {
    pub x: i32,
    pub y: i32,
    pub width: u32,
    pub height: u32,
    pub lit: bool,
}

impl View for Display {
    type V = Seq<Seq<bool>>;

    closed spec fn view(&self) -> Seq<Seq<bool>> {
        Seq::new(
            Display::HEIGHT as nat,
            |y: int| Seq::new(Display::WIDTH as nat, |x: int| self.vram@[y]@[x] != 0),
        )
    }
}

/// The square that stands for pixel (`x`, `y`).
pub open spec fn cell_of(x: int, y: int, lit: bool) -> Cell {
    Cell {
        x: (x * Display::SCALE) as i32,
        y: (y * Display::SCALE) as i32,
        width: Display::SCALE,
        height: Display::SCALE,
        lit,
    }
}

impl Display {
    /// Pixels in a row.
    pub const WIDTH: u32 = 64;

    /// Rows.
    pub const HEIGHT: u32 = 32;

    /// Instructions that run between two paintings of the window.
    pub const TICKS_PER_FRAME: usize = 10;

    /// Side of the square that stands for one pixel.
    pub const SCALE: u32 = 20;

    #[verifier::type_invariant]
    spec fn inv(self) -> bool {
        &&& self.vram@.len() == Display::HEIGHT
        &&& forall|y: int|
            0 <= y < Display::HEIGHT ==> (#[trigger] self.vram@[y])@.len() == Display::WIDTH
    }

    /// Copies a screen.
    pub fn new(screen: &[[bool; 64]; 32]) -> (display: Display)
        ensures
            display@.len() == Display::HEIGHT,
            forall|y: int| 0 <= y < Display::HEIGHT ==> #[trigger] display@[y] == screen@[y]@,
    {
        let mut vram: Vec<Vec<u8>> = Vec::new();
        let mut y: usize = 0;
        while y < 32
            invariant
                y <= 32,
                vram@.len() == y,
                forall|r: int| 0 <= r < y ==> (#[trigger] vram@[r])@.len() == 64,
                forall|r: int, c: int|
                    0 <= r < y && 0 <= c < 64 ==> (vram@[r]@[c] != 0) == screen@[r]@[c],
            decreases 32 - y,
        {
            let mut row: Vec<u8> = Vec::new();
            let mut x: usize = 0;
            while x < 64
                invariant
                    x <= 64,
                    y < 32,
                    row@.len() == x,
                    forall|c: int| 0 <= c < x ==> (row@[c] != 0) == screen@[y as int]@[c],
                decreases 64 - x,
            {
                row.push(
                    if screen[y][x] {
                        1
                    } else {
                        0
                    },
                );
                x = x + 1;
            }
            vram.push(row);
            y = y + 1;
        }
        Display { vram }
    }

    /// Whether pixel (`x`, `y`) is on; `None` outside the screen.
    pub fn pixel(&self, x: usize, y: usize) -> (lit: Option<bool>)
        ensures
            lit == if x < Display::WIDTH && y < Display::HEIGHT {
                Some(self@[y as int][x as int])
            } else {
                None
            },
    {
        proof {
            use_type_invariant(self);
        }
        if x < 64 && y < 32 {
            Some(self.vram[y][x] != 0)
        } else {
            None
        }
    }

    /// The squares to paint, row by row from the top left: one for each
    /// pixel, `SCALE` wide and high, bright where the pixel is on.
    pub fn cells(&self) -> (cells: Vec<Cell>)
        ensures
            cells@.len() == Display::WIDTH * Display::HEIGHT,
            forall|y: int, x: int|
                0 <= y < Display::HEIGHT && 0 <= x < Display::WIDTH ==> cells@[y * Display::WIDTH
                    + x] == cell_of(x, y, self@[y][x]),
    {
        proof {
            use_type_invariant(self);
        }
        let mut cells: Vec<Cell> = Vec::new();
        let mut y: usize = 0;
        while y < 32
            invariant
                y <= 32,
                self.vram@.len() == 32,
                forall|r: int| 0 <= r < 32 ==> (#[trigger] self.vram@[r])@.len() == 64,
                cells@.len() == y * 64,
                forall|r: int, c: int|
                    0 <= r < y && 0 <= c < 64 ==> cells@[r * 64 + c] == cell_of(c, r, self@[r][c]),
            decreases 32 - y,
        {
            let mut x: usize = 0;
            while x < 64
                invariant
                    x <= 64,
                    y < 32,
                    self.vram@.len() == 32,
                    forall|r: int| 0 <= r < 32 ==> (#[trigger] self.vram@[r])@.len() == 64,
                    cells@.len() == y * 64 + x,
                    forall|r: int, c: int|
                        0 <= r < y && 0 <= c < 64 ==> cells@[r * 64 + c] == cell_of(
                            c,
                            r,
                            self@[r][c],
                        ),
                    forall|c: int|
                        0 <= c < x ==> cells@[y * 64 + c] == cell_of(
                            c,
                            y as int,
                            self@[y as int][c],
                        ),
                decreases 64 - x,
            {
                let lit = self.vram[y][x] != 0;
                cells.push(
                    Cell {
                        x: (x as u32 * Display::SCALE) as i32,
                        y: (y as u32 * Display::SCALE) as i32,
                        width: Display::SCALE,
                        height: Display::SCALE,
                        lit,
                    },
                );
                x = x + 1;
            }
            y = y + 1;
        }
        cells
    }
}

} // verus!
