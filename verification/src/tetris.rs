//! Game logic of the falling-block demo.
//!
//! The playing field is a grid of colored cells; one four-by-four-stenciled
//! piece falls at a time.  The piece moves and rotates against the grid,
//! locks into it when it can fall no further, full rows are cleared and
//! scored, and the fall speeds up as rows clear.  All of it is plain state
//! logic; drawing the board is the host's business.

use vstd::prelude::*;

use crate::color::Color;
use crate::keycode::KeyCode;

verus! {

/// Columns of the playing field.
pub const GRID_WIDTH: usize = 10;

/// Rows of the playing field.
pub const GRID_HEIGHT: usize = 20;

/// A direction a piece can be moved or rotated in.
#[derive(Debug, Clone, Copy, PartialEq, Eq, Structural)]
pub enum Direction {
    /// Toward smaller x.
    Left,
    /// Toward larger x.
    Right,
    /// Toward larger y.
    Down,
}

/// The seven piece shapes.
#[derive(Debug, Clone, Copy, PartialEq, Eq, Hash, Structural)]
pub enum Tetromino {
    /// The straight piece.
    I,
    /// The square piece.
    O,
    /// The tee piece.
    T,
    /// The ell piece.
    L,
    /// The mirrored ell piece.
    J,
    /// The ess piece.
    S,
    /// The mirrored ess piece.
    Z,
}

impl Tetromino {
    /// Whether the unrotated four-by-four stencil of this shape has a
    /// filled cell at column `x`, row `y`.
    pub open spec fn shape_at(self, x: int, y: int) -> bool {
        match self {
            Tetromino::I => y == 1 && 0 <= x <= 3,
            Tetromino::O => (y == 1 || y == 2) && (x == 1 || x == 2),
            Tetromino::T => (y == 1 && x == 1) || (y == 2 && 0 <= x <= 2),
            Tetromino::L => (y == 1 && x == 2) || (y == 2 && 0 <= x <= 2),
            Tetromino::J => (y == 1 && x == 0) || (y == 2 && 0 <= x <= 2),
            Tetromino::S => (y == 1 && (x == 1 || x == 2)) || (y == 2 && (x == 0 || x == 1)),
            Tetromino::Z => (y == 1 && (x == 0 || x == 1)) || (y == 2 && (x == 1 || x == 2)),
        }
    }

    /// Whether the unrotated stencil has a filled cell at `(x, y)`.
    pub fn cell(&self, x: usize, y: usize) -> (b: bool)
        requires
            x < 4,
            y < 4,
        ensures
            b == self.shape_at(x as int, y as int),
    {
        match self {
            Tetromino::I => y == 1,
            Tetromino::O => (y == 1 || y == 2) && (x == 1 || x == 2),
            Tetromino::T => (y == 1 && x == 1) || (y == 2 && x <= 2),
            Tetromino::L => (y == 1 && x == 2) || (y == 2 && x <= 2),
            Tetromino::J => (y == 1 && x == 0) || (y == 2 && x <= 2),
            Tetromino::S => (y == 1 && (x == 1 || x == 2)) || (y == 2 && (x == 0 || x == 1)),
            Tetromino::Z => (y == 1 && (x == 0 || x == 1)) || (y == 2 && (x == 1 || x == 2)),
        }
    }

    /// The four-by-four stencil of this shape, row by row.
    pub fn shapes(&self) -> (r: [[bool; 4]; 4])
        ensures
            forall|x: int, y: int|
                0 <= x < 4 && 0 <= y < 4 ==> (r@[y])@[x] == self.shape_at(x, y),
    {
        match self {
            Tetromino::I => [
                [false, false, false, false],
                [true, true, true, true],
                [false, false, false, false],
                [false, false, false, false],
            ],
            Tetromino::O => [
                [false, false, false, false],
                [false, true, true, false],
                [false, true, true, false],
                [false, false, false, false],
            ],
            Tetromino::T => [
                [false, false, false, false],
                [false, true, false, false],
                [true, true, true, false],
                [false, false, false, false],
            ],
            Tetromino::L => [
                [false, false, false, false],
                [false, false, true, false],
                [true, true, true, false],
                [false, false, false, false],
            ],
            Tetromino::J => [
                [false, false, false, false],
                [true, false, false, false],
                [true, true, true, false],
                [false, false, false, false],
            ],
            Tetromino::S => [
                [false, false, false, false],
                [false, true, true, false],
                [true, true, false, false],
                [false, false, false, false],
            ],
            Tetromino::Z => [
                [false, false, false, false],
                [true, true, false, false],
                [false, true, true, false],
                [false, false, false, false],
            ],
        }
    }

    /// The raw color value drawn for this shape.
    pub open spec fn color_of(self) -> u32 {
        match self {
            Tetromino::I => 0xAAAA00,
            Tetromino::O => 0x55FFFF,
            Tetromino::T => 0xAA00AA,
            Tetromino::L => 0xFFA500,
            Tetromino::J => 0xAA0000,
            Tetromino::S => 0x00AA00,
            Tetromino::Z => 0x0000AA,
        }
    }

    /// The color drawn for this shape.
    pub fn color(&self) -> (c: Color)
        ensures
            c == Color::spec_from(self.color_of()),
    {
        match self {
            Tetromino::I => Color::cyan(),
            Tetromino::O => Color::yellow(),
            Tetromino::T => Color::magenta(),
            Tetromino::L => {
                proof {
                    assert(((255u32 << 16) | ((165u32) << 8) | (0u32)) == 0xFFA500u32)
                        by (bit_vector);
                }
                Color::new(255, 165, 0)
            },
            Tetromino::J => Color::blue(),
            Tetromino::S => Color::green(),
            Tetromino::Z => Color::red(),
        }
    }

    /// The shape numbered `i`, in the fixed order of the seven shapes.
    pub open spec fn of_index(i: u8) -> Tetromino {
        if i == 0 {
            Tetromino::I
        } else if i == 1 {
            Tetromino::O
        } else if i == 2 {
            Tetromino::T
        } else if i == 3 {
            Tetromino::L
        } else if i == 4 {
            Tetromino::J
        } else if i == 5 {
            Tetromino::S
        } else {
            Tetromino::Z
        }
    }

    /// The shape numbered `i`.
    pub fn from_index(i: u8) -> (t: Tetromino)
        requires
            i < 7,
        ensures
            t == Tetromino::of_index(i),
    {
        if i == 0 {
            Tetromino::I
        } else if i == 1 {
            Tetromino::O
        } else if i == 2 {
            Tetromino::T
        } else if i == 3 {
            Tetromino::L
        } else if i == 4 {
            Tetromino::J
        } else if i == 5 {
            Tetromino::S
        } else {
            Tetromino::Z
        }
    }

    /// A shape drawn at random; any of the seven may come back.
    pub fn random() -> Tetromino {
        Tetromino::from_index(random_below(7))
    }
}

/// Relies on rand::random_range over `0..n`: the draw lies in the range,
/// which is nonempty because `n` is positive.
#[verifier::external_body]
fn random_below(n: u8) -> (r: u8)
    requires
        0 < n,
    ensures
        r < n,
{
    rand::random_range(0..n)
}

/// The playing field: a fixed-size grid of optional cell colors.
#[derive(Debug, Clone)]
pub struct Grid {
    cells: Vec<Vec<Option<Color>>>,
}

impl Grid {
    /// The cells of row `y`, left to right.
    pub closed spec fn spec_row(self, y: int) -> Seq<Option<Color>> {
        self.cells@[y]@
    }

    /// The cell at column `x`, row `y`.
    pub open spec fn spec_cell(self, x: int, y: int) -> Option<Color> {
        self.spec_row(y)[x]
    }

    /// A well-formed grid has exactly the fixed number of rows and
    /// columns.
    pub closed spec fn wf(self) -> bool {
        &&& self.cells@.len() == GRID_HEIGHT as int
        &&& forall|y: int|
            0 <= y < GRID_HEIGHT as int ==> (#[trigger] self.cells@[y])@.len()
                == GRID_WIDTH as int
    }

    /// An empty grid.
    pub fn new() -> (g: Grid)
        ensures
            g.wf(),
            forall|x: int, y: int|
                0 <= x < GRID_WIDTH as int && 0 <= y < GRID_HEIGHT as int ==> g.spec_cell(
                    x,
                    y,
                ) is None,
    {
        let mut cells: Vec<Vec<Option<Color>>> = Vec::new();
        let mut y: usize = 0;
        while y < GRID_HEIGHT
            invariant
                0 <= y <= GRID_HEIGHT as int,
                cells@.len() == y as int,
                forall|j: int|
                    0 <= j < y as int ==> (#[trigger] cells@[j])@.len() == GRID_WIDTH as int,
                forall|i: int, j: int|
                    0 <= i < GRID_WIDTH as int && 0 <= j < y as int ==> #[trigger] (cells@[j]@[i])
                        is None,
            decreases GRID_HEIGHT - y,
        {
            let mut row: Vec<Option<Color>> = Vec::new();
            let mut x: usize = 0;
            while x < GRID_WIDTH
                invariant
                    0 <= x <= GRID_WIDTH as int,
                    row@.len() == x as int,
                    forall|i: int| 0 <= i < x as int ==> row@[i] is None,
                decreases GRID_WIDTH - x,
            {
                row.push(None);
                x += 1;
            }
            cells.push(row);
            y += 1;
        }
        Grid { cells }
    }

    /// The cell at column `x`, row `y`.
    pub fn get(&self, x: usize, y: usize) -> (c: Option<Color>)
        requires
            self.wf(),
            x < GRID_WIDTH,
            y < GRID_HEIGHT,
        ensures
            c == self.spec_cell(x as int, y as int),
    {
        self.cells[y][x]
    }

    /// Replaces the cell at column `x`, row `y`.
    pub fn set(&mut self, x: usize, y: usize, c: Option<Color>)
        requires
            old(self).wf(),
            x < GRID_WIDTH,
            y < GRID_HEIGHT,
        ensures
            final(self).wf(),
            forall|i: int, j: int|
                0 <= i < GRID_WIDTH as int && 0 <= j < GRID_HEIGHT as int
                    ==> final(self).spec_cell(i, j) == (if i == x as int && j == y as int {
                    c
                } else {
                    old(self).spec_cell(i, j)
                }),
    {
        self.cells[y][x] = c;
    }

    /// Whether every cell of row `y` is filled.
    pub fn row_is_full(&self, y: usize) -> (b: bool)
        requires
            self.wf(),
            y < GRID_HEIGHT,
        ensures
            b == full_row(*self, y as int),
    {
        let mut x: usize = 0;
        while x < GRID_WIDTH
            invariant
                self.wf(),
                y < GRID_HEIGHT,
                0 <= x <= GRID_WIDTH as int,
                forall|i: int| 0 <= i < x as int ==> self.spec_cell(i, y as int) is Some,
            decreases GRID_WIDTH - x,
        {
            if self.get(x, y).is_none() {
                return false;
            }
            x += 1;
        }
        true
    }
}

/// Whether every cell of row `y` of `g` is filled.
pub open spec fn full_row(g: Grid, y: int) -> bool {
    forall|x: int| 0 <= x < GRID_WIDTH as int ==> g.spec_cell(x, y) is Some
}

/// The column of stencil cell `(x, y)` after `rot` quarter turns
/// clockwise within the four-by-four stencil.
pub open spec fn rot_x(rot: int, x: int, y: int) -> int {
    if rot == 0 {
        x
    } else if rot == 1 {
        3 - y
    } else if rot == 2 {
        3 - x
    } else {
        y
    }
}

/// The row of stencil cell `(x, y)` after `rot` quarter turns clockwise.
pub open spec fn rot_y(rot: int, x: int, y: int) -> int {
    if rot == 0 {
        y
    } else if rot == 1 {
        x
    } else if rot == 2 {
        3 - y
    } else {
        3 - x
    }
}

/// The falling piece: its shape, grid position and rotation.
#[derive(Debug, Clone, Copy, PartialEq, Eq, Structural)]
pub struct Block {
    /// The shape of the piece.
    pub shape: Tetromino,
    /// The grid column of the stencil's left edge; may be negative while
    /// the stencil's filled cells are still inside the field.
    pub x: i32,
    /// The grid row of the stencil's top edge.
    pub y: i32,
    /// Quarter turns clockwise, 0 to 3.
    pub rotation: usize,
}

/// Position bounds under which the collision arithmetic stays well inside
/// the machine's integer range.
pub open spec fn pos_in_range(b: Block) -> bool {
    -64 <= b.x <= 64 && -64 <= b.y <= 64
}

/// Whether stencil cell `(sx, sy)` of the piece collides: the cell is
/// filled and its grid position is off the left, right or bottom edge of
/// the field, or covers an occupied grid cell.  Positions above the field
/// do not collide.
pub open spec fn collision_at(b: Block, g: Grid, sx: int, sy: int) -> bool {
    b.shape.shape_at(sx, sy) && {
        let gx = b.x + rot_x(b.rotation as int, sx, sy);
        let gy = b.y + rot_y(b.rotation as int, sx, sy);
        gx < 0 || gx >= GRID_WIDTH as int || gy >= GRID_HEIGHT as int || (gy >= 0
            && g.spec_cell(gx, gy) is Some)
    }
}

/// Whether the piece collides with the field boundary or an occupied
/// cell.
pub open spec fn spec_collides(b: Block, g: Grid) -> bool {
    exists|sx: int, sy: int| 0 <= sx < 4 && 0 <= sy < 4 && collision_at(b, g, sx, sy)
}

/// The change of column a move makes.
pub open spec fn dir_dx(d: Direction) -> int {
    match d {
        Direction::Left => -1,
        Direction::Right => 1,
        Direction::Down => 0,
    }
}

/// The change of row a move makes.
pub open spec fn dir_dy(d: Direction) -> int {
    match d {
        Direction::Left => 0,
        Direction::Right => 0,
        Direction::Down => 1,
    }
}

/// The column found by the rotation kick search, which tries offsets
/// `+0, -0, +1, -1, ...` up to three columns away and takes the first
/// that does not collide; `None` where every try collides.
pub open spec fn kick_result(b: Block, g: Grid, adjust: int) -> Option<i32>
    decreases 4 - adjust,
{
    if adjust >= 4 {
        None
    } else if !spec_collides(Block { x: (b.x + adjust) as i32, ..b }, g) {
        Some((b.x + adjust) as i32)
    } else if !spec_collides(Block { x: (b.x - adjust) as i32, ..b }, g) {
        Some((b.x - adjust) as i32)
    } else {
        kick_result(b, g, adjust + 1)
    }
}

/// The rotation that one turn in the given direction reaches; `Down`
/// turns nowhere.
pub open spec fn turned_rotation(rot: int, d: Direction) -> int {
    match d {
        Direction::Left => (rot + 3) % 4,
        Direction::Right => (rot + 1) % 4,
        Direction::Down => rot,
    }
}

impl Block {
    /// The stencil position of cell `(x, y)` after this piece's rotation:
    /// first the column, then the row.
    pub fn rotate_coords(&self, x: usize, y: usize) -> (r: (usize, usize))
        requires
            self.rotation < 4,
            x < 4,
            y < 4,
        ensures
            r.0 == rot_x(self.rotation as int, x as int, y as int),
            r.1 == rot_y(self.rotation as int, x as int, y as int),
    {
        if self.rotation == 0 {
            (x, y)
        } else if self.rotation == 1 {
            (3 - y, x)
        } else if self.rotation == 2 {
            (3 - x, 3 - y)
        } else {
            (y, 3 - x)
        }
    }

    /// Whether the piece collides with the field boundary or an occupied
    /// cell.
    pub fn check_collision(&self, grid: &Grid) -> (c: bool)
        requires
            grid.wf(),
            self.rotation < 4,
            pos_in_range(*self),
        ensures
            c == spec_collides(*self, *grid),
    {
        let mut sy: usize = 0;
        while sy < 4
            invariant
                grid.wf(),
                self.rotation < 4,
                pos_in_range(*self),
                0 <= sy <= 4,
                forall|a: int, b: int|
                    0 <= a < 4 && 0 <= b < sy as int ==> !collision_at(*self, *grid, a, b),
            decreases 4 - sy,
        {
            let mut sx: usize = 0;
            while sx < 4
                invariant
                    grid.wf(),
                    self.rotation < 4,
                    pos_in_range(*self),
                    0 <= sy < 4,
                    0 <= sx <= 4,
                    forall|a: int, b: int|
                        0 <= a < 4 && 0 <= b < sy as int ==> !collision_at(*self, *grid, a, b),
                    forall|a: int|
                        0 <= a < sx as int ==> !collision_at(*self, *grid, a, sy as int),
                decreases 4 - sx,
            {
                if self.shape.cell(sx, sy) {
                    let (rx, ry) = self.rotate_coords(sx, sy);
                    let gx: i32 = self.x + rx as i32;
                    let gy: i32 = self.y + ry as i32;
                    if gx < 0 || gx >= GRID_WIDTH as i32 || gy >= GRID_HEIGHT as i32 {
                        proof {
                            assert(collision_at(*self, *grid, sx as int, sy as int));
                        }
                        return true;
                    }
                    if gy >= 0 && grid.get(gx as usize, gy as usize).is_some() {
                        proof {
                            assert(collision_at(*self, *grid, sx as int, sy as int));
                        }
                        return true;
                    }
                }
                sx += 1;
            }
            sy += 1;
        }
        false
    }

    /// Moves the piece one step in the given direction; a move into a
    /// colliding position is refused and the piece stays where it was.
    pub fn move_block(&mut self, direction: Direction, grid: &Grid) -> (moved: bool)
        requires
            grid.wf(),
            old(self).rotation < 4,
            -63 <= old(self).x <= 63,
            -63 <= old(self).y <= 63,
        ensures
            ({
                let tried = Block {
                    x: (old(self).x + dir_dx(direction)) as i32,
                    y: (old(self).y + dir_dy(direction)) as i32,
                    ..*old(self)
                };
                &&& (spec_collides(tried, *grid) ==> !moved && *final(self) == *old(self))
                &&& (!spec_collides(tried, *grid) ==> moved && *final(self) == tried)
            }),
    {
        let old_x = self.x;
        let old_y = self.y;
        match direction {
            Direction::Left => {
                self.x = self.x - 1;
            },
            Direction::Right => {
                self.x = self.x + 1;
            },
            Direction::Down => {
                self.y = self.y + 1;
            },
        }
        if self.check_collision(grid) {
            self.x = old_x;
            self.y = old_y;
            return false;
        }
        true
    }

    /// The kick search: the nearest column at which the piece, as it
    /// stands, does not collide, trying `+0, -0, +1, -1, ...` up to three
    /// columns away.
    fn find_kick(&self, grid: &Grid) -> (r: Option<i32>)
        requires
            grid.wf(),
            self.rotation < 4,
            -60 <= self.x <= 60,
            -60 <= self.y <= 60,
        ensures
            r == kick_result(*self, *grid, 0),
    {
        let mut adjust: i32 = 0;
        while adjust < 4
            invariant
                grid.wf(),
                self.rotation < 4,
                -60 <= self.x <= 60,
                -60 <= self.y <= 60,
                0 <= adjust <= 4,
                kick_result(*self, *grid, 0) == kick_result(*self, *grid, adjust as int),
            decreases 4 - adjust,
        {
            let cand_right = Block { x: self.x + adjust, ..*self };
            if !cand_right.check_collision(grid) {
                return Some(self.x + adjust);
            }
            let cand_left = Block { x: self.x - adjust, ..*self };
            if !cand_left.check_collision(grid) {
                return Some(self.x - adjust);
            }
            adjust += 1;
        }
        None
    }

    /// Turns the piece one quarter turn in the given direction, kicking
    /// it up to three columns sideways to find room; where no room is
    /// found the piece stays as it was.  `Down` turns nowhere.
    pub fn rotate(&mut self, direction: Direction, grid: &Grid)
        requires
            grid.wf(),
            old(self).rotation < 4,
            -60 <= old(self).x <= 60,
            -60 <= old(self).y <= 60,
        ensures
            final(self).rotation < 4,
            direction is Down ==> *final(self) == *old(self),
            !(direction is Down) ==> ({
                let turned = Block {
                    rotation: turned_rotation(old(self).rotation as int, direction) as usize,
                    ..*old(self)
                };
                &&& (kick_result(turned, *grid, 0) matches Some(nx) ==> *final(self) == (Block {
                    x: nx,
                    ..turned
                }))
                &&& (kick_result(turned, *grid, 0) is None ==> *final(self) == *old(self))
            }),
    {
        let prev_r = self.rotation;
        match direction {
            Direction::Left => {
                self.rotation = (self.rotation + 3) % 4;
            },
            Direction::Right => {
                self.rotation = (self.rotation + 1) % 4;
            },
            Direction::Down => {
                return ;
            },
        }
        match self.find_kick(grid) {
            Some(nx) => {
                self.x = nx;
            },
            None => {
                self.rotation = prev_r;
            },
        }
    }
}

/// Whether stencil cell `(sx, sy)` of piece `b` is filled and lands on
/// grid cell `(gx, gy)` under the piece's rotation and position.
pub open spec fn covered_by(b: Block, sx: int, sy: int, gx: int, gy: int) -> bool {
    &&& b.shape.shape_at(sx, sy)
    &&& b.x + rot_x(b.rotation as int, sx, sy) == gx
    &&& b.y + rot_y(b.rotation as int, sx, sy) == gy
}

/// Whether some filled stencil cell of `b` lands on grid cell `(gx, gy)`.
pub open spec fn cell_covered(b: Block, gx: int, gy: int) -> bool {
    exists|sx: int, sy: int| 0 <= sx < 4 && 0 <= sy < 4 && #[trigger] covered_by(b, sx, sy, gx, gy)
}

/// Whether some filled stencil cell among those before `(px, py)` in
/// row-major order lands on grid cell `(gx, gy)`.
spec fn covered_before(b: Block, gx: int, gy: int, py: int, px: int) -> bool {
    exists|sx: int, sy: int|
        0 <= sx < 4 && 0 <= sy < 4 && (sy < py || (sy == py && sx < px)) && #[trigger] covered_by(
            b,
            sx,
            sy,
            gx,
            gy,
        )
}


/// One more stencil cell in row-major order covers one more grid cell:
/// what is covered before `(px + 1, py)` is what was covered before
/// `(px, py)` plus whatever cell `(px, py)` itself lands on.
proof fn lemma_covered_before_step(b: Block, py: int, px: int)
    requires
        0 <= py < 4,
        0 <= px < 4,
    ensures
        forall|gx: int, gy: int|
            #[trigger] covered_before(b, gx, gy, py, px + 1) == (covered_before(b, gx, gy, py, px)
                || covered_by(b, px, py, gx, gy)),
{
    assert forall|gx: int, gy: int|
        #[trigger] covered_before(b, gx, gy, py, px + 1) == (covered_before(b, gx, gy, py, px)
            || covered_by(b, px, py, gx, gy)) by {
        if covered_before(b, gx, gy, py, px + 1) {
            let (sx, sy): (int, int) = choose|sx: int, sy: int|
                0 <= sx < 4 && 0 <= sy < 4 && (sy < py || (sy == py && sx < px + 1))
                    && #[trigger] covered_by(b, sx, sy, gx, gy);
            if sy == py && sx == px {
                assert(covered_by(b, px, py, gx, gy));
            } else {
                assert(covered_before(b, gx, gy, py, px));
            }
        }
        if covered_before(b, gx, gy, py, px) {
            let (sx, sy): (int, int) = choose|sx: int, sy: int|
                0 <= sx < 4 && 0 <= sy < 4 && (sy < py || (sy == py && sx < px))
                    && #[trigger] covered_by(b, sx, sy, gx, gy);
            assert(covered_by(b, sx, sy, gx, gy));
            assert(covered_before(b, gx, gy, py, px + 1));
        }
        if covered_by(b, px, py, gx, gy) {
            assert(covered_before(b, gx, gy, py, px + 1));
        }
    }
}

/// Finishing a stencil row covers the same cells as starting the next:
/// before `(4, py)` and before `(0, py + 1)` mean the same cells.
proof fn lemma_covered_before_row(b: Block, py: int)
    requires
        0 <= py < 4,
    ensures
        forall|gx: int, gy: int|
            #[trigger] covered_before(b, gx, gy, py, 4) == covered_before(b, gx, gy, py + 1, 0),
{
    assert forall|gx: int, gy: int|
        #[trigger] covered_before(b, gx, gy, py, 4) == covered_before(b, gx, gy, py + 1, 0) by {
        if covered_before(b, gx, gy, py, 4) {
            let (sx, sy): (int, int) = choose|sx: int, sy: int|
                0 <= sx < 4 && 0 <= sy < 4 && (sy < py || (sy == py && sx < 4))
                    && #[trigger] covered_by(b, sx, sy, gx, gy);
            assert(covered_by(b, sx, sy, gx, gy));
            assert(covered_before(b, gx, gy, py + 1, 0));
        }
        if covered_before(b, gx, gy, py + 1, 0) {
            let (sx, sy): (int, int) = choose|sx: int, sy: int|
                0 <= sx < 4 && 0 <= sy < 4 && (sy < py + 1 || (sy == py + 1 && sx < 0))
                    && #[trigger] covered_by(b, sx, sy, gx, gy);
            assert(covered_by(b, sx, sy, gx, gy));
            assert(covered_before(b, gx, gy, py, 4));
        }
    }
}

/// How locking piece `b` turns grid `g0` into grid `g1`: every in-range
/// cell the piece covers takes the piece's color, every other cell keeps
/// its content.
pub open spec fn lock_rel(b: Block, g0: Grid, g1: Grid) -> bool {
    &&& g1.wf()
    &&& forall|gx: int, gy: int|
        0 <= gx < GRID_WIDTH as int && 0 <= gy < GRID_HEIGHT as int
            ==> #[trigger] g1.spec_cell(gx, gy) == (if cell_covered(b, gx, gy) {
            Some(Color::spec_from(b.shape.color_of()))
        } else {
            g0.spec_cell(gx, gy)
        })
}

/// The rows of `g` from row `from` on that are not full, in order, top
/// first.
pub open spec fn kept_rows_from(g: Grid, from: int) -> Seq<int>
    decreases GRID_HEIGHT as int - from,
{
    if from >= GRID_HEIGHT as int {
        Seq::empty()
    } else if full_row(g, from) {
        kept_rows_from(g, from + 1)
    } else {
        seq![from] + kept_rows_from(g, from + 1)
    }
}

/// The rows of `g` that are not full, in order, top first.
pub open spec fn kept_rows(g: Grid) -> Seq<int> {
    kept_rows_from(g, 0)
}

/// The kept rows from `from` on number at most the rows from `from` on,
/// and each of them is a row index from `from` on that is not full.
pub proof fn lemma_kept_rows_from(g: Grid, from: int)
    requires
        0 <= from <= GRID_HEIGHT as int,
    ensures
        kept_rows_from(g, from).len() <= GRID_HEIGHT as int - from,
        forall|i: int|
            0 <= i < kept_rows_from(g, from).len() ==> from <= #[trigger] kept_rows_from(
                g,
                from,
            )[i] < GRID_HEIGHT as int && !full_row(g, kept_rows_from(g, from)[i]),
    decreases GRID_HEIGHT as int - from,
{
    if from < GRID_HEIGHT as int {
        lemma_kept_rows_from(g, from + 1);
    }
}

/// How clearing full rows turns grid `g0` into grid `g1`: the rows of
/// `g0` that are not full stack at the bottom of `g1` in their old order,
/// and the rows above them are empty.
pub open spec fn clear_rel(g0: Grid, g1: Grid) -> bool {
    let k = kept_rows(g0);
    &&& g1.wf()
    &&& forall|gx: int, gy: int|
        0 <= gx < GRID_WIDTH as int && 0 <= gy < GRID_HEIGHT as int - k.len()
            ==> #[trigger] g1.spec_cell(gx, gy) is None
    &&& forall|gx: int, i: int|
        0 <= gx < GRID_WIDTH as int && 0 <= i < k.len() ==> #[trigger] g1.spec_cell(
            gx,
            GRID_HEIGHT as int - k.len() + i,
        ) == g0.spec_cell(gx, k[i])
}

/// The drop interval after `cleared` rows cleared: shortened by 50
/// milliseconds, but never below 100, and unchanged when nothing cleared.
pub open spec fn spec_speedup(interval: u64, cleared: int) -> u64 {
    if cleared > 0 {
        if interval - 50 >= 100 {
            (interval - 50) as u64
        } else {
            100u64
        }
    } else {
        interval
    }
}

/// A piece that does not collide stands at most three columns outside
/// the left edge, inside the right edge, and above the bottom edge.
pub proof fn lemma_noncolliding_bounds(b: Block, g: Grid)
    requires
        g.wf(),
        b.rotation < 4,
        !spec_collides(b, g),
    ensures
        -3 <= b.x <= GRID_WIDTH as int - 1,
        b.y <= GRID_HEIGHT as int - 1,
{
    let sx: int = match b.shape {
        Tetromino::L => 2,
        Tetromino::J => 0,
        _ => 1,
    };
    let sy: int = 1;
    assert(b.shape.shape_at(sx, sy));
    assert(!collision_at(b, g, sx, sy));
    assert(0 <= rot_x(b.rotation as int, sx, sy) <= 3);
    assert(0 <= rot_y(b.rotation as int, sx, sy) <= 3);
}


/// A kick that found a column found one where the turned piece does not
/// collide.
pub proof fn lemma_kick_result_sound(b: Block, g: Grid, adjust: int)
    ensures
        kick_result(b, g, adjust) matches Some(nx) ==> !spec_collides(Block { x: nx, ..b }, g),
    decreases 4 - adjust,
{
    if adjust < 4 && spec_collides(Block { x: (b.x + adjust) as i32, ..b }, g) && spec_collides(
        Block { x: (b.x - adjust) as i32, ..b },
        g,
    ) {
        lemma_kick_result_sound(b, g, adjust + 1);
    }
}


/// The same piece moved to row `yy`.
pub open spec fn at_row(b: Block, yy: i32) -> Block {
    Block { y: yy, ..b }
}

/// How one sideways or downward key press relates the state before it to
/// the state after it: the piece takes one step in the key's direction
/// where that step does not collide, and nothing else changes.
pub open spec fn key_move_rel(pre: GameState, post: GameState, d: Direction) -> bool {
    let tried = Block {
        x: (pre.current_block.x + dir_dx(d)) as i32,
        y: (pre.current_block.y + dir_dy(d)) as i32,
        ..pre.current_block
    };
    &&& (spec_collides(tried, pre.grid) ==> post == pre)
    &&& (!spec_collides(tried, pre.grid) ==> post == (GameState {
        current_block: tried,
        ..pre
    }))
}

/// How the turn key relates the state before it to the state after it:
/// the piece turns one quarter clockwise at the column the kick search
/// finds, or stays as it was where the search finds none.
pub open spec fn key_rotate_rel(pre: GameState, post: GameState) -> bool {
    let turned = Block {
        rotation: turned_rotation(pre.current_block.rotation as int, Direction::Right) as usize,
        ..pre.current_block
    };
    &&& (kick_result(turned, pre.grid, 0) matches Some(nx) ==> post == (GameState {
        current_block: Block { x: nx, ..turned },
        ..pre
    }))
    &&& (kick_result(turned, pre.grid, 0) is None ==> post == pre)
}

/// How the drop key relates the state before it to the state after it:
/// the piece falls straight down through free rows, stopping at the first
/// row under which it can fall no further, and nothing else changes.
pub open spec fn hard_drop_rel(pre: GameState, post: GameState) -> bool {
    let cur = pre.current_block;
    let fb = post.current_block;
    &&& post == (GameState { current_block: fb, ..pre })
    &&& fb.shape == cur.shape
    &&& fb.rotation == cur.rotation
    &&& fb.x == cur.x
    &&& fb.y >= cur.y
    &&& spec_collides(Block { y: (fb.y + 1) as i32, ..fb }, pre.grid)
    &&& forall|yy: i32|
        cur.y < yy <= fb.y ==> !#[trigger] spec_collides(at_row(cur, yy), pre.grid)
}

/// The whole game state: the field, the falling and the next piece, the
/// score, and the fall timing.
#[derive(Debug, Clone)]
pub struct GameState {
    /// The playing field.
    pub grid: Grid,
    /// The falling piece.
    pub current_block: Block,
    /// The shape that spawns next.
    pub next_block: Tetromino,
    /// One hundred points per cleared row.
    pub score: u32,
    /// Whether a spawned piece had no room: input is no longer accepted.
    pub game_over: bool,
    /// When the piece last fell one row, in milliseconds of the host's
    /// clock.
    pub last_drop_time: u64,
    /// How many milliseconds pass between falls.
    pub drop_interval: u64,
}

impl GameState {
    /// A well-formed game state: the grid has its fixed size, the piece's
    /// rotation and position are in range, and the drop interval never
    /// goes below its floor.
    pub open spec fn wf(self) -> bool {
        &&& self.grid.wf()
        &&& self.current_block.rotation < 4
        &&& -8 <= self.current_block.x <= 20
        &&& -8 <= self.current_block.y <= 27
        &&& 100 <= self.drop_interval
    }

    /// A fresh game: an empty field, a random piece at the spawn
    /// position, a random next shape, and the slowest fall speed.
    pub fn new(now_ms: u64) -> (st: GameState)
        ensures
            st.wf(),
            forall|x: int, y: int|
                0 <= x < GRID_WIDTH as int && 0 <= y < GRID_HEIGHT as int ==> st.grid.spec_cell(
                    x,
                    y,
                ) is None,
            st.current_block.x == GRID_WIDTH as int / 2 - 2,
            st.current_block.y == 0,
            st.current_block.rotation == 0,
            st.score == 0,
            !st.game_over,
            st.last_drop_time == now_ms,
            st.drop_interval == 1000,
    {
        GameState {
            grid: Grid::new(),
            current_block: Block {
                shape: Tetromino::random(),
                x: (GRID_WIDTH / 2 - 2) as i32,
                y: 0,
                rotation: 0,
            },
            next_block: Tetromino::random(),
            score: 0,
            game_over: false,
            last_drop_time: now_ms,
            drop_interval: 1000,
        }
    }

    /// Replaces the falling piece with the next shape at the spawn
    /// position and draws a new next shape.  Where the spawned piece has
    /// no room the game is over and `false` comes back.
    pub fn spawn_new_block(&mut self) -> (ok: bool)
        requires
            old(self).wf(),
        ensures
            final(self).wf(),
            final(self).current_block == (Block {
                shape: old(self).next_block,
                x: (GRID_WIDTH / 2 - 2) as i32,
                y: 0,
                rotation: 0,
            }),
            final(self).grid == old(self).grid,
            final(self).score == old(self).score,
            final(self).drop_interval == old(self).drop_interval,
            final(self).last_drop_time == old(self).last_drop_time,
            ok == !spec_collides(final(self).current_block, old(self).grid),
            final(self).game_over == (old(self).game_over || spec_collides(
                final(self).current_block,
                old(self).grid,
            )),
    {
        self.current_block = Block {
            shape: self.next_block,
            x: (GRID_WIDTH / 2 - 2) as i32,
            y: 0,
            rotation: 0,
        };
        self.next_block = Tetromino::random();
        if self.current_block.check_collision(&self.grid) {
            self.game_over = true;
            return false;
        }
        true
    }

    /// Paints the falling piece into the grid: every in-range cell it
    /// covers takes the piece's color.  The piece itself stays where it
    /// is; callers spawn the next piece after locking.
    pub fn lock_block(&mut self)
        requires
            old(self).wf(),
        ensures
            final(self).wf(),
            lock_rel(old(self).current_block, old(self).grid, final(self).grid),
            final(self).current_block == old(self).current_block,
            final(self).next_block == old(self).next_block,
            final(self).score == old(self).score,
            final(self).game_over == old(self).game_over,
            final(self).last_drop_time == old(self).last_drop_time,
            final(self).drop_interval == old(self).drop_interval,
    {
        let ghost g0 = self.grid;
        let b = self.current_block;
        let color = b.shape.color();
        let mut sy: usize = 0;
        while sy < 4
            invariant
                self.grid.wf(),
                self.current_block == old(self).current_block,
                self.next_block == old(self).next_block,
                self.score == old(self).score,
                self.game_over == old(self).game_over,
                self.last_drop_time == old(self).last_drop_time,
                self.drop_interval == old(self).drop_interval,
                old(self).wf(),
                b == old(self).current_block,
                g0 == old(self).grid,
                color == Color::spec_from(b.shape.color_of()),
                0 <= sy <= 4,
                forall|gx: int, gy: int|
                    0 <= gx < GRID_WIDTH as int && 0 <= gy < GRID_HEIGHT as int
                        ==> #[trigger] self.grid.spec_cell(gx, gy) == (if covered_before(
                        b,
                        gx,
                        gy,
                        sy as int,
                        0,
                    ) {
                        Some(Color::spec_from(b.shape.color_of()))
                    } else {
                        g0.spec_cell(gx, gy)
                    }),
            decreases 4 - sy,
        {
            let mut sx: usize = 0;
            while sx < 4
                invariant
                    self.grid.wf(),
                    self.current_block == old(self).current_block,
                    self.next_block == old(self).next_block,
                    self.score == old(self).score,
                    self.game_over == old(self).game_over,
                    self.last_drop_time == old(self).last_drop_time,
                    self.drop_interval == old(self).drop_interval,
                    old(self).wf(),
                    b == old(self).current_block,
                    g0 == old(self).grid,
                    color == Color::spec_from(b.shape.color_of()),
                    0 <= sy < 4,
                    0 <= sx <= 4,
                    forall|gx: int, gy: int|
                        0 <= gx < GRID_WIDTH as int && 0 <= gy < GRID_HEIGHT as int
                            ==> #[trigger] self.grid.spec_cell(gx, gy) == (if covered_before(
                            b,
                            gx,
                            gy,
                            sy as int,
                            sx as int,
                        ) {
                            Some(Color::spec_from(b.shape.color_of()))
                        } else {
                            g0.spec_cell(gx, gy)
                        }),
                decreases 4 - sx,
            {
                if b.shape.cell(sx, sy) {
                    let (rx, ry) = b.rotate_coords(sx, sy);
                    let gx: i32 = b.x + rx as i32;
                    let gy: i32 = b.y + ry as i32;
                    if gx >= 0 && gx < GRID_WIDTH as i32 && gy >= 0 && gy < GRID_HEIGHT as i32 {
                        self.grid.set(gx as usize, gy as usize, Some(color));
                        proof {
                            assert(covered_by(b, sx as int, sy as int, gx as int, gy as int));
                            lemma_covered_before_step(b, sy as int, sx as int);
                        }
                    } else {
                        proof {
                            lemma_covered_before_step(b, sy as int, sx as int);
                        }
                    }
                } else {
                    proof {
                        lemma_covered_before_step(b, sy as int, sx as int);
                    }
                }
                sx += 1;
            }
            proof {
                lemma_covered_before_row(b, sy as int);
            }
            sy += 1;
        }
        proof {
            assert forall|gx: int, gy: int| #[trigger]
                cell_covered(b, gx, gy) implies covered_before(b, gx, gy, 4, 0) by {
                let (sx, sy): (int, int) = choose|sx: int, sy: int|
                    0 <= sx < 4 && 0 <= sy < 4 && #[trigger] covered_by(b, sx, sy, gx, gy);
                assert(covered_by(b, sx, sy, gx, gy));
            }
            assert forall|gx: int, gy: int| #[trigger]
                covered_before(b, gx, gy, 4, 0) implies cell_covered(b, gx, gy) by {
                let (sx, sy): (int, int) = choose|sx: int, sy: int|
                    0 <= sx < 4 && 0 <= sy < 4 && (sy < 4 || (sy == 4 && sx < 0))
                        && #[trigger] covered_by(b, sx, sy, gx, gy);
                assert(covered_by(b, sx, sy, gx, gy));
            }
        }
    }

    /// Removes every full row: the rows that are not full stack at the
    /// bottom in their old order, emptied rows appear at the top, the
    /// score grows by one hundred points per cleared row, and clearing
    /// anything shortens the drop interval by 50 milliseconds down to its
    /// floor of 100.
    pub fn clear_lines(&mut self)
        requires
            old(self).wf(),
            old(self).score <= u32::MAX - 2000,
        ensures
            final(self).wf(),
            clear_rel(old(self).grid, final(self).grid),
            final(self).score == old(self).score + (GRID_HEIGHT as int - kept_rows(
                old(self).grid,
            ).len()) * 100,
            final(self).drop_interval == spec_speedup(
                old(self).drop_interval,
                GRID_HEIGHT as int - kept_rows(old(self).grid).len(),
            ),
            final(self).current_block == old(self).current_block,
            final(self).next_block == old(self).next_block,
            final(self).game_over == old(self).game_over,
            final(self).last_drop_time == old(self).last_drop_time,
    {
        let ghost g0 = self.grid;
        let mut new_grid = Grid::new();
        let mut lines_cleared: u32 = 0;
        let mut new_y: usize = GRID_HEIGHT - 1;
        let mut y: usize = GRID_HEIGHT;
        proof {
            lemma_kept_rows_from(g0, 0);
        }
        while y > 0
            invariant
                self == old(self),
                g0 == old(self).grid,
                old(self).wf(),
                new_grid.wf(),
                0 <= y <= GRID_HEIGHT,
                kept_rows_from(g0, y as int).len() <= GRID_HEIGHT as int - y,
                lines_cleared == GRID_HEIGHT as int - y - kept_rows_from(g0, y as int).len(),
                new_y as int == (if kept_rows_from(g0, y as int).len() < GRID_HEIGHT as int {
                    GRID_HEIGHT as int - 1 - kept_rows_from(g0, y as int).len()
                } else {
                    0
                }),
                forall|gx: int, gy: int|
                    0 <= gx < GRID_WIDTH as int && 0 <= gy < GRID_HEIGHT as int - kept_rows_from(
                        g0,
                        y as int,
                    ).len() ==> #[trigger] new_grid.spec_cell(gx, gy) is None,
                forall|gx: int, i: int|
                    0 <= gx < GRID_WIDTH as int && 0 <= i < kept_rows_from(g0, y as int).len()
                        ==> #[trigger] new_grid.spec_cell(
                        gx,
                        GRID_HEIGHT as int - kept_rows_from(g0, y as int).len() + i,
                    ) == g0.spec_cell(gx, kept_rows_from(g0, y as int)[i]),
            decreases y,
        {
            y -= 1;
            proof {
                lemma_kept_rows_from(g0, y as int);
                lemma_kept_rows_from(g0, y as int + 1);
            }
            if !self.grid.row_is_full(y) {
                let ghost k_next = kept_rows_from(g0, y as int + 1);
                let mut x: usize = 0;
                while x < GRID_WIDTH
                    invariant
                        self == old(self),
                        g0 == old(self).grid,
                        old(self).wf(),
                        new_grid.wf(),
                        0 <= y < GRID_HEIGHT,
                        !full_row(g0, y as int),
                        k_next == kept_rows_from(g0, y as int + 1),
                        k_next.len() < GRID_HEIGHT as int,
                        new_y as int == GRID_HEIGHT as int - 1 - k_next.len(),
                        0 <= x <= GRID_WIDTH,
                        forall|gx: int|
                            0 <= gx < x as int ==> #[trigger] new_grid.spec_cell(
                                gx,
                                new_y as int,
                            ) == g0.spec_cell(gx, y as int),
                        forall|gx: int, gy: int|
                            0 <= gx < GRID_WIDTH as int && 0 <= gy < GRID_HEIGHT as int
                                - k_next.len() && gy != new_y as int
                                ==> #[trigger] new_grid.spec_cell(gx, gy) is None,
                        forall|gx: int, i: int|
                            0 <= gx < GRID_WIDTH as int && 0 <= i < k_next.len()
                                ==> #[trigger] new_grid.spec_cell(
                                gx,
                                GRID_HEIGHT as int - k_next.len() + i,
                            ) == g0.spec_cell(gx, k_next[i]),
                    decreases GRID_WIDTH - x,
                {
                    let cell = self.grid.get(x, y);
                    new_grid.set(x, new_y, cell);
                    x += 1;
                }
                proof {
                    let k = kept_rows_from(g0, y as int);
                    assert(k == seq![y as int] + k_next);
                    assert forall|gx: int, i: int|
                        0 <= gx < GRID_WIDTH as int && 0 <= i < k.len() implies #[trigger]
                        new_grid.spec_cell(gx, GRID_HEIGHT as int - k.len() + i) == g0.spec_cell(
                        gx,
                        k[i],
                    ) by {
                        if i == 0 {
                            assert(new_grid.spec_cell(gx, new_y as int) == g0.spec_cell(
                                gx,
                                y as int,
                            ));
                            assert(GRID_HEIGHT as int - k.len() == new_y as int);
                            assert(k[0] == y as int);
                        } else {
                            assert(k[i] == k_next[i - 1]);
                            assert(new_grid.spec_cell(
                                gx,
                                GRID_HEIGHT as int - k_next.len() + (i - 1),
                            ) == g0.spec_cell(gx, k_next[i - 1]));
                            assert(GRID_HEIGHT as int - k.len() + i == GRID_HEIGHT as int
                                - k_next.len() + (i - 1));
                        }
                    }
                }
                new_y = if new_y > 0 {
                    new_y - 1
                } else {
                    0
                };
            } else {
                lines_cleared += 1;
                proof {
                    assert(kept_rows_from(g0, y as int) == kept_rows_from(g0, y as int + 1));
                }
            }
        }
        self.grid = new_grid;
        proof {
            lemma_kept_rows_from(g0, 0);
        }
        self.score = self.score + lines_cleared * 100;
        if lines_cleared > 0 {
            let reduced = self.drop_interval - 50;
            self.drop_interval = if reduced < 100 {
                100
            } else {
                reduced
            };
        }
    }

    /// One tick of game time at `now_ms` milliseconds: while the game is
    /// on and the drop interval has passed, the piece falls one row; a
    /// piece that can fall no further is locked in, full rows are
    /// cleared, and the next piece spawns.
    pub fn update(&mut self, now_ms: u64) -> (r: ())
        requires
            old(self).wf(),
            old(self).score <= u32::MAX - 2000,
            old(self).last_drop_time <= now_ms,
        ensures
            final(self).wf(),
            old(self).game_over ==> *final(self) == *old(self),
            !old(self).game_over && now_ms - old(self).last_drop_time <= old(self).drop_interval
                ==> *final(self) == *old(self),
            ({
                let cur = old(self).current_block;
                let down = Block { y: (cur.y + 1) as i32, ..cur };
                &&& (!old(self).game_over && now_ms - old(self).last_drop_time > old(
                    self,
                ).drop_interval && !spec_collides(down, old(self).grid) ==> *final(self)
                    == (GameState { current_block: down, last_drop_time: now_ms, ..*old(self) }))
                &&& (!old(self).game_over && now_ms - old(self).last_drop_time > old(
                    self,
                ).drop_interval && spec_collides(down, old(self).grid) ==> exists|mid: Grid|
                    {
                        &&& #[trigger] lock_rel(old(self).current_block, old(self).grid, mid)
                        &&& clear_rel(mid, final(self).grid)
                        &&& final(self).score == old(self).score + (GRID_HEIGHT as int
                            - kept_rows(mid).len()) * 100
                        &&& final(self).drop_interval == spec_speedup(
                            old(self).drop_interval,
                            GRID_HEIGHT as int - kept_rows(mid).len(),
                        )
                        &&& final(self).current_block == (Block {
                            shape: old(self).next_block,
                            x: (GRID_WIDTH / 2 - 2) as i32,
                            y: 0,
                            rotation: 0,
                        })
                        &&& final(self).game_over == spec_collides(
                            final(self).current_block,
                            final(self).grid,
                        )
                        &&& final(self).last_drop_time == now_ms
                    })
            }),
    {
        if self.game_over {
            return ;
        }
        if now_ms - self.last_drop_time > self.drop_interval {
            let moved = self.current_block.move_block(Direction::Down, &self.grid);
            if !moved {
                self.lock_block();
                let ghost mid = self.grid;
                self.clear_lines();
                self.spawn_new_block();
                self.last_drop_time = now_ms;
                proof {
                    assert(lock_rel(old(self).current_block, old(self).grid, mid));
                }
            } else {
                proof {
                    lemma_noncolliding_bounds(self.current_block, self.grid);
                }
                self.last_drop_time = now_ms;
            }
        }
    }

    /// Applies one key press, as the demo's per-frame callback does: the
    /// arrow keys move and turn the piece, space drops it to the bottom,
    /// and escape asks to quit.  Any other key changes nothing.  Keys act
    /// even after the game is over, as the host's loop does not gate
    /// them; a piece with no room simply refuses to move.
    pub fn apply_key(&mut self, key: KeyCode) -> (quit: bool)
        requires
            old(self).wf(),
        ensures
            final(self).wf(),
            quit == (key == KeyCode::Escape),
            key == KeyCode::Left ==> key_move_rel(*old(self), *final(self), Direction::Left),
            key == KeyCode::Right ==> key_move_rel(*old(self), *final(self), Direction::Right),
            key == KeyCode::Down ==> key_move_rel(*old(self), *final(self), Direction::Down),
            key == KeyCode::Up ==> key_rotate_rel(*old(self), *final(self)),
            key == KeyCode::Space ==> hard_drop_rel(*old(self), *final(self)),
            !(key == KeyCode::Left || key == KeyCode::Right || key == KeyCode::Down || key
                == KeyCode::Up || key == KeyCode::Space) ==> *final(self) == *old(self),
    {
        match key {
            KeyCode::Left => {
                let moved = self.current_block.move_block(Direction::Left, &self.grid);
                proof {
                    if moved {
                        lemma_noncolliding_bounds(self.current_block, self.grid);
                    }
                }
                false
            },
            KeyCode::Right => {
                let moved = self.current_block.move_block(Direction::Right, &self.grid);
                proof {
                    if moved {
                        lemma_noncolliding_bounds(self.current_block, self.grid);
                    }
                }
                false
            },
            KeyCode::Down => {
                let moved = self.current_block.move_block(Direction::Down, &self.grid);
                proof {
                    if moved {
                        lemma_noncolliding_bounds(self.current_block, self.grid);
                    }
                }
                false
            },
            KeyCode::Up => {
                self.current_block.rotate(Direction::Right, &self.grid);
                proof {
                    let turned = Block {
                        rotation: turned_rotation(
                            old(self).current_block.rotation as int,
                            Direction::Right,
                        ) as usize,
                        ..old(self).current_block
                    };
                    lemma_kick_result_sound(turned, self.grid, 0);
                    if kick_result(turned, self.grid, 0) is Some {
                        lemma_noncolliding_bounds(self.current_block, self.grid);
                    }
                }
                false
            },
            KeyCode::Space => {
                loop
                    invariant
                        old(self).wf(),
                        self.grid == old(self).grid,
                        self.next_block == old(self).next_block,
                        self.score == old(self).score,
                        self.game_over == old(self).game_over,
                        self.last_drop_time == old(self).last_drop_time,
                        self.drop_interval == old(self).drop_interval,
                        self.current_block.shape == old(self).current_block.shape,
                        self.current_block.rotation == old(self).current_block.rotation,
                        self.current_block.x == old(self).current_block.x,
                        self.current_block.y >= old(self).current_block.y,
                        self.current_block.y <= 27,
                        forall|yy: i32|
                            old(self).current_block.y < yy <= self.current_block.y
                                ==> !#[trigger] spec_collides(
                                at_row(old(self).current_block, yy),
                                self.grid,
                            ),
                    ensures
                        self.grid == old(self).grid,
                        self.next_block == old(self).next_block,
                        self.score == old(self).score,
                        self.game_over == old(self).game_over,
                        self.last_drop_time == old(self).last_drop_time,
                        self.drop_interval == old(self).drop_interval,
                        self.current_block.shape == old(self).current_block.shape,
                        self.current_block.rotation == old(self).current_block.rotation,
                        self.current_block.x == old(self).current_block.x,
                        self.current_block.y >= old(self).current_block.y,
                        self.current_block.y <= 27,
                        forall|yy: i32|
                            old(self).current_block.y < yy <= self.current_block.y
                                ==> !#[trigger] spec_collides(
                                at_row(old(self).current_block, yy),
                                self.grid,
                            ),
                        spec_collides(
                            Block {
                                y: (self.current_block.y + 1) as i32,
                                ..self.current_block
                            },
                            self.grid,
                        ),
                    decreases 28 - self.current_block.y,
                {
                    let moved = self.current_block.move_block(Direction::Down, &self.grid);
                    if !moved {
                        break ;
                    }
                    proof {
                        lemma_noncolliding_bounds(self.current_block, self.grid);
                    }
                }
                false
            },
            KeyCode::Escape => true,
            _ => false,
        }
    }
}

} // verus!
