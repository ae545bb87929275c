//! The controller: one level, one character, and the state machine that
//! turns key events into movement or termination, plus the pure frame
//! computation the terminal front end replays.

use vstd::prelude::*;
use crate::character::{can_move, moved, Character, Direction};
use crate::level::Level;
use crate::tile::{tile_glyph, Color};

verus! {

/// A key event as the controller sees it: the escape key, one of the four
/// arrow keys, or anything else.
#[derive(Clone, Copy, Debug, PartialEq, Eq, Structural)]
pub enum KeyEvent {
    Escape,
    ArrowUp,
    ArrowDown,
    ArrowLeft,
    ArrowRight,
    Other,
}

/// The controller's two states. `Running` is initial; `Terminated` is
/// reached only by the escape key and is final.
#[derive(Clone, Copy, Debug, PartialEq, Eq, Structural)]
pub enum State {
    Running,
    Terminated,
}

/// One cell of a rendered frame: a glyph and the color to style it with.
#[derive(Clone, Copy, Debug, PartialEq, Eq, Structural)]
pub struct Cell {
    pub glyph: char,
    pub color: Color,
}

/// The cell of a rendered frame at `(x, y)`, row-major with stride `width`.
pub open spec fn cell_in(cells: Seq<Cell>, width: int, x: int, y: int) -> Cell {
    cells[x + width * y]
}

/// What a frame shows at cell `(x, y)`: the character's glyph and color at
/// the character's own position — it is drawn over the terrain, never
/// occluded by it — and the tile's glyph in the terrain color everywhere
/// else.
pub open spec fn frame_cell(level: Level, player: Character, x: int, y: int) -> Cell {
    if x == player.x as int && y == player.y as int {
        Cell { glyph: player.symbol, color: player.color }
    } else {
        Cell { glyph: tile_glyph(level.tile_at(x, y)), color: Color::Blue }
    }
}

/// Where the character stands after a directional key inside a `width` by
/// `height` grid: one step in `dir` when that step stays inside the grid,
/// unchanged when the step is blocked at the boundary.
pub open spec fn stepped(c: Character, dir: Direction, width: int, height: int) -> Character {
    if can_move(c.x as int, c.y as int, dir, width, height) {
        Character {
            x: moved(c.x as int, c.y as int, dir).0 as usize,
            y: moved(c.x as int, c.y as int, dir).1 as usize,
            ..c
        }
    } else {
        c
    }
}

/// The direction an arrow key maps to; `None` for escape and for keys the
/// controller ignores.
pub open spec fn arrow_direction(ev: KeyEvent) -> Option<Direction> {
    match ev {
        KeyEvent::ArrowUp => Some(Direction::Up),
        KeyEvent::ArrowDown => Some(Direction::Down),
        KeyEvent::ArrowLeft => Some(Direction::Left),
        KeyEvent::ArrowRight => Some(Direction::Right),
        _ => None,
    }
}

/// Computes one frame: a row-major sequence of `width * height` cells,
/// each the level's tile glyph in the terrain color except at the
/// character's position, which shows the character.
pub fn render_frame(level: &Level, player: &Character) -> (cells: Vec<Cell>)
    requires
        level.wf(),
        player.x < level.width,
        player.y < level.height,
    ensures
        cells@.len() == level.width * level.height,
        forall|x: int, y: int|
            0 <= x < level.width && 0 <= y < level.height ==> #[trigger] cell_in(
                cells@,
                level.width as int,
                x,
                y,
            ) == frame_cell(*level, *player, x, y),
{
    let ghost w = level.width as int;
    let mut cells: Vec<Cell> = Vec::new();
    let mut y: usize = 0;
    while y < level.height
        invariant
            level.wf(),
            player.x < level.width,
            player.y < level.height,
            y <= level.height,
            cells@.len() == level.width * y,
            w == level.width as int,
            forall|xx: int, yy: int|
                0 <= xx < level.width && 0 <= yy < y ==> #[trigger] cell_in(cells@, w, xx, yy)
                    == frame_cell(*level, *player, xx, yy),
        decreases level.height - y,
    {
        let mut x: usize = 0;
        while x < level.width
            invariant
                level.wf(),
                player.x < level.width,
                player.y < level.height,
                y < level.height,
                x <= level.width,
                cells@.len() == level.width * y + x,
                w == level.width as int,
                forall|xx: int, yy: int|
                    0 <= xx < level.width && (yy < y || (yy == y && 0 <= xx < x)) && 0 <= yy
                        ==> #[trigger] cell_in(cells@, w, xx, yy) == frame_cell(
                        *level,
                        *player,
                        xx,
                        yy,
                    ),
            decreases level.width - x,
        {
            let c = if x == player.x && y == player.y {
                Cell { glyph: player.symbol, color: player.color }
            } else {
                let (glyph, color) = level.tile(x, y).draw();
                Cell { glyph, color }
            };
            let ghost before = cells@;
            cells.push(c);
            proof {
                assert forall|xx: int, yy: int|
                    0 <= xx < level.width && (yy < y || (yy == y && 0 <= xx < x + 1)) && 0
                        <= yy implies #[trigger] cell_in(cells@, w, xx, yy) == frame_cell(
                    *level,
                    *player,
                    xx,
                    yy,
                ) by {
                    if yy < y {
                        crate::level::lemma_index_in_bounds(xx, yy, w, y as int);
                        assert(cell_in(cells@, w, xx, yy) == cell_in(before, w, xx, yy));
                    } else if xx < x {
                        assert(cell_in(cells@, w, xx, yy) == cell_in(before, w, xx, yy));
                    } else {
                        assert(xx + w * yy == before.len());
                    }
                }
            }
            x = x + 1;
        }
        proof {
            assert(w * (y + 1) == w * y + w) by (nonlinear_arith);
        }
        y = y + 1;
    }
    cells
}

/// The whole interactive session's state: the level, the character, and
/// whether the session is still running.
pub struct Game {
    pub level: Level,
    pub player: Character,
    pub state: State,
}

impl Game {
    /// The level is well formed and the character stands inside it.
    pub open spec fn wf(self) -> bool {
        &&& self.level.wf()
        &&& self.player.x < self.level.width
        &&& self.player.y < self.level.height
    }

    /// Starts a session over `level` with `player` standing inside it; the
    /// initial state is `Running`.
    pub fn new(level: Level, player: Character) -> (r: Self)
        requires
            level.wf(),
            player.x < level.width,
            player.y < level.height,
        ensures
            r.wf(),
            r.level == level,
            r.player == player,
            r.state == State::Running,
    {
        Game { level, player, state: State::Running }
    }

    /// Interprets one key event. Escape always transitions to
    /// `Terminated`, whatever the character's state; an arrow key moves
    /// the character one cell in its direction unless the step would leave
    /// the level, in which case the character stays put; any other key
    /// changes nothing. The level itself is never touched.
    pub fn handle_event(&mut self, ev: KeyEvent)
        requires
            old(self).wf(),
        ensures
            final(self).wf(),
            final(self).level == old(self).level,
            ev == KeyEvent::Escape ==> final(self).state == State::Terminated
                && final(self).player == old(self).player,
            ev != KeyEvent::Escape ==> final(self).state == old(self).state,
            arrow_direction(ev) is Some ==> final(self).player == stepped(
                old(self).player,
                arrow_direction(ev)->0,
                old(self).level.width as int,
                old(self).level.height as int,
            ),
            ev == KeyEvent::Other ==> final(self).player == old(self).player,
    {
        let w = self.level.width;
        let h = self.level.height;
        match ev {
            KeyEvent::Escape => {
                self.state = State::Terminated;
            },
            KeyEvent::ArrowUp => {
                let _ = self.player.try_go(Direction::Up, w, h);
            },
            KeyEvent::ArrowDown => {
                let _ = self.player.try_go(Direction::Down, w, h);
            },
            KeyEvent::ArrowLeft => {
                let _ = self.player.try_go(Direction::Left, w, h);
            },
            KeyEvent::ArrowRight => {
                let _ = self.player.try_go(Direction::Right, w, h);
            },
            KeyEvent::Other => {},
        }
    }

    /// Whether the session is still running; the front end's loop
    /// condition.
    pub fn is_running(&self) -> (r: bool)
        ensures
            r == (self.state == State::Running),
    {
        match self.state {
            State::Running => true,
            State::Terminated => false,
        }
    }

    /// The current frame of this session.
    pub fn frame(&self) -> (cells: Vec<Cell>)
        requires
            self.wf(),
        ensures
            cells@.len() == self.level.width * self.level.height,
            forall|x: int, y: int|
                0 <= x < self.level.width && 0 <= y < self.level.height ==> #[trigger] cell_in(
                    cells@,
                    self.level.width as int,
                    x,
                    y,
                ) == frame_cell(self.level, self.player, x, y),
    {
        render_frame(&self.level, &self.player)
    }
}

} // verus!
