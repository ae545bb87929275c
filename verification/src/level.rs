//! The level: a flat, row-major grid of tiles, mutated only by room carving.

use vstd::prelude::*;
use crate::room::Room;
use crate::tile::Tile;

verus! {

/// The tile a carve writes at an in-room cell: `Wall` on the room's
/// perimeter, `Floor` strictly inside it.
pub open spec fn room_tile(room: Room, x: int, y: int) -> Tile {
    if room.on_perimeter(x, y) {
        Tile::Wall
    } else {
        Tile::Floor
    }
}

/// The tile of a flat row-major grid at cell `(x, y)`, with row stride
/// `width`: the element at linear index `x + width * y`.
pub open spec fn tile_in(grid: Seq<Tile>, width: int, x: int, y: int) -> Tile {
    grid[x + width * y]
}

/// `new_grid` is `old_grid` with `room` carved into it: in-room cells are
/// classified by `room_tile` (perimeter `Wall`, interior `Floor`) and every
/// cell outside the room is unchanged.
pub open spec fn carved(
    old_grid: Seq<Tile>,
    new_grid: Seq<Tile>,
    width: int,
    height: int,
    room: Room,
) -> bool {
    &&& new_grid.len() == old_grid.len()
    &&& forall|x: int, y: int|
        0 <= x < width && 0 <= y < height ==> #[trigger] tile_in(new_grid, width, x, y) == (
        if room.contains(x, y) {
            room_tile(room, x, y)
        } else {
            tile_in(old_grid, width, x, y)
        })
}

/// Row-major linear indices stay inside the grid: a cell of a `width` by
/// `height` grid has its index in `[0, width * height)`.
pub proof fn lemma_index_in_bounds(x: int, y: int, width: int, height: int)
    requires
        0 <= x < width,
        0 <= y < height,
    ensures
        0 <= x + width * y < width * height,
{
    assert(0 <= x + width * y < width * height) by (nonlinear_arith)
        requires
            0 <= x < width,
            0 <= y < height,
    ;
}

/// Row-major linear indexing is injective over the cells of one grid: two
/// cells with the same index are the same cell.
pub proof fn lemma_index_injective(x1: int, y1: int, x2: int, y2: int, width: int)
    requires
        0 <= x1 < width,
        0 <= x2 < width,
        0 <= y1,
        0 <= y2,
        x1 + width * y1 == x2 + width * y2,
    ensures
        x1 == x2,
        y1 == y2,
{
    assert(y1 == y2) by (nonlinear_arith)
        requires
            0 <= x1 < width,
            0 <= x2 < width,
            0 <= y1,
            0 <= y2,
            x1 + width * y1 == x2 + width * y2,
    ;
}

/// A `width * height` grid with every cell `Empty`: what a freshly
/// constructed level holds before any carve.
pub open spec fn empty_grid(width: int, height: int) -> Seq<Tile> {
    Seq::new((width * height) as nat, |i: int| Tile::Empty)
}

/// `gn` is `g0` with the rooms of `rooms` carved into it in order: the
/// identity for no rooms, and otherwise one carve of the first room
/// followed by the rest.
pub open spec fn carved_all(
    g0: Seq<Tile>,
    gn: Seq<Tile>,
    width: int,
    height: int,
    rooms: Seq<Room>,
) -> bool
    decreases rooms.len(),
{
    if rooms.len() == 0 {
        gn == g0
    } else {
        exists|g1: Seq<Tile>|
            carved(g0, g1, width, height, rooms[0]) && carved_all(
                g1,
                gn,
                width,
                height,
                rooms.skip(1),
            )
    }
}

/// Carving one more room extends a carve sequence: a grid reached by the
/// rooms of `rooms` and then one carve of `room` is reached by
/// `rooms.push(room)`.
pub proof fn lemma_carved_all_push(
    g0: Seq<Tile>,
    g1: Seq<Tile>,
    g2: Seq<Tile>,
    width: int,
    height: int,
    rooms: Seq<Room>,
    room: Room,
)
    requires
        carved_all(g0, g1, width, height, rooms),
        carved(g1, g2, width, height, room),
    ensures
        carved_all(g0, g2, width, height, rooms.push(room)),
    decreases rooms.len(),
{
    let ext = rooms.push(room);
    if rooms.len() == 0 {
        assert(g1 == g0);
        assert(ext[0] == room);
        assert(ext.skip(1) =~= Seq::<Room>::empty());
        assert(carved_all(g2, g2, width, height, ext.skip(1)));
        assert(carved(g0, g2, width, height, ext[0]));
    } else {
        let gm = choose|gm: Seq<Tile>|
            carved(g0, gm, width, height, rooms[0]) && carved_all(
                gm,
                g1,
                width,
                height,
                rooms.skip(1),
            );
        lemma_carved_all_push(gm, g1, g2, width, height, rooms.skip(1), room);
        assert(ext.skip(1) =~= rooms.skip(1).push(room));
        assert(ext[0] == rooms[0]);
        assert(carved(g0, gm, width, height, ext[0]) && carved_all(
            gm,
            g2,
            width,
            height,
            ext.skip(1),
        ));
    }
}

/// A rectangular tile grid of fixed dimensions, indexed row-major by
/// `x + width * y`.
pub struct Level {
    pub grid: Vec<Tile>,
    pub width: usize,
    pub height: usize,
}

impl Level {
    /// The grid always holds exactly `width * height` tiles, and the
    /// dimensions are positive.
    pub open spec fn wf(self) -> bool {
        &&& self.grid@.len() == self.width * self.height
        &&& self.width > 0
        &&& self.height > 0
    }

    /// The tile at cell `(x, y)`.
    pub open spec fn tile_at(self, x: int, y: int) -> Tile {
        tile_in(self.grid@, self.width as int, x, y)
    }

    /// Allocates a `w` by `h` grid with every cell initialized to
    /// `Tile::Empty`.
    pub fn new(w: usize, h: usize) -> (r: Self)
        requires
            w > 0,
            h > 0,
            w * h <= usize::MAX,
        ensures
            r.wf(),
            r.width == w,
            r.height == h,
            forall|x: int, y: int|
                0 <= x < w && 0 <= y < h ==> #[trigger] r.tile_at(x, y) == Tile::Empty,
            forall|i: int| 0 <= i < r.grid@.len() ==> r.grid@[i] == Tile::Empty,
    {
        let n: usize = w * h;
        let mut grid: Vec<Tile> = Vec::new();
        let mut i: usize = 0;
        while i < n
            invariant
                i <= n,
                grid@.len() == i,
                forall|j: int| 0 <= j < i ==> grid@[j] == Tile::Empty,
            decreases n - i,
        {
            grid.push(Tile::Empty);
            i = i + 1;
        }
        let r = Level { grid, width: w, height: h };
        proof {
            assert forall|x: int, y: int| 0 <= x < w && 0 <= y < h implies #[trigger] r.tile_at(
                x,
                y,
            ) == Tile::Empty by {
                lemma_index_in_bounds(x, y, w as int, h as int);
            }
        }
        r
    }

    /// Builds a level from a data-driven description: a fresh `w` by `h`
    /// grid with the rooms carved into it in order. Level construction is
    /// a pure fold of carves over the room sequence.
    pub fn with_rooms(w: usize, h: usize, rooms: &Vec<Room>) -> (r: Self)
        requires
            w > 0,
            h > 0,
            w * h <= usize::MAX,
            forall|i: int|
                0 <= i < rooms@.len() ==> (#[trigger] rooms@[i]).wf() && rooms@[i].fits(
                    w as int,
                    h as int,
                ),
        ensures
            r.wf(),
            r.width == w,
            r.height == h,
            carved_all(empty_grid(w as int, h as int), r.grid@, w as int, h as int, rooms@),
    {
        let mut level = Level::new(w, h);
        proof {
            assert(level.grid@ =~= empty_grid(w as int, h as int));
        }
        let ghost g0 = level.grid@;
        let n = rooms.len();
        let mut i: usize = 0;
        proof {
            assert(rooms@.take(0) =~= Seq::<Room>::empty());
        }
        while i < n
            invariant
                level.wf(),
                level.width == w,
                level.height == h,
                i <= n,
                n == rooms@.len(),
                forall|j: int|
                    0 <= j < rooms@.len() ==> (#[trigger] rooms@[j]).wf() && rooms@[j].fits(
                        w as int,
                        h as int,
                    ),
                carved_all(g0, level.grid@, w as int, h as int, rooms@.take(i as int)),
            decreases n - i,
        {
            let ghost gprev = level.grid@;
            let room = rooms[i];
            level.add_room_to_map(room);
            proof {
                lemma_carved_all_push(
                    g0,
                    gprev,
                    level.grid@,
                    w as int,
                    h as int,
                    rooms@.take(i as int),
                    rooms@[i as int],
                );
                assert(rooms@.take(i as int).push(rooms@[i as int]) =~= rooms@.take(i as int + 1));
            }
            i = i + 1;
        }
        proof {
            assert(rooms@.take(n as int) =~= rooms@);
        }
        level
    }

    /// The linear index of cell `(x, y)`: the single bounds-validated path
    /// from coordinates to grid positions.
    pub fn index_of(&self, x: usize, y: usize) -> (r: usize)
        requires
            self.wf(),
            x < self.width,
            y < self.height,
        ensures
            r == x + self.width * y,
            r < self.grid@.len(),
    {
        let n = self.grid.len();
        proof {
            lemma_index_in_bounds(x as int, y as int, self.width as int, self.height as int);
            assert(x + self.width * y < n);
        }
        x + self.width * y
    }

    /// The tile at cell `(x, y)`, which must be in bounds.
    pub fn tile(&self, x: usize, y: usize) -> (r: Tile)
        requires
            self.wf(),
            x < self.width,
            y < self.height,
        ensures
            r == self.tile_at(x as int, y as int),
    {
        let i = self.index_of(x, y);
        self.grid[i]
    }

    /// The tile at cell `(x, y)`, or `None` when the cell lies outside the
    /// grid: a read that no coordinates can drive out of range.
    pub fn get_tile(&self, x: usize, y: usize) -> (r: Option<Tile>)
        requires
            self.wf(),
        ensures
            r is Some <==> x < self.width && y < self.height,
            r is Some ==> r->0 == self.tile_at(x as int, y as int),
    {
        if x < self.width && y < self.height {
            Some(self.tile(x, y))
        } else {
            None
        }
    }

    /// Carves `room` into the grid: every in-room cell on the room's
    /// perimeter becomes `Wall`, every strictly-interior cell becomes
    /// `Floor`, and every cell outside the room keeps its tile. The room
    /// must lie fully inside the grid.
    pub fn add_room_to_map(&mut self, room: Room)
        requires
            old(self).wf(),
            room.wf(),
            room.fits(old(self).width as int, old(self).height as int),
        ensures
            final(self).wf(),
            final(self).width == old(self).width,
            final(self).height == old(self).height,
            carved(
                old(self).grid@,
                final(self).grid@,
                old(self).width as int,
                old(self).height as int,
                room,
            ),
    {
        let ghost g0 = self.grid@;
        let ghost w = self.width as int;
        let ghost h = self.height as int;
        let room_right: usize = room.x + room.w;
        let room_bottom: usize = room.y + room.h;
        let mut y: usize = room.y;
        while y < room_bottom
            invariant
                self.wf(),
                self.width == old(self).width,
                self.height == old(self).height,
                w == self.width as int,
                h == self.height as int,
                room.wf(),
                room.fits(w, h),
                room_right == room.x + room.w,
                room_bottom == room.y + room.h,
                room.y <= y <= room_bottom,
                self.grid@.len() == g0.len(),
                forall|xx: int, yy: int|
                    0 <= xx < w && 0 <= yy < h ==> #[trigger] tile_in(self.grid@, w, xx, yy) == (
                    if room.contains(xx, yy) && yy < y {
                        room_tile(room, xx, yy)
                    } else {
                        tile_in(g0, w, xx, yy)
                    }),
            decreases room_bottom - y,
        {
            let mut x: usize = room.x;
            while x < room_right
                invariant
                    self.wf(),
                    self.width == old(self).width,
                    self.height == old(self).height,
                    w == self.width as int,
                    h == self.height as int,
                    room.wf(),
                    room.fits(w, h),
                    room_right == room.x + room.w,
                    room_bottom == room.y + room.h,
                    room.y <= y < room_bottom,
                    room.x <= x <= room_right,
                    self.grid@.len() == g0.len(),
                    forall|xx: int, yy: int|
                        0 <= xx < w && 0 <= yy < h ==> #[trigger] tile_in(self.grid@, w, xx, yy)
                            == (if room.contains(xx, yy) && (yy < y || (yy == y && xx < x)) {
                            room_tile(room, xx, yy)
                        } else {
                            tile_in(g0, w, xx, yy)
                        }),
                decreases room_right - x,
            {
                let t = if x == room.x || y == room.y {
                    Tile::Wall
                } else if x == room_right - 1 || y == room_bottom - 1 {
                    Tile::Wall
                } else {
                    Tile::Floor
                };
                proof {
                    lemma_index_in_bounds(x as int, y as int, w, h);
                    assert(t == room_tile(room, x as int, y as int));
                }
                let ghost before = self.grid@;
                let i = self.index_of(x, y);
                self.grid[i] = t;
                proof {
                    assert forall|xx: int, yy: int|
                        0 <= xx < w && 0 <= yy < h implies #[trigger] tile_in(self.grid@, w, xx, yy)
                        == (if room.contains(xx, yy) && (yy < y || (yy == y && xx < x + 1)) {
                        room_tile(room, xx, yy)
                    } else {
                        tile_in(g0, w, xx, yy)
                    }) by {
                        lemma_index_in_bounds(xx, yy, w, h);
                        if xx + w * yy == i {
                            lemma_index_injective(xx, yy, x as int, y as int, w);
                        } else {
                            assert(tile_in(self.grid@, w, xx, yy) == tile_in(before, w, xx, yy));
                        }
                    }
                }
                x = x + 1;
            }
            y = y + 1;
        }
    }

    /// Carves `room` only when it is non-degenerate and lies fully inside
    /// the grid; otherwise refuses, leaves the grid untouched, and reports
    /// the rejection. This is the fail-fast entry: no room, however sized,
    /// can make it write out of range.
    pub fn try_add_room_to_map(&mut self, room: Room) -> (r: bool)
        requires
            old(self).wf(),
        ensures
            final(self).wf(),
            final(self).width == old(self).width,
            final(self).height == old(self).height,
            r == (room.wf() && room.fits(old(self).width as int, old(self).height as int)),
            r ==> carved(
                old(self).grid@,
                final(self).grid@,
                old(self).width as int,
                old(self).height as int,
                room,
            ),
            !r ==> *final(self) == *old(self),
    {
        let fits = room.w > 0 && room.h > 0 && room.x <= self.width && room.w <= self.width - room.x
            && room.y <= self.height && room.h <= self.height - room.y;
        if fits {
            self.add_room_to_map(room);
            true
        } else {
            false
        }
    }
}

/// Carving classifies every cell of the grid: after a carve, a perimeter
/// cell of the room holds `Wall`, a strictly-interior cell holds `Floor`,
/// and a cell outside the room holds exactly what it held before.
pub proof fn lemma_carve_classifies(
    g0: Seq<Tile>,
    g1: Seq<Tile>,
    width: int,
    height: int,
    room: Room,
    x: int,
    y: int,
)
    requires
        carved(g0, g1, width, height, room),
        0 <= x < width,
        0 <= y < height,
    ensures
        room.on_perimeter(x, y) ==> tile_in(g1, width, x, y) == Tile::Wall,
        room.contains(x, y) && !room.on_perimeter(x, y) ==> tile_in(g1, width, x, y) == Tile::Floor,
        !room.contains(x, y) ==> tile_in(g1, width, x, y) == tile_in(g0, width, x, y),
{
}

/// A degenerate room — width at most 2 or height at most 2 — carves an
/// all-`Wall` rectangle: every one of its cells lies on some perimeter, so
/// none is left as floor.
pub proof fn lemma_thin_room_all_wall(
    g0: Seq<Tile>,
    g1: Seq<Tile>,
    width: int,
    height: int,
    room: Room,
    x: int,
    y: int,
)
    requires
        carved(g0, g1, width, height, room),
        room.w <= 2 || room.h <= 2,
        0 <= x < width,
        0 <= y < height,
        room.contains(x, y),
    ensures
        room.on_perimeter(x, y),
        tile_in(g1, width, x, y) == Tile::Wall,
{
    assert(tile_in(g1, width, x, y) == room_tile(room, x, y));
}

/// Carving is last-write-wins: after two carves in sequence, a cell inside
/// the second room holds the second room's classification, whatever the
/// first carve wrote there.
pub proof fn lemma_overlapping_carves_last_write_wins(
    g0: Seq<Tile>,
    g1: Seq<Tile>,
    g2: Seq<Tile>,
    width: int,
    height: int,
    first: Room,
    second: Room,
    x: int,
    y: int,
)
    requires
        carved(g0, g1, width, height, first),
        carved(g1, g2, width, height, second),
        0 <= x < width,
        0 <= y < height,
        second.contains(x, y),
    ensures
        tile_in(g2, width, x, y) == room_tile(second, x, y),
{
}

} // verus!
