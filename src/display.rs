use vstd::prelude::*;

verus! {

/// Lines on the screen.
pub const HEIGHT: usize = 32;

/// Columns on the screen.
pub const WIDTH: usize = 64;

/// Number of cells on the screen.
pub const CELLS: usize = 2048;

/// Position in the grid of the cell at column `x` and line `y`.
pub open spec fn cell(x: int, y: int) -> int {
    y * WIDTH + x
}

/// Cell that bit `i` of a row drawn from column `x` on line `y` lands on,
/// wrapping around both edges.
pub open spec fn sprite_cell(x: int, y: int, i: int) -> int {
    cell((x + i) % WIDTH as int, y % HEIGHT as int)
}

/// Bit `i` of a sprite row, counting from the most significant bit, which
/// is the leftmost pixel.
pub open spec fn row_bit(row: u8, i: int) -> bool {
    (row >> ((7 - i) as u8)) & 1 == 1
}

/// Whether the first `m` bits of `row`, drawn from column `x` on line `y`,
/// flip cell `k`.
pub open spec fn row_flips(x: int, y: int, row: u8, m: int, k: int) -> bool {
    exists|i: int| 0 <= i < m && row_bit(row, i) && k == #[trigger] sprite_cell(x, y, i)
}

/// Grid `g` after the first `m` bits of `row` were XORed onto it from column
/// `x` on line `y`.
pub open spec fn draw_row(g: Seq<bool>, x: int, y: int, row: u8, m: int) -> Seq<bool> {
    Seq::new(g.len(), |k: int| g[k] != row_flips(x, y, row, m, k))
}

/// Whether one of the first `m` bits of `row` falls on a cell of `g` that is
/// on, and so turns it off.
pub open spec fn row_erases(g: Seq<bool>, x: int, y: int, row: u8, m: int) -> bool {
    exists|i: int| 0 <= i < m && row_bit(row, i) && g[#[trigger] sprite_cell(x, y, i)]
}

/// Grid `g` after the rows of `sprite` were XORed onto it, row `j` on line
/// `y + j` from column `x`.
pub open spec fn draw_sprite(g: Seq<bool>, x: int, y: int, sprite: Seq<u8>) -> Seq<bool>
    decreases sprite.len(),
{
    if sprite.len() == 0 {
        g
    } else {
        let j = sprite.len() - 1;
        draw_row(draw_sprite(g, x, y, sprite.take(j)), x, y + j, sprite[j], 8)
    }
}

/// Whether drawing `sprite` onto `g` turns some cell from on to off.
pub open spec fn sprite_erases(g: Seq<bool>, x: int, y: int, sprite: Seq<u8>) -> bool
    decreases sprite.len(),
{
    if sprite.len() == 0 {
        false
    } else {
        let j = sprite.len() - 1;
        sprite_erases(g, x, y, sprite.take(j)) || row_erases(
            draw_sprite(g, x, y, sprite.take(j)),
            x,
            y + j,
            sprite[j],
            8,
        )
    }
}

/// Stores whether each pixel of the screen is lit.
pub struct Display {
    pixels: [bool; 2048],
}

impl View for Display {
    type V = Seq<bool>;

    /// The pixel at column `x` and line `y` is entry `cell(x, y)`.
    closed spec fn view(&self) -> Seq<bool> {
        self.pixels@
    }
}

impl Default for Display {
    fn default() -> (r: Display)
        ensures
            r@.len() == CELLS,
            forall|k: int| 0 <= k < CELLS ==> !r@[k],
    {
        Display { pixels: [false; 2048] }
    }
}

proof fn lemma_cell_bounds(x: int, y: int)
    requires
        0 <= x < WIDTH,
        0 <= y < HEIGHT,
    ensures
        0 <= cell(x, y) < CELLS,
{
}

/// Bits of one row land on distinct cells.
proof fn lemma_row_cells_distinct(x: int, y: int, i1: int, i2: int)
    requires
        0 <= i1 < 8,
        0 <= i2 < 8,
        i1 != i2,
    ensures
        sprite_cell(x, y, i1) != sprite_cell(x, y, i2),
{
    let c1 = (x + i1) % WIDTH as int;
    let c2 = (x + i2) % WIDTH as int;
    assert(c1 != c2) by {
        vstd::arithmetic::div_mod::lemma_fundamental_div_mod(x + i1, WIDTH as int);
        vstd::arithmetic::div_mod::lemma_fundamental_div_mod(x + i2, WIDTH as int);
    }
}

impl Display {
    /// Every display has exactly `CELLS` cells.
    pub proof fn lemma_size(&self)
        ensures
            self@.len() == CELLS,
    {
    }

    /// Creates a display on which exactly the pixels listed in `active` are
    /// lit.
    pub fn new(active: &[(usize, usize)]) -> (r: Display)
        requires
            forall|p: int| 0 <= p < active@.len() ==> active@[p].0 < WIDTH && active@[p].1 < HEIGHT,
        ensures
            forall|x: int, y: int|
                0 <= x < WIDTH && 0 <= y < HEIGHT ==> (r@[cell(x, y)] <==> exists|p: int|
                    0 <= p < active@.len() && active@[p] == (x as usize, y as usize)),
    {
        let mut pixels = [false; 2048];
        let mut p: usize = 0;
        while p < active.len()
            invariant
                0 <= p <= active@.len(),
                forall|q: int| 0 <= q < active@.len() ==> active@[q].0 < WIDTH && active@[q].1 < HEIGHT,
                forall|x: int, y: int|
                    0 <= x < WIDTH && 0 <= y < HEIGHT ==> (pixels@[cell(x, y)] <==> exists|q: int|
                        0 <= q < p && active@[q] == (x as usize, y as usize)),
            decreases active@.len() - p,
        {
            let (x, y) = active[p];
            pixels[y * WIDTH + x] = true;
            assert forall|x1: int, y1: int| 0 <= x1 < WIDTH && 0 <= y1 < HEIGHT implies (pixels@[cell(x1, y1)] <==> exists|q: int|
                        0 <= q < p + 1 && active@[q] == (x1 as usize, y1 as usize)) by {
                if x1 == x && y1 == y {
                    assert(active@[p as int] == (x1 as usize, y1 as usize));
                } else {
                    assert(cell(x1, y1) != cell(x as int, y as int));
                    if exists|q: int| 0 <= q < p + 1 && active@[q] == (x1 as usize, y1 as usize) {
                        let q = choose|q: int| 0 <= q < p + 1 && active@[q] == (x1 as usize, y1 as usize);
                        assert(q != p);
                    }
                }
            }
            p += 1;
        }
        Display { pixels }
    }

    /// Turns every pixel off.
    pub fn clear(&mut self)
        ensures
            final(self)@.len() == CELLS,
            forall|k: int| 0 <= k < CELLS ==> !final(self)@[k],
    {
        self.pixels = [false; 2048];
    }

    /// Returns whether the pixel at column `x` and line `y` is lit.
    pub fn get_pixel(&self, x: usize, y: usize) -> (r: bool)
        requires
            x < WIDTH,
            y < HEIGHT,
        ensures
            r == self@[cell(x as int, y as int)],
    {
        self.pixels[y * WIDTH + x]
    }

    /// XORs the rows of `sprite` onto the screen, row `j` on line `y + j`
    /// from column `x`, the most significant bit leftmost, wrapping around
    /// both edges; returns whether some lit pixel was turned off.
    pub fn xor_sprite(&mut self, x: usize, y: usize, sprite: &[u8]) -> (erased: bool)
        ensures
            final(self)@ == draw_sprite(old(self)@, x as int, y as int, sprite@),
            erased == sprite_erases(old(self)@, x as int, y as int, sprite@),
    {
        let ghost g0 = self@;
        let mut erased = false;
        let mut j: usize = 0;
        while j < sprite.len()
            invariant
                0 <= j <= sprite@.len(),
                g0.len() == CELLS,
                self@ == draw_sprite(g0, x as int, y as int, sprite@.take(j as int)),
                erased == sprite_erases(g0, x as int, y as int, sprite@.take(j as int)),
            decreases sprite@.len() - j,
        {
            let row = sprite[j];
            let cy = (y % HEIGHT + j % HEIGHT) % HEIGHT;
            assert(cy == (y + j) % (HEIGHT as int)) by {
                vstd::arithmetic::div_mod::lemma_add_mod_noop(y as int, j as int, HEIGHT as int);
            }
            let ghost start = self@;
            let ghost yj = y + j;
            let mut row_erased = false;
            let mut i: usize = 0;
            while i < 8
                invariant
                    0 <= i <= 8,
                    start.len() == CELLS,
                    cy == yj % (HEIGHT as int),
                    0 <= cy < HEIGHT,
                    self@ == draw_row(start, x as int, yj, row, i as int),
                    row_erased == row_erases(start, x as int, yj, row, i as int),
                decreases 8 - i,
            {
                let cx = (x % WIDTH + i) % WIDTH;
                assert(cx == (x + i) % (WIDTH as int)) by {
                    vstd::arithmetic::div_mod::lemma_add_mod_noop(x as int, i as int, WIDTH as int);
                }
                let bit = (row >> ((7 - i) as u8)) & 1 == 1;
                let index = cy * WIDTH + cx;
                assert(index == sprite_cell(x as int, yj, i as int));
                proof {
                    lemma_cell_bounds(cx as int, cy as int);
                    assert forall|i2: int| 0 <= i2 < i implies sprite_cell(x as int, yj, i2) != index by {
                        lemma_row_cells_distinct(x as int, yj, i2, i as int);
                    }
                    assert(!row_flips(x as int, yj, row, i as int, index as int));
                }
                let before = self.pixels[index];
                assert(before == start[index as int]);
                self.pixels[index] = before != bit;
                if before && bit {
                    row_erased = true;
                }
                proof {
                    let next = draw_row(start, x as int, yj, row, i + 1);
                    assert forall|k: int| 0 <= k < CELLS implies #[trigger] self@[k] == next[k] by {
                        if k != index {
                            if row_flips(x as int, yj, row, i + 1, k) {
                                let i2 = choose|i2: int| 0 <= i2 < i + 1 && row_bit(row, i2) && k == #[trigger] sprite_cell(x as int, yj, i2);
                                assert(i2 != i);
                            }
                        } else {
                            assert(row_bit(row, i as int) == bit);
                        }
                    }
                    assert(self@ =~= next);
                    if row_erased {
                        if !(before && bit) {
                            let i2 = choose|i2: int| 0 <= i2 < i && row_bit(row, i2) && start[#[trigger] sprite_cell(x as int, yj, i2)];
                            assert(0 <= i2 < i + 1 && row_bit(row, i2) && start[sprite_cell(x as int, yj, i2)]);
                        }
                    } else {
                        assert(!(row_bit(row, i as int) && start[sprite_cell(x as int, yj, i as int)]));
                    }
                }
                i += 1;
            }
            erased = erased || row_erased;
            proof {
                assert(sprite@.take(j + 1).take(j as int) =~= sprite@.take(j as int));
                assert(sprite@.take(j + 1)[j as int] == row);
            }
            j += 1;
        }
        assert(sprite@.take(sprite@.len() as int) =~= sprite@);
        erased
    }
}

/// Whether an odd number of the bits of `sprite` land on cell `k`: the
/// cells that drawing `sprite` flips.
pub open spec fn flip_parity(x: int, y: int, sprite: Seq<u8>, k: int) -> bool
    decreases sprite.len(),
{
    if sprite.len() == 0 {
        false
    } else {
        let j = sprite.len() - 1;
        flip_parity(x, y, sprite.take(j), k) != row_flips(x, y + j, sprite[j], 8, k)
    }
}

/// Drawing a sprite flips exactly the cells of odd parity.
proof fn lemma_draw_is_xor(g: Seq<bool>, x: int, y: int, sprite: Seq<u8>)
    ensures
        draw_sprite(g, x, y, sprite) == Seq::new(
            g.len(),
            |k: int| g[k] != flip_parity(x, y, sprite, k),
        ),
    decreases sprite.len(),
{
    if sprite.len() == 0 {
        assert(draw_sprite(g, x, y, sprite) =~= Seq::new(
            g.len(),
            |k: int| g[k] != flip_parity(x, y, sprite, k),
        ));
    } else {
        let j = sprite.len() - 1;
        lemma_draw_is_xor(g, x, y, sprite.take(j));
        assert(draw_sprite(g, x, y, sprite) =~= Seq::new(
            g.len(),
            |k: int| g[k] != flip_parity(x, y, sprite, k),
        ));
    }
}

/// Drawing the same sprite twice at the same place gives back the grid
/// it started from.
pub proof fn lemma_draw_twice_restores(g: Seq<bool>, x: int, y: int, sprite: Seq<u8>)
    ensures
        draw_sprite(draw_sprite(g, x, y, sprite), x, y, sprite) == g,
{
    let h = draw_sprite(g, x, y, sprite);
    lemma_draw_is_xor(g, x, y, sprite);
    lemma_draw_is_xor(h, x, y, sprite);
    assert(draw_sprite(h, x, y, sprite) =~= g);
}

/// While the first `t` rows of a draw onto `h` report no collision, cell
/// `c` has either not been hit yet, or been hit once while it was off.
proof fn lemma_no_collision_hits(h: Seq<bool>, x: int, y: int, sprite: Seq<u8>, c: int, t: int)
    requires
        h.len() == CELLS,
        0 <= c < CELLS,
        0 <= t <= sprite.len(),
        !sprite_erases(h, x, y, sprite.take(t)),
    ensures
        ((forall|p: int| 0 <= p < t ==> !#[trigger] row_flips(x, y + p, sprite[p], 8, c))
            && !flip_parity(x, y, sprite.take(t), c)) || (flip_parity(x, y, sprite.take(t), c)
            && !h[c]),
    decreases t,
{
    if t > 0 {
        let p = t - 1;
        assert(sprite.take(t).take(p) =~= sprite.take(p));
        lemma_no_collision_hits(h, x, y, sprite, c, p);
        lemma_draw_is_xor(h, x, y, sprite.take(p));
        if row_flips(x, y + p, sprite[p], 8, c) {
            let i = choose|i: int|
                0 <= i < 8 && row_bit(sprite[p], i) && c == #[trigger] sprite_cell(x, y + p, i);
            assert(!draw_sprite(h, x, y, sprite.take(p))[c]);
        }
    }
}

/// Drawing the same sprite a second time at the same place reports a
/// collision, provided some set bit of the sprite fell on a pixel that was
/// off before the first draw.
pub proof fn lemma_draw_twice_collides(g: Seq<bool>, x: int, y: int, sprite: Seq<u8>)
    requires
        g.len() == CELLS,
        exists|j: int, i: int|
            0 <= j < sprite.len() && 0 <= i < 8 && row_bit(sprite[j], i) && !g[sprite_cell(
                x,
                y + j,
                i,
            )],
    ensures
        sprite_erases(draw_sprite(g, x, y, sprite), x, y, sprite),
{
    let (j, i) = choose|j: int, i: int|
        0 <= j < sprite.len() && 0 <= i < 8 && row_bit(sprite[j], i) && !g[sprite_cell(
            x,
            y + j,
            i,
        )];
    let c = sprite_cell(x, y + j, i);
    vstd::arithmetic::div_mod::lemma_mod_bound(x + i, WIDTH as int);
    vstd::arithmetic::div_mod::lemma_mod_bound(y + j, HEIGHT as int);
    let h = draw_sprite(g, x, y, sprite);
    lemma_draw_is_xor(g, x, y, sprite);
    assert(sprite.take(sprite.len() as int) =~= sprite);
    if !sprite_erases(h, x, y, sprite) {
        lemma_no_collision_hits(h, x, y, sprite, c, sprite.len() as int);
        assert(row_flips(x, y + j, sprite[j], 8, c));
    }
}

} // verus!
