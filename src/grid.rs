use vstd::prelude::*;

use crate::identity::{Identity, Registry};
use crate::text::{decimal, join_lines, lines_text, push_char, push_decimal, push_string, row_text};

verus! {

/// Why a grid could not be set up.
#[derive(Clone, Copy, Debug, PartialEq, Eq, Structural)]
pub enum GridError {
    /// The size is zero, or otherwise unusable for the requested grid.
    InvalidDimension,
    /// The randomness source could not supply key material.
    RandomnessUnavailable,
}

/// One cell of the grid as both sides see it.
#[derive(Clone, Copy, Debug, PartialEq, Eq, Structural)]
pub struct Tile {
    pub owner: Identity,
    pub resources: u16,
}

/// A tile that nobody owns and that holds nothing.
pub open spec fn blank_tile() -> Tile {
    Tile { owner: Identity::Unowned, resources: 0 }
}

/// The tile at `(r, c)` of a fresh `size` by `size` grid: the top-left corner
/// goes to the first player, the top-right to the second and the bottom-right
/// to the third, each with `res`; where corners coincide the later of these
/// three assignments wins. Every other tile is blank.
pub open spec fn layout_tile(size: nat, res: u16, r: int, c: int) -> Tile {
    if r == size - 1 && c == size - 1 {
        Tile { owner: Identity::PlayerC, resources: res }
    } else if r == 0 && c == size - 1 {
        Tile { owner: Identity::PlayerB, resources: res }
    } else if r == 0 && c == 0 {
        Tile { owner: Identity::PlayerA, resources: res }
    } else {
        blank_tile()
    }
}

/// `rows` is a `size` by `size` matrix.
pub open spec fn is_square<T>(rows: Seq<Seq<T>>, size: nat) -> bool {
    &&& rows.len() == size
    &&& forall|r: int| 0 <= r < size ==> (#[trigger] rows[r]).len() == size
}

/// `rows` is the fresh layout of a `size` by `size` grid with `res` on each
/// owned corner.
pub open spec fn is_initialized(rows: Seq<Seq<Tile>>, size: nat, res: u16) -> bool {
    &&& is_square(rows, size)
    &&& forall|r: int, c: int|
        0 <= r < size && 0 <= c < size ==> #[trigger] rows[r][c] == layout_tile(size, res, r, c)
}

/// The contents of a matrix held as nested vectors.
pub open spec fn matrix_view<T>(rows: Seq<Vec<T>>) -> Seq<Seq<T>> {
    rows.map_values(|row: Vec<T>| row@)
}

/// A square grid of tiles, row-major, together with the symbols its owners are
/// displayed with. Its size is fixed when it is made.
pub struct Grid {
    rows: Vec<Vec<Tile>>,
    registry: Registry,
}

impl View for Grid {
    type V = Seq<Seq<Tile>>;

    closed spec fn view(&self) -> Seq<Seq<Tile>> {
        matrix_view(self.rows@)
    }
}

impl Grid {
    /// The registry whose symbols this grid is displayed with.
    pub closed spec fn spec_registry(&self) -> Registry {
        self.registry
    }

    /// The number of rows.
    pub fn size(&self) -> (n: usize)
        ensures
            n == self@.len(),
    {
        self.rows.len()
    }

    /// The tile in row `r`, column `c`.
    pub fn tile(&self, r: usize, c: usize) -> (t: Tile)
        requires
            r < self@.len(),
            c < self@[r as int].len(),
        ensures
            t == self@[r as int][c as int],
    {
        self.rows[r][c]
    }

    /// The registry whose symbols this grid is displayed with.
    pub fn registry(&self) -> (reg: Registry)
        ensures
            reg == self.spec_registry(),
    {
        self.registry
    }
}

/// Builds a fresh `size` by `size` grid: every tile blank, then the top-left,
/// top-right and bottom-right corners assigned in that order to the three
/// players with `starting_resources` each.
///
/// Fails with `InvalidDimension` exactly when `size` is zero.
pub fn init_grid(size: usize, starting_resources: u16, registry: Registry) -> (r: Result<
    Grid,
    GridError,
>)
    ensures
        match r {
            Ok(g) => {
                &&& size > 0
                &&& is_initialized(g@, size as nat, starting_resources)
                &&& g.spec_registry() == registry
            },
            Err(e) => size == 0 && e == GridError::InvalidDimension,
        },
{
    if size == 0 {
        return Err(GridError::InvalidDimension);
    }
    let mut rows: Vec<Vec<Tile>> = Vec::new();
    while rows.len() < size
        invariant
            rows@.len() <= size,
            forall|i: int| 0 <= i < rows@.len() ==> (#[trigger] rows@[i])@ == Seq::new(size as nat, |j: int| blank_tile()),
        decreases size - rows@.len(),
    {
        let mut row: Vec<Tile> = Vec::new();
        while row.len() < size
            invariant
                row@.len() <= size,
                forall|j: int| 0 <= j < row@.len() ==> #[trigger] row@[j] == blank_tile(),
            decreases size - row@.len(),
        {
            row.push(Tile { owner: Identity::Unowned, resources: 0 });
        }
        assert(row@ =~= Seq::new(size as nat, |j: int| blank_tile()));
        rows.push(row);
    }
    let last = size - 1;
    rows[0][0] = Tile { owner: Identity::PlayerA, resources: starting_resources };
    rows[0][last] = Tile { owner: Identity::PlayerB, resources: starting_resources };
    rows[last][last] = Tile { owner: Identity::PlayerC, resources: starting_resources };
    let g = Grid { rows, registry };
    assert(is_initialized(g@, size as nat, starting_resources));
    Ok(g)
}

} // verus!

verus! {

/// How a tile reads: `(symbol, resources)`.
pub open spec fn tile_text(symbol: char, resources: u16) -> Seq<char> {
    seq!['(', symbol, ',', ' '] + decimal(resources as nat) + seq![')']
}

/// The texts of the tiles of one row.
pub open spec fn public_cells(row: Seq<Tile>, registry: Registry) -> Seq<Seq<char>> {
    row.map_values(|t: Tile| tile_text(registry.spec_symbol(t.owner), t.resources))
}

/// The lines that show a grid's rows, one per row.
pub open spec fn public_lines(rows: Seq<Seq<Tile>>, registry: Registry) -> Seq<Seq<char>> {
    rows.map_values(|row: Seq<Tile>| row_text(public_cells(row, registry)))
}

impl Tile {
    /// The tile as `(symbol, resources)`, with the owner's symbol from `registry`.
    pub fn render(&self, registry: &Registry) -> (s: String)
        ensures
            s@ == tile_text(registry.spec_symbol(self.owner), self.resources),
    {
        let mut s = String::new();
        push_char(&mut s, '(');
        push_char(&mut s, registry.symbol(self.owner));
        push_char(&mut s, ',');
        push_char(&mut s, ' ');
        push_decimal(&mut s, self.resources);
        push_char(&mut s, ')');
        assert(s@ =~= tile_text(registry.spec_symbol(self.owner), self.resources));
        s
    }
}

impl Grid {
    fn render_row(&self, i: usize) -> (s: String)
        requires
            i < self@.len(),
        ensures
            s@ == row_text(public_cells(self@[i as int], self.spec_registry())),
    {
        let row = &self.rows[i];
        let ghost cells = public_cells(row@, self.registry);
        let mut s = String::new();
        let mut j: usize = 0;
        while j < row.len()
            invariant
                j <= row@.len(),
                row@ == self@[i as int],
                cells == public_cells(row@, self.registry),
                s@ == row_text(cells.take(j as int)),
            decreases row@.len() - j,
        {
            let t = row[j].render(&self.registry);
            push_string(&mut s, &t);
            push_char(&mut s, ' ');
            assert(cells.take(j + 1).drop_last() =~= cells.take(j as int));
            j = j + 1;
        }
        assert(cells.take(j as int) =~= cells);
        s
    }

    /// The grid as text lines, one per row, each tile shown as
    /// `(symbol, resources)` and followed by a space.
    pub fn lines(&self) -> (ls: Vec<String>)
        ensures
            ls@.map_values(|l: String| l@) == public_lines(self@, self.spec_registry()),
    {
        let mut ls: Vec<String> = Vec::new();
        let mut i: usize = 0;
        while i < self.rows.len()
            invariant
                i <= self@.len(),
                self@.len() == self.rows@.len(),
                ls@.map_values(|l: String| l@) == public_lines(self@.take(i as int), self.registry),
            decreases self@.len() - i,
        {
            let line = self.render_row(i);
            let ghost before = ls@;
            ls.push(line);
            assert(ls@.map_values(|l: String| l@) =~= before.map_values(|l: String| l@).push(line@));
            assert(public_lines(self@.take(i + 1), self.registry) =~= public_lines(
                self@.take(i as int),
                self.registry,
            ).push(row_text(public_cells(self@[i as int], self.registry))));
            i = i + 1;
        }
        assert(self@.take(i as int) =~= self@);
        ls
    }

    /// The grid as one text: its lines, each ended by a newline.
    pub fn to_string(&self) -> (s: String)
        ensures
            s@ == lines_text(public_lines(self@, self.spec_registry())),
    {
        let ls = self.lines();
        join_lines(&ls)
    }
}

} // verus!

verus! {

/// For `size >= 2` a fresh grid is `size` by `size`; its top-left,
/// top-right and bottom-right tiles belong to the first, second and third
/// player with `res` each, and every other tile is unowned with nothing.
pub proof fn lemma_fresh_corners(rows: Seq<Seq<Tile>>, size: nat, res: u16)
    requires
        size >= 2,
        is_initialized(rows, size, res),
    ensures
        rows.len() == size,
        forall|r: int| 0 <= r < size ==> (#[trigger] rows[r]).len() == size,
        rows[0][0] == (Tile { owner: Identity::PlayerA, resources: res }),
        rows[0][size - 1] == (Tile { owner: Identity::PlayerB, resources: res }),
        rows[size - 1][size - 1] == (Tile { owner: Identity::PlayerC, resources: res }),
        forall|r: int, c: int|
            0 <= r < size && 0 <= c < size && !(r == 0 && c == 0) && !(r == 0 && c == size - 1)
                && !(r == size - 1 && c == size - 1) ==> #[trigger] rows[r][c] == (Tile {
                owner: Identity::Unowned,
                resources: 0,
            }),
{
    assert(rows[0][0] == layout_tile(size, res, 0, 0));
    assert(rows[0][size - 1] == layout_tile(size, res, 0, size - 1));
    assert(rows[size - 1][size - 1] == layout_tile(size, res, size - 1, size - 1));
}

/// A fresh grid of size one has a single tile, and the last corner assignment
/// wins it: the third player owns it with `res`.
pub proof fn lemma_fresh_single(rows: Seq<Seq<Tile>>, res: u16)
    requires
        is_initialized(rows, 1, res),
    ensures
        rows.len() == 1,
        rows[0].len() == 1,
        rows[0][0] == (Tile { owner: Identity::PlayerC, resources: res }),
{
    assert(rows[0][0] == layout_tile(1, res, 0, 0));
}

/// Formatting reads nothing but the tiles and the symbols: two grids with the
/// same tiles and registry, or one grid formatted twice, give the same text.
pub proof fn lemma_format_deterministic(a: &Grid, b: &Grid)
    requires
        a@ == b@,
        a.spec_registry() == b.spec_registry(),
    ensures
        public_lines(a@, a.spec_registry()) == public_lines(b@, b.spec_registry()),
        lines_text(public_lines(a@, a.spec_registry())) == lines_text(
            public_lines(b@, b.spec_registry()),
        ),
{
}

} // verus!
