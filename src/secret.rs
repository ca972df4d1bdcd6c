use vstd::arithmetic::power2::pow2;
use vstd::prelude::*;

use crate::grid::{init_grid, is_initialized, is_square, matrix_view, Grid, GridError, Tile};
use crate::identity::Registry;
use crate::key::{draw_key, lemma_key_in_range, Key};
use crate::text::{decimal, join_lines, lines_text, push_char, push_decimal, push_string, row_text};

verus! {

/// How an enclave tile reads: `(symbol, resources, digest)`, where the digest
/// is the key modulo ten.
pub open spec fn secret_tile_text(symbol: char, resources: u16, key: nat) -> Seq<char> {
    seq!['(', symbol, ',', ' '] + decimal(resources as nat) + seq![',', ' '] + decimal(key % 10)
        + seq![')']
}

/// The texts of the tiles of one enclave row, given the row's key values.
pub open spec fn secret_cells(row: Seq<Tile>, keys: Seq<nat>, registry: Registry) -> Seq<
    Seq<char>,
> {
    Seq::new(
        row.len(),
        |j: int| secret_tile_text(registry.spec_symbol(row[j].owner), row[j].resources, keys[j]),
    )
}

/// The lines that show an enclave grid's rows, one per row.
pub open spec fn secret_lines(
    rows: Seq<Seq<Tile>>,
    keys: Seq<Seq<nat>>,
    registry: Registry,
) -> Seq<Seq<char>> {
    Seq::new(rows.len(), |i: int| row_text(secret_cells(rows[i], keys[i], registry)))
}

/// Every value of `keys` lies in `0 .. 2^256`.
pub open spec fn keys_in_range(keys: Seq<Seq<nat>>) -> bool {
    forall|r: int, c: int|
        0 <= r < keys.len() && 0 <= c < keys[r].len() ==> 0 <= #[trigger] keys[r][c] < pow2(256)
}

/// The values of a matrix of keys.
pub open spec fn key_matrix(keys: Seq<Vec<Key>>) -> Seq<Seq<nat>> {
    keys.map_values(|row: Vec<Key>| row@.map_values(|k: Key| k.value()))
}

/// The enclave's authoritative grid: the same owners and resources as the
/// public grid, and a secret key in every tile.
pub struct SecretGrid {
    public: Grid,
    keys: Vec<Vec<Key>>,
}

impl SecretGrid {
    /// Owners and resources, row-major.
    pub closed spec fn tiles(&self) -> Seq<Seq<Tile>> {
        self.public@
    }

    /// The key values, row-major.
    pub closed spec fn key_values(&self) -> Seq<Seq<nat>> {
        key_matrix(self.keys@)
    }

    /// The registry whose symbols this grid is displayed with.
    pub closed spec fn spec_registry(&self) -> Registry {
        self.public.spec_registry()
    }

    /// Tiles and keys form two matrices of one square shape.
    pub open spec fn wf(&self) -> bool {
        &&& is_square(self.tiles(), self.tiles().len())
        &&& is_square(self.key_values(), self.tiles().len())
    }

    /// Builds the enclave grid of `size` with `starting_resources` on the owned
    /// corners and `keys[r][c]` as the key of the tile in row `r`, column `c`.
    ///
    /// Fails with `InvalidDimension` exactly when `size` is zero or `keys` is
    /// not a `size` by `size` matrix.
    pub fn from_keys(
        size: usize,
        starting_resources: u16,
        registry: Registry,
        keys: Vec<Vec<Key>>,
    ) -> (r: Result<SecretGrid, GridError>)
        ensures
            match r {
                Ok(g) => {
                    &&& size > 0
                    &&& is_square(matrix_view(keys@), size as nat)
                    &&& g.wf()
                    &&& is_initialized(g.tiles(), size as nat, starting_resources)
                    &&& g.key_values() == key_matrix(keys@)
                    &&& keys_in_range(g.key_values())
                    &&& g.spec_registry() == registry
                },
                Err(e) => {
                    &&& e == GridError::InvalidDimension
                    &&& !(size > 0 && is_square(matrix_view(keys@), size as nat))
                },
            },
    {
        if keys.len() != size {
            return Err(GridError::InvalidDimension);
        }
        let mut i: usize = 0;
        while i < keys.len()
            invariant
                i <= keys@.len(),
                forall|k: int| 0 <= k < i ==> (#[trigger] keys@[k])@.len() == size,
            decreases keys@.len() - i,
        {
            if keys[i].len() != size {
                assert(matrix_view(keys@)[i as int] == keys@[i as int]@);
                return Err(GridError::InvalidDimension);
            }
            i = i + 1;
        }
        assert(is_square(matrix_view(keys@), size as nat)) by {
            assert forall|k: int| 0 <= k < size implies (#[trigger] matrix_view(keys@)[k]).len()
                == size by {
                assert(matrix_view(keys@)[k] == keys@[k]@);
            }
        }
        match init_grid(size, starting_resources, registry) {
            Ok(public) => {
                let g = SecretGrid { public, keys };
                proof {
                    lemma_keys_in_range(&g);
                }
                assert(is_square(g.key_values(), size as nat)) by {
                    assert forall|k: int| 0 <= k < size implies (#[trigger] g.key_values()[k]).len()
                        == size by {
                        assert(g.key_values()[k] == g.keys@[k]@.map_values(|key: Key| key.value()));
                    }
                }
                Ok(g)
            },
            Err(e) => Err(e),
        }
    }
}

/// Builds the enclave grid of `size` with `starting_resources` on the owned
/// corners and a fresh key in every tile, drawn from the operating system's
/// random source `rng`.
///
/// Fails with `InvalidDimension` when `size` is zero, before any key is drawn,
/// and with `RandomnessUnavailable` when the source fails to supply a key; no
/// grid is returned then.
pub fn init_secret_grid(
    size: usize,
    starting_resources: u16,
    registry: Registry,
    rng: &mut rand::rngs::OsRng,
) -> (r: Result<SecretGrid, GridError>)
    ensures
        match r {
            Ok(g) => {
                &&& size > 0
                &&& g.wf()
                &&& is_initialized(g.tiles(), size as nat, starting_resources)
                &&& keys_in_range(g.key_values())
                &&& g.spec_registry() == registry
            },
            Err(e) => {
                &&& size == 0 ==> e == GridError::InvalidDimension
                &&& size > 0 ==> e == GridError::RandomnessUnavailable
            },
        },
{
    if size == 0 {
        return Err(GridError::InvalidDimension);
    }
    let mut keys: Vec<Vec<Key>> = Vec::new();
    while keys.len() < size
        invariant
            keys@.len() <= size,
            forall|i: int| 0 <= i < keys@.len() ==> (#[trigger] keys@[i])@.len() == size,
        decreases size - keys@.len(),
    {
        let mut row: Vec<Key> = Vec::new();
        while row.len() < size
            invariant
                row@.len() <= size,
            decreases size - row@.len(),
        {
            match draw_key(rng) {
                Ok(k) => row.push(k),
                Err(e) => {
                    return Err(e);
                },
            }
        }
        keys.push(row);
    }
    assert(is_square(matrix_view(keys@), size as nat)) by {
        assert forall|k: int| 0 <= k < size implies (#[trigger] matrix_view(keys@)[k]).len()
            == size by {
            assert(matrix_view(keys@)[k] == keys@[k]@);
        }
    }
    SecretGrid::from_keys(size, starting_resources, registry, keys)
}

} // verus!

verus! {

/// The enclave tile as `(symbol, resources, digest)`, where the digest is the
/// key modulo ten; nothing else of the key is shown.
pub fn render_secret_tile(t: Tile, key: &Key, registry: &Registry) -> (s: String)
    ensures
        s@ == secret_tile_text(registry.spec_symbol(t.owner), t.resources, key.value()),
{
    let mut s = String::new();
    push_char(&mut s, '(');
    push_char(&mut s, registry.symbol(t.owner));
    push_char(&mut s, ',');
    push_char(&mut s, ' ');
    push_decimal(&mut s, t.resources);
    push_char(&mut s, ',');
    push_char(&mut s, ' ');
    let d = key.digest();
    push_decimal(&mut s, d as u16);
    push_char(&mut s, ')');
    assert(s@ =~= secret_tile_text(registry.spec_symbol(t.owner), t.resources, key.value()));
    s
}

impl SecretGrid {
    fn render_row(&self, i: usize) -> (s: String)
        requires
            self.wf(),
            i < self.tiles().len(),
        ensures
            s@ == row_text(secret_cells(self.tiles()[i as int], self.key_values()[i as int], self.spec_registry())),
    {
        let registry = self.public.registry();
        let n = self.public.size();
        let keys = &self.keys[i];
        assert(keys@.map_values(|k: Key| k.value()) == self.key_values()[i as int]);
        let ghost cells = secret_cells(self.tiles()[i as int], self.key_values()[i as int], registry);
        let mut s = String::new();
        let mut j: usize = 0;
        while j < n
            invariant
                j <= n,
                n == self.tiles().len(),
                self.wf(),
                i < n,
                keys@.len() == n,
                keys@.map_values(|k: Key| k.value()) == self.key_values()[i as int],
                cells == secret_cells(self.tiles()[i as int], self.key_values()[i as int], registry),
                registry == self.spec_registry(),
                s@ == row_text(cells.take(j as int)),
            decreases n - j,
        {
            let t = self.public.tile(i, j);
            let text = render_secret_tile(t, &keys[j], &registry);
            push_string(&mut s, &text);
            push_char(&mut s, ' ');
            assert(cells.take(j + 1).drop_last() =~= cells.take(j as int));
            j = j + 1;
        }
        assert(cells.take(j as int) =~= cells);
        s
    }

    /// The grid as text lines, one per row, each tile shown as
    /// `(symbol, resources, digest)` and followed by a space. The digest is the
    /// key modulo ten; nothing else of a key is shown.
    pub fn lines(&self) -> (ls: Vec<String>)
        requires
            self.wf(),
        ensures
            ls@.map_values(|l: String| l@) == secret_lines(
                self.tiles(),
                self.key_values(),
                self.spec_registry(),
            ),
    {
        let ghost all = secret_lines(self.tiles(), self.key_values(), self.spec_registry());
        let n = self.public.size();
        let mut ls: Vec<String> = Vec::new();
        let mut i: usize = 0;
        while i < n
            invariant
                i <= n,
                n == self.tiles().len(),
                self.wf(),
                all == secret_lines(self.tiles(), self.key_values(), self.spec_registry()),
                ls@.map_values(|l: String| l@) == all.take(i as int),
            decreases n - i,
        {
            let line = self.render_row(i);
            let ghost before = ls@;
            ls.push(line);
            assert(ls@.map_values(|l: String| l@) =~= before.map_values(|l: String| l@).push(line@));
            assert(all.take(i + 1) =~= all.take(i as int).push(all[i as int]));
            i = i + 1;
        }
        assert(all.take(i as int) =~= all);
        ls
    }

    /// The grid as one text: its lines, each ended by a newline.
    pub fn to_string(&self) -> (s: String)
        requires
            self.wf(),
        ensures
            s@ == lines_text(secret_lines(self.tiles(), self.key_values(), self.spec_registry())),
    {
        let ls = self.lines();
        join_lines(&ls)
    }
}

} // verus!

verus! {

/// A fresh public grid and a fresh enclave grid made with one size and one
/// starting amount agree on every tile's owner and resources.
pub proof fn lemma_variants_agree(
    public: Seq<Seq<Tile>>,
    enclave: Seq<Seq<Tile>>,
    size: nat,
    res: u16,
)
    requires
        is_initialized(public, size, res),
        is_initialized(enclave, size, res),
    ensures
        public == enclave,
{
    assert forall|r: int| 0 <= r < size implies #[trigger] public[r] == enclave[r] by {
        assert(public[r] =~= enclave[r]);
    }
    assert(public =~= enclave);
}

/// Formatting an enclave grid reads nothing but its tiles, key values and
/// symbols: two such grids, or one grid formatted twice, give the same text.
pub proof fn lemma_secret_format_deterministic(a: &SecretGrid, b: &SecretGrid)
    requires
        a.tiles() == b.tiles(),
        a.key_values() == b.key_values(),
        a.spec_registry() == b.spec_registry(),
    ensures
        lines_text(secret_lines(a.tiles(), a.key_values(), a.spec_registry())) == lines_text(
            secret_lines(b.tiles(), b.key_values(), b.spec_registry()),
        ),
{
}

/// Every key of an enclave grid lies in `0 .. 2^256`.
pub proof fn lemma_keys_in_range(g: &SecretGrid)
    ensures
        keys_in_range(g.key_values()),
{
    assert forall|r: int, c: int|
        0 <= r < g.key_values().len() && 0 <= c < g.key_values()[r].len() implies 0
            <= #[trigger] g.key_values()[r][c] < pow2(256) by {
        assert(g.key_values()[r][c] == g.keys@[r]@[c].value());
        lemma_key_in_range(&g.keys@[r]@[c]);
    }
}

impl SecretGrid {
    /// The number of rows.
    pub fn size(&self) -> (n: usize)
        ensures
            n == self.tiles().len(),
    {
        self.public.size()
    }

    /// Owner and resources of the tile in row `r`, column `c`.
    pub fn tile(&self, r: usize, c: usize) -> (t: Tile)
        requires
            r < self.tiles().len(),
            c < self.tiles()[r as int].len(),
        ensures
            t == self.tiles()[r as int][c as int],
    {
        self.public.tile(r, c)
    }
}

} // verus!
