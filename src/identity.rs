use vstd::prelude::*;

verus! {

/// A participant marker: one of three players, or the sentinel for tiles
/// that nobody owns.
#[derive(Clone, Copy, Debug, PartialEq, Eq, Structural)]
pub enum Identity {
    PlayerA,
    PlayerB,
    PlayerC,
    Unowned,
}

/// The display symbols of the four identities.
///
/// The symbols are fixed when the registry is made and never change; no two
/// identities share a symbol.
#[derive(Clone, Copy, Debug)]
pub struct Registry {
    player_a: char,
    player_b: char,
    player_c: char,
    unowned: char,
}

impl Registry {
    /// The symbol that `id` is displayed with.
    pub closed spec fn spec_symbol(&self, id: Identity) -> char {
        match id {
            Identity::PlayerA => self.player_a,
            Identity::PlayerB => self.player_b,
            Identity::PlayerC => self.player_c,
            Identity::Unowned => self.unowned,
        }
    }

    /// No two identities share a symbol.
    pub open spec fn wf(&self) -> bool {
        forall|x: Identity, y: Identity|
            #![trigger self.spec_symbol(x), self.spec_symbol(y)]
            x != y ==> self.spec_symbol(x) != self.spec_symbol(y)
    }

    /// The symbols of the client side: `A`, `B`, `C`, and `X` for unowned tiles.
    pub fn client() -> (r: Registry)
        ensures
            r.wf(),
            r.spec_symbol(Identity::PlayerA) == 'A',
            r.spec_symbol(Identity::PlayerB) == 'B',
            r.spec_symbol(Identity::PlayerC) == 'C',
            r.spec_symbol(Identity::Unowned) == 'X',
    {
        Registry { player_a: 'A', player_b: 'B', player_c: 'C', unowned: 'X' }
    }

    /// The symbols of the enclave side: `A`, `B`, `C`, and `_` for unowned tiles.
    pub fn enclave() -> (r: Registry)
        ensures
            r.wf(),
            r.spec_symbol(Identity::PlayerA) == 'A',
            r.spec_symbol(Identity::PlayerB) == 'B',
            r.spec_symbol(Identity::PlayerC) == 'C',
            r.spec_symbol(Identity::Unowned) == '_',
    {
        Registry { player_a: 'A', player_b: 'B', player_c: 'C', unowned: '_' }
    }

    /// The symbol that `id` is displayed with.
    pub fn symbol(&self, id: Identity) -> (c: char)
        ensures
            c == self.spec_symbol(id),
    {
        match id {
            Identity::PlayerA => self.player_a,
            Identity::PlayerB => self.player_b,
            Identity::PlayerC => self.player_c,
            Identity::Unowned => self.unowned,
        }
    }
}

} // verus!
