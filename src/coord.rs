use vstd::prelude::*;

verus! {

/// Packed index of column `x` and row `y` in a 3×3 grid.
pub open spec fn local_index(x: nat, y: nat) -> nat {
    3 * y + x
}

/// Column of a packed 3×3 index.
pub open spec fn column_of(i: nat) -> nat {
    i % 3
}

/// Row of a packed 3×3 index.
pub open spec fn row_of(i: nat) -> nat {
    i / 3
}

/// Packed index of cell `cell` of sub-board `region` on the 9×9 board.
pub open spec fn global_index(region: nat, cell: nat) -> nat {
    9 * region + cell
}

/// Sub-board of a packed 9×9 index.
pub open spec fn region_of(g: nat) -> nat {
    g / 9
}

/// Cell within its sub-board of a packed 9×9 index.
pub open spec fn cell_of(g: nat) -> nat {
    g % 9
}

/// A position inside a 3×3 grid: either a sub-board of the whole board or a
/// cell of a sub-board. Its view is the packed index `3 * y + x`, below 9.
#[derive(Clone, Copy, Debug, PartialEq, Eq, Structural)]
pub struct Local(u8);

/// A position on the 9×9 board. Its view is the packed index
/// `9 * region + cell`, below 81.
#[derive(Clone, Copy, Debug, PartialEq, Eq, Structural)]
pub struct Global(u8);

impl View for Local {
    type V = nat;

    closed spec fn view(&self) -> nat {
        self.0 as nat
    }
}

impl View for Global {
    type V = nat;

    closed spec fn view(&self) -> nat {
        self.0 as nat
    }
}

impl Local {
    #[verifier::type_invariant]
    spec fn in_range(self) -> bool {
        self.0 < 9
    }

    /// The grid position at column `x` and row `y`.
    pub fn new(x: u8, y: u8) -> (r: Local)
        requires
            x < 3,
            y < 3,
        ensures
            r@ == local_index(x as nat, y as nat),
    {
        Local(3 * y + x)
    }

    /// The packed index, usable to address a 9-element array.
    pub fn index(self) -> (r: usize)
        ensures
            r == self@,
            r < 9,
    {
        proof {
            use_type_invariant(self);
        }
        self.0 as usize
    }

    /// The column, in `0..3`.
    pub fn get_x(self) -> (r: u8)
        ensures
            r == column_of(self@),
            r < 3,
    {
        self.0 % 3
    }

    /// The row, in `0..3`.
    pub fn get_y(self) -> (r: u8)
        ensures
            r == row_of(self@),
            r < 3,
    {
        proof {
            use_type_invariant(self);
        }
        self.0 / 3
    }

    /// All nine positions, row by row: the `i`-th has index `i`.
    pub fn iter() -> (r: Vec<Local>)
        ensures
            is_row_major(r@),
    {
        let mut r: Vec<Local> = Vec::new();
        let mut i: u8 = 0;
        while i < 9
            invariant
                i <= 9,
                r@.len() == i,
                forall|k: int| 0 <= k < i ==> (#[trigger] r@[k])@ == k,
            decreases 9 - i,
        {
            r.push(Local(i));
            i = i + 1;
        }
        r
    }
}

/// `s` lists the nine grid positions in row-major order.
pub open spec fn is_row_major(s: Seq<Local>) -> bool {
    &&& s.len() == 9
    &&& forall|i: int| 0 <= i < 9 ==> (#[trigger] s[i])@ == i
}

impl Global {
    #[verifier::type_invariant]
    spec fn in_range(self) -> bool {
        self.0 < 81
    }

    /// The board position of cell `local` in sub-board `region`.
    pub fn new(region: Local, local: Local) -> (r: Global)
        ensures
            r@ == global_index(region@, local@),
    {
        proof {
            use_type_invariant(region);
            use_type_invariant(local);
        }
        Global(9 * region.0 + local.0)
    }

    /// The sub-board that holds this position.
    pub fn get_region(self) -> (r: Local)
        ensures
            r@ == region_of(self@),
    {
        proof {
            use_type_invariant(self);
        }
        Local(self.0 / 9)
    }

    /// The cell of this position within its sub-board.
    pub fn get_local(self) -> (r: Local)
        ensures
            r@ == cell_of(self@),
    {
        Local(self.0 % 9)
    }
}

/// Building a 3×3 position from a column and a row and reading them back
/// gives the same column and row.
pub proof fn lemma_local_round_trip(x: nat, y: nat)
    requires
        x < 3,
        y < 3,
    ensures
        local_index(x, y) < 9,
        column_of(local_index(x, y)) == x,
        row_of(local_index(x, y)) == y,
{
}

/// Every 3×3 position is rebuilt from its own column and row.
pub proof fn lemma_local_reassemble(i: nat)
    requires
        i < 9,
    ensures
        column_of(i) < 3,
        row_of(i) < 3,
        local_index(column_of(i), row_of(i)) == i,
{
}

/// Building a board position from a sub-board and a cell and reading them
/// back gives the same sub-board and cell.
pub proof fn lemma_global_round_trip(region: nat, cell: nat)
    requires
        region < 9,
        cell < 9,
    ensures
        global_index(region, cell) < 81,
        region_of(global_index(region, cell)) == region,
        cell_of(global_index(region, cell)) == cell,
{
}

/// Every board position is rebuilt from its own sub-board and cell.
pub proof fn lemma_global_reassemble(g: nat)
    requires
        g < 81,
    ensures
        region_of(g) < 9,
        cell_of(g) < 9,
        global_index(region_of(g), cell_of(g)) == g,
{
}

/// Two grid positions with the same index are the same position.
pub proof fn lemma_local_view_injective(a: Local, b: Local)
    ensures
        a@ == b@ <==> a == b,
{
}

/// Two board positions with the same index are the same position.
pub proof fn lemma_global_view_injective(a: Global, b: Global)
    ensures
        a@ == b@ <==> a == b,
{
}

/// A row-major listing holds nine distinct positions that cover every index
/// below 9, and there is only one such listing: listing the grid again
/// yields the same sequence.
pub proof fn lemma_row_major_unique(a: Seq<Local>, b: Seq<Local>)
    requires
        is_row_major(a),
        is_row_major(b),
    ensures
        a == b,
        forall|i: int, j: int| 0 <= i < 9 && 0 <= j < 9 && i != j ==> a[i] != a[j],
        a.map_values(|l: Local| l@) == seq![0nat, 1, 2, 3, 4, 5, 6, 7, 8],
{
    assert forall|i: int| 0 <= i < 9 implies a[i] == b[i] by {
        lemma_local_view_injective(a[i], b[i]);
    }
    assert(a =~= b);
    assert(a.map_values(|l: Local| l@) =~= seq![0nat, 1, 2, 3, 4, 5, 6, 7, 8]);
}

} // verus!
