use vstd::prelude::*;

verus! {

/// Logical size of a structured grid: `ni` x `nj` cells in total, of which the
/// outer `nb` layers on every side are ghost cells.
#[derive(Clone, Copy, Debug, PartialEq, Eq)]
pub struct GridDims {
    pub ni: usize,
    pub nj: usize,
    pub nb: usize,
}

impl GridDims {
    /// Both directions hold more cells than the two ghost frames, and the
    /// total cell count is addressable.
    pub open spec fn wf(&self) -> bool {
        &&& self.ni > 2 * self.nb
        &&& self.nj > 2 * self.nb
        &&& self.ni * self.nj <= usize::MAX
    }

    /// Total number of cells, ghosts included.
    pub open spec fn cells(&self) -> nat {
        (self.ni * self.nj) as nat
    }

    /// Row-major position of cell `(i, j)`.
    pub open spec fn pos(&self, i: int, j: int) -> int {
        i * self.nj + j
    }

    /// Whether `(i, j)` is a cell of the grid.
    pub open spec fn contains(&self, i: int, j: int) -> bool {
        0 <= i < self.ni && 0 <= j < self.nj
    }

    /// Number of interior cells along the first logical direction.
    pub open spec fn inner_i(&self) -> int {
        self.ni - 2 * self.nb
    }

    /// Number of interior cells along the second logical direction.
    pub open spec fn inner_j(&self) -> int {
        self.nj - 2 * self.nb
    }

    /// Builds the dimensions when they describe a valid grid.
    pub fn new(ni: usize, nj: usize, nb: usize) -> (r: Option<GridDims>)
        ensures
            r is Some <==> (ni > 2 * nb && nj > 2 * nb && ni * nj <= usize::MAX),
            r matches Some(d) ==> d.ni == ni && d.nj == nj && d.nb == nb && d.wf(),
    {
        if ni > nb && ni - nb > nb && nj > nb && nj - nb > nb {
            let q: usize = usize::MAX / ni;
            if nj <= q {
                proof {
                    vstd::arithmetic::div_mod::lemma_fundamental_div_mod(usize::MAX as int, ni as int);
                    vstd::arithmetic::div_mod::lemma_mod_bound(usize::MAX as int, ni as int);
                    assert(ni * nj <= ni * q) by (nonlinear_arith)
                        requires nj <= q, ni > 0;
                }
                Some(GridDims { ni, nj, nb })
            } else {
                proof {
                    vstd::arithmetic::div_mod::lemma_fundamental_div_mod(usize::MAX as int, ni as int);
                    vstd::arithmetic::div_mod::lemma_mod_bound(usize::MAX as int, ni as int);
                    assert(ni * nj >= ni * q + ni) by (nonlinear_arith)
                        requires nj >= q + 1, ni > 0;
                    assert(ni * nj > usize::MAX);
                }
                None
            }
        } else {
            None
        }
    }

    /// Total number of cells, ghosts included.
    pub fn n_cells(&self) -> (r: usize)
        requires
            self.wf(),
        ensures
            r == self.cells(),
    {
        self.ni * self.nj
    }

    /// Row-major position of cell `(i, j)` in a flat array of all cells.
    pub fn offset(&self, i: usize, j: usize) -> (r: usize)
        requires
            self.wf(),
            self.contains(i as int, j as int),
        ensures
            r == self.pos(i as int, j as int),
            r < self.cells(),
    {
        proof { lemma_pos_in_range(*self, i as int, j as int); }
        i * self.nj + j
    }

    /// Which value line `n` of a data file holds when the file lists
    /// `n_comp` whole fields one after another, each row by row (second
    /// index fastest): `(field, i, j)`, or nothing past the last field.
    pub open spec fn line_slot_spec(&self, n: int, n_comp: int) -> Option<(int, int, int)> {
        let cells = self.cells() as int;
        if 0 <= n < n_comp * cells {
            Some((n / cells, (n % cells) / self.nj as int, (n % cells) % self.nj as int))
        } else {
            None
        }
    }

    /// Locates line `n` of a data file holding `n_comp` fields (see
    /// `line_slot_spec`).
    pub fn line_slot(&self, n: usize, n_comp: usize) -> (r: Option<(usize, usize, usize)>)
        requires
            self.wf(),
        ensures
            r is Some <==> n < n_comp * self.cells(),
            r matches Some((c, i, j)) ==> {
                &&& c < n_comp
                &&& self.contains(i as int, j as int)
                &&& n == c * self.cells() + self.pos(i as int, j as int)
            },
            r matches Some((c, i, j)) ==> self.line_slot_spec(n as int, n_comp as int) == Some((c as int, i as int, j as int)),
    {
        let cells = self.n_cells();
        proof {
            assert(cells > 0) by (nonlinear_arith)
                requires cells == self.ni * self.nj, self.ni > 0, self.nj > 0;
        }
        let c = n / cells;
        if c >= n_comp {
            proof {
                assert(n >= n_comp * cells) by (nonlinear_arith)
                    requires c == (n as int) / (cells as int), c >= n_comp, cells > 0;
            }
            return None;
        }
        let rest = n % cells;
        let i = rest / self.nj;
        let j = rest % self.nj;
        proof {
            vstd::arithmetic::div_mod::lemma_fundamental_div_mod(n as int, cells as int);
            vstd::arithmetic::div_mod::lemma_fundamental_div_mod(rest as int, self.nj as int);
            assert(n < n_comp * cells) by (nonlinear_arith)
                requires n == cells * c + rest, rest < cells, c < n_comp, c >= 0;
            vstd::arithmetic::div_mod::lemma_mod_bound(rest as int, self.nj as int);
            assert(i < self.ni) by (nonlinear_arith)
                requires rest == self.nj * i + j, j >= 0, rest < cells, cells == self.ni * self.nj, self.nj > 0;
            assert(n == c * cells + i * self.nj + j) by (nonlinear_arith)
                requires n == cells * c + rest, rest == self.nj * i + j;
        }
        Some((c, i, j))
    }
}

/// Every cell of a valid grid has a row-major position inside the flat array.
pub proof fn lemma_pos_in_range(d: GridDims, i: int, j: int)
    requires
        d.wf(),
        d.contains(i, j),
    ensures
        0 <= d.pos(i, j) < d.cells(),
{
    assert(0 <= i * d.nj) by (nonlinear_arith)
        requires 0 <= i, 0 <= d.nj;
    assert(i * d.nj + j < d.ni * d.nj) by (nonlinear_arith)
        requires 0 <= i < d.ni, 0 <= j < d.nj;
}

} // verus!
