use vstd::prelude::*;
use crate::grid::GridDims;

verus! {

/// One scalar quantity stored for every cell of a grid, ghosts included,
/// in row-major order.
pub struct Field2<T> {
    pub dims: GridDims,
    pub data: Vec<T>,
}

impl<T: Copy> Field2<T> {
    /// The grid is valid and the storage holds exactly one value per cell.
    pub open spec fn wf(&self) -> bool {
        &&& self.dims.wf()
        &&& self.data@.len() == self.dims.cells()
    }

    /// Value stored for cell `(i, j)`.
    pub open spec fn at(&self, i: int, j: int) -> T {
        self.data@[self.dims.pos(i, j)]
    }

    /// A field on `dims` holding `fill` in every cell.
    pub fn new(dims: GridDims, fill: T) -> (r: Field2<T>)
        requires
            dims.wf(),
        ensures
            r.wf(),
            r.dims == dims,
            forall|i: int, j: int| dims.contains(i, j) ==> r.at(i, j) == fill,
    {
        let n = dims.n_cells();
        let mut data: Vec<T> = Vec::new();
        let mut k: usize = 0;
        while k < n
            invariant
                k <= n,
                n == dims.cells(),
                data@.len() == k,
                forall|m: int| 0 <= m < k ==> data@[m] == fill,
            decreases n - k,
        {
            data.push(fill);
            k = k + 1;
        }
        let r = Field2 { dims, data };
        assert forall|i: int, j: int| dims.contains(i, j) implies r.at(i, j) == fill by {
            crate::grid::lemma_pos_in_range(dims, i, j);
        }
        r
    }

    /// Value stored for cell `(i, j)`.
    pub fn get(&self, i: usize, j: usize) -> (r: T)
        requires
            self.wf(),
            self.dims.contains(i as int, j as int),
        ensures
            r == self.at(i as int, j as int),
    {
        let k = self.dims.offset(i, j);
        self.data[k]
    }

    /// Stores `x` for cell `(i, j)`, leaving every other cell as it was.
    pub fn set(&mut self, i: usize, j: usize, x: T)
        requires
            old(self).wf(),
            old(self).dims.contains(i as int, j as int),
        ensures
            final(self).wf(),
            final(self).dims == old(self).dims,
            final(self).at(i as int, j as int) == x,
            forall|a: int, b: int|
                old(self).dims.contains(a, b) && (a != i || b != j)
                    ==> #[trigger] final(self).at(a, b) == old(self).at(a, b),
    {
        let k = self.dims.offset(i, j);
        self.data.set(k, x);
        proof {
            assert forall|a: int, b: int|
                old(self).dims.contains(a, b) && (a != i || b != j)
                    implies #[trigger] self.at(a, b) == old(self).at(a, b) by {
                if self.dims.pos(a, b) == self.dims.pos(i as int, j as int) {
                    lemma_pos_injective(self.dims, a, b, i as int, j as int);
                }
                crate::grid::lemma_pos_in_range(self.dims, a, b);
            }
        }
    }

    /// The `2 * half` values along the first direction that straddle the
    /// interface between interior rows `f - 1` and `f`, in interior column
    /// `j`, from the lowest row up.
    pub open spec fn stencil_i_spec(&self, f: int, j: int, half: int) -> Seq<T> {
        Seq::new((2 * half) as nat, |k: int| self.at(self.dims.nb + f - half + k, self.dims.nb + j))
    }

    /// The `2 * half` values along the second direction that straddle the
    /// interface between interior columns `f - 1` and `f`, in interior row
    /// `i`, from the lowest column up.
    pub open spec fn stencil_j_spec(&self, i: int, f: int, half: int) -> Seq<T> {
        Seq::new((2 * half) as nat, |k: int| self.at(self.dims.nb + i, self.dims.nb + f - half + k))
    }

    /// Gathers the reconstruction stencil of an interface normal to the first
    /// direction (see `stencil_i_spec`).
    pub fn stencil_i(&self, f: usize, j: usize, half: usize) -> (r: Vec<T>)
        requires
            self.wf(),
            half <= self.dims.nb,
            f <= self.dims.inner_i(),
            j < self.dims.inner_j(),
        ensures
            r@ == self.stencil_i_spec(f as int, j as int, half as int),
    {
        let nb = self.dims.nb;
        let mut r: Vec<T> = Vec::new();
        let mut k: usize = 0;
        while k < 2 * half
            invariant
                self.wf(),
                nb == self.dims.nb,
                half <= nb,
                f <= self.dims.inner_i(),
                j < self.dims.inner_j(),
                k <= 2 * half,
                r@.len() == k,
                forall|m: int| 0 <= m < k ==> r@[m] == self.at(nb + f - half + m, nb + j),
            decreases 2 * half - k,
        {
            r.push(self.get(nb + f - half + k, nb + j));
            k = k + 1;
        }
        assert(r@ =~= self.stencil_i_spec(f as int, j as int, half as int));
        r
    }

    /// Gathers the reconstruction stencil of an interface normal to the second
    /// direction (see `stencil_j_spec`).
    pub fn stencil_j(&self, i: usize, f: usize, half: usize) -> (r: Vec<T>)
        requires
            self.wf(),
            half <= self.dims.nb,
            i < self.dims.inner_i(),
            f <= self.dims.inner_j(),
        ensures
            r@ == self.stencil_j_spec(i as int, f as int, half as int),
    {
        let nb = self.dims.nb;
        let mut r: Vec<T> = Vec::new();
        let mut k: usize = 0;
        while k < 2 * half
            invariant
                self.wf(),
                nb == self.dims.nb,
                half <= nb,
                i < self.dims.inner_i(),
                f <= self.dims.inner_j(),
                k <= 2 * half,
                r@.len() == k,
                forall|m: int| 0 <= m < k ==> r@[m] == self.at(nb + i, nb + f - half + m),
            decreases 2 * half - k,
        {
            r.push(self.get(nb + i, nb + f - half + k));
            k = k + 1;
        }
        assert(r@ =~= self.stencil_j_spec(i as int, f as int, half as int));
        r
    }

    /// Overwrites row `dst` with the values of row `src`.
    fn copy_row(&mut self, dst: usize, src: usize)
        requires
            old(self).wf(),
            dst < old(self).dims.ni,
            src < old(self).dims.ni,
        ensures
            final(self).wf(),
            final(self).dims == old(self).dims,
            forall|a: int, b: int| old(self).dims.contains(a, b) ==>
                #[trigger] final(self).at(a, b) == (if a == dst { old(self).at(src as int, b) } else { old(self).at(a, b) }),
    {
        let nj = self.dims.nj;
        let mut j: usize = 0;
        while j < nj
            invariant
                self.wf(),
                self.dims == old(self).dims,
                nj == self.dims.nj,
                dst < self.dims.ni,
                src < self.dims.ni,
                j <= nj,
                forall|a: int, b: int| self.dims.contains(a, b) ==>
                    #[trigger] self.at(a, b) == (if a == dst && b < j { old(self).at(src as int, b) } else { old(self).at(a, b) }),
            decreases nj - j,
        {
            let x = self.get(src, j);
            self.set(dst, j, x);
            j = j + 1;
        }
    }

    /// Makes the field periodic in the first logical direction: the low ghost
    /// rows take the values of the last interior rows, then the high ghost rows
    /// take the values of the first interior rows.  Ghost columns of the
    /// second direction are left as they are.
    pub fn periodic_in_i(&mut self)
        requires
            old(self).wf(),
        ensures
            periodic_image_i(*old(self), *final(self)),
    {
        let ni = self.dims.ni;
        let nb = self.dims.nb;
        let p = ni - 2 * nb;
        let ghost orig = *self;
        let mut k: usize = 0;
        while k < nb
            invariant
                self.wf(),
                self.dims == orig.dims,
                ni == orig.dims.ni,
                nb == orig.dims.nb,
                p == ni - 2 * nb,
                orig.wf(),
                k <= nb,
                forall|a: int, b: int| orig.dims.contains(a, b) ==>
                    #[trigger] self.at(a, b) == (if a < k { orig.at(p + a, b) } else { orig.at(a, b) }),
            decreases nb - k,
        {
            self.copy_row(k, p + k);
            k = k + 1;
        }
        let ghost mid = *self;
        let mut k: usize = 0;
        while k < nb
            invariant
                self.wf(),
                self.dims == orig.dims,
                ni == orig.dims.ni,
                nb == orig.dims.nb,
                p == ni - 2 * nb,
                orig.wf(),
                k <= nb,
                forall|a: int, b: int| orig.dims.contains(a, b) ==>
                    #[trigger] mid.at(a, b) == (if a < nb { orig.at(p + a, b) } else { orig.at(a, b) }),
                forall|a: int, b: int| orig.dims.contains(a, b) ==>
                    #[trigger] self.at(a, b) == (if ni - nb <= a < ni - nb + k { orig.at(nb + (a - (ni - nb)) % (p as int), b) } else { mid.at(a, b) }),
            decreases nb - k,
        {
            proof {
                if k >= p {
                    assert((k - p) as int % (p as int) == k as int % (p as int)) by {
                        vstd::arithmetic::div_mod::lemma_mod_sub_multiples_vanish(k as int, p as int);
                    }
                } else {
                    vstd::arithmetic::div_mod::lemma_small_mod(k as nat, p as nat);
                }
            }
            self.copy_row(ni - nb + k, nb + k);
            k = k + 1;
        }
    }
}

/// Row whose old values a row takes when the field is made periodic in the
/// first logical direction.
pub open spec fn periodic_source_i(d: GridDims, a: int) -> int {
    let p = d.ni - 2 * d.nb;
    if a < d.nb {
        p + a
    } else if a >= d.ni - d.nb {
        d.nb + (a - (d.ni - d.nb)) % p
    } else {
        a
    }
}

/// `after` is `before` made periodic in the first logical direction: every
/// cell holds the old value of the same column in row `periodic_source_i`.
pub open spec fn periodic_image_i<T: Copy>(before: Field2<T>, after: Field2<T>) -> bool {
    &&& after.wf()
    &&& after.dims == before.dims
    &&& forall|a: int, b: int| before.dims.contains(a, b) ==>
        #[trigger] after.at(a, b) == before.at(periodic_source_i(before.dims, a), b)
}

/// Distinct cells have distinct row-major positions.
pub proof fn lemma_pos_injective(d: GridDims, a: int, b: int, i: int, j: int)
    requires
        d.contains(a, b),
        d.contains(i, j),
        d.pos(a, b) == d.pos(i, j),
    ensures
        a == i && b == j,
{
    if a < i {
        assert(a * d.nj + b < i * d.nj + j) by (nonlinear_arith)
            requires a < i, 0 <= b < d.nj, 0 <= j;
    } else if a > i {
        assert(i * d.nj + j < a * d.nj + b) by (nonlinear_arith)
            requires i < a, 0 <= j < d.nj, 0 <= b;
    }
}

} // verus!
