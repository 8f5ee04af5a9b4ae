use vstd::prelude::*;
use crate::field::Field2;
use crate::grid::GridDims;

verus! {

/// Number of basic variables stored per cell.
pub const NF: usize = 4;

/// The basic variables of every cell: density, the two velocity components
/// and total energy per unit volume.
pub struct BasicVarHD<T> {
    pub rho: Field2<T>,
    pub u: Field2<T>,
    pub v: Field2<T>,
    pub e: Field2<T>,
}

impl<T: Copy> BasicVarHD<T> {
    /// All four fields are valid and share one grid.
    pub open spec fn wf(&self) -> bool {
        &&& self.rho.wf()
        &&& self.u.wf()
        &&& self.v.wf()
        &&& self.e.wf()
        &&& self.u.dims == self.rho.dims
        &&& self.v.dims == self.rho.dims
        &&& self.e.dims == self.rho.dims
    }

    /// The grid the variables live on.
    pub open spec fn dims(&self) -> GridDims {
        self.rho.dims
    }

    /// Field number `c`, in the order density, u, v, energy.
    pub open spec fn component(&self, c: int) -> Field2<T> {
        if c == 0 {
            self.rho
        } else if c == 1 {
            self.u
        } else if c == 2 {
            self.v
        } else {
            self.e
        }
    }

    /// Every variable of every cell set to `fill`.
    pub fn new(dims: GridDims, fill: T) -> (r: BasicVarHD<T>)
        requires
            dims.wf(),
        ensures
            r.wf(),
            r.dims() == dims,
            forall|c: int, i: int, j: int| 0 <= c < NF && dims.contains(i, j)
                ==> #[trigger] r.component(c).at(i, j) == fill,
    {
        BasicVarHD {
            rho: Field2::new(dims, fill),
            u: Field2::new(dims, fill),
            v: Field2::new(dims, fill),
            e: Field2::new(dims, fill),
        }
    }

    /// Stores the value read from line `n` of a data file that lists the
    /// density, u, v and energy fields one after another, each row by row.
    /// Returns false, changing nothing, when the line lies past the last
    /// field.
    pub fn store_line(&mut self, n: usize, x: T) -> (r: bool)
        requires
            old(self).wf(),
        ensures
            final(self).wf(),
            final(self).dims() == old(self).dims(),
            r <==> n < NF * old(self).dims().cells(),
            !r ==> *final(self) == *old(self),
            r ==> exists|c: int, i: int, j: int| {
                &&& old(self).dims().line_slot_spec(n as int, NF as int) == Some((c, i, j))
                &&& forall|d: int, a: int, b: int| 0 <= d < NF && old(self).dims().contains(a, b)
                    ==> #[trigger] final(self).component(d).at(a, b)
                        == (if d == c && a == i && b == j { x } else { old(self).component(d).at(a, b) })
            },
    {
        let dims = self.rho.dims;
        match dims.line_slot(n, NF) {
            None => false,
            Some((c, i, j)) => {
                if c == 0 {
                    self.rho.set(i, j, x);
                } else if c == 1 {
                    self.u.set(i, j, x);
                } else if c == 2 {
                    self.v.set(i, j, x);
                } else {
                    self.e.set(i, j, x);
                }
                assert(forall|d: int, a: int, b: int| 0 <= d < NF && old(self).dims().contains(a, b)
                    ==> #[trigger] self.component(d).at(a, b)
                        == (if d == c && a == i && b == j { x } else { old(self).component(d).at(a, b) }));
                true
            },
        }
    }
}

} // verus!
