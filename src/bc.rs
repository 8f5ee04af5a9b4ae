use vstd::prelude::*;
use crate::basic_var::{BasicVarHD, NF};
use crate::field::{periodic_image_i, periodic_source_i};
use crate::scheme::BcType;

verus! {

/// Applies the boundary-condition policy to the ghost cells of the basic
/// variables.
pub struct Boundary {}

impl Boundary {
    pub fn new() -> (r: Boundary)
        ensures
            r == (Boundary {}),
    {
        Boundary {}
    }

    /// Refreshes the ghost cells as `bc_type` prescribes.
    pub fn reflect_bc<T: Copy>(&self, bc_type: BcType, basic: &mut BasicVarHD<T>)
        requires
            old(basic).wf(),
        ensures
            final(basic).wf(),
            bc_type == BcType::PeriodicalInI ==> forall|c: int| 0 <= c < NF
                ==> periodic_image_i(#[trigger] old(basic).component(c), final(basic).component(c)),
    {
        match bc_type {
            BcType::PeriodicalInI => self.bc_periodical_in_i(basic),
        }
    }

    /// Copies, for all four variables, the last interior rows of the first
    /// direction into the low ghost rows and then the first interior rows
    /// into the high ghost rows.  Ghost cells of the second direction are
    /// not refreshed: they keep the values they were given.
    pub fn bc_periodical_in_i<T: Copy>(&self, basic: &mut BasicVarHD<T>)
        requires
            old(basic).wf(),
        ensures
            final(basic).wf(),
            forall|c: int| 0 <= c < NF
                ==> periodic_image_i(#[trigger] old(basic).component(c), final(basic).component(c)),
    {
        basic.rho.periodic_in_i();
        basic.u.periodic_in_i();
        basic.v.periodic_in_i();
        basic.e.periodic_in_i();
    }
}

/// Once the basic variables are made periodic in the first direction, every
/// low ghost cell holds the same four values as the interior cell one
/// interior width above it, and every high ghost cell the same values as the
/// interior cell one interior width below it.  This needs the interior to be
/// at least as wide as the ghost frame, so that those cells are interior ones.
pub proof fn lemma_periodic_ghosts_match_interior<T: Copy>(before: BasicVarHD<T>, after: BasicVarHD<T>)
    requires
        before.wf(),
        before.dims().ni >= 3 * before.dims().nb,
        forall|c: int| 0 <= c < NF
            ==> periodic_image_i(#[trigger] before.component(c), after.component(c)),
    ensures
        forall|c: int, i: int, b: int| 0 <= c < NF && 0 <= i < before.dims().nb && 0 <= b < before.dims().nj
            ==> #[trigger] after.component(c).at(i, b)
                == after.component(c).at(before.dims().ni - 2 * before.dims().nb + i, b),
        forall|c: int, i: int, b: int| 0 <= c < NF && 0 <= i < before.dims().nb && 0 <= b < before.dims().nj
            ==> #[trigger] after.component(c).at(before.dims().ni - before.dims().nb + i, b)
                == after.component(c).at(before.dims().nb + i, b),
{
    let d = before.dims();
    let p = d.ni - 2 * d.nb;
    assert forall|c: int, i: int, b: int| 0 <= c < NF && 0 <= i < d.nb && 0 <= b < d.nj implies
        #[trigger] after.component(c).at(i, b) == after.component(c).at(p + i, b)
        && after.component(c).at(d.ni - d.nb + i, b) == after.component(c).at(d.nb + i, b) by {
        assert(periodic_image_i(before.component(c), after.component(c)));
        assert(before.component(c).dims == d);
        vstd::arithmetic::div_mod::lemma_small_mod(i as nat, p as nat);
        assert(d.contains(i, b));
        assert(d.contains(p + i, b));
        assert(d.contains(d.ni - d.nb + i, b));
        assert(d.contains(d.nb + i, b));
    }
    assert forall|c: int, i: int, b: int| 0 <= c < NF && 0 <= i < d.nb && 0 <= b < d.nj implies
        #[trigger] after.component(c).at(d.ni - d.nb + i, b) == after.component(c).at(d.nb + i, b) by {
        assert(after.component(c).at(i, b) == after.component(c).at(p + i, b));
    }
}

/// Making the basic variables periodic in the first direction changes no
/// cell of a field that holds one value everywhere.
pub proof fn lemma_periodic_keeps_uniform_fields<T: Copy>(before: BasicVarHD<T>, after: BasicVarHD<T>, vals: Seq<T>)
    requires
        before.wf(),
        vals.len() == NF,
        forall|c: int, i: int, j: int| 0 <= c < NF && before.dims().contains(i, j)
            ==> #[trigger] before.component(c).at(i, j) == vals[c],
        forall|c: int| 0 <= c < NF
            ==> periodic_image_i(#[trigger] before.component(c), after.component(c)),
    ensures
        forall|c: int, i: int, j: int| 0 <= c < NF && before.dims().contains(i, j)
            ==> #[trigger] after.component(c).at(i, j) == before.component(c).at(i, j),
{
    let d = before.dims();
    assert forall|c: int, i: int, j: int| 0 <= c < NF && d.contains(i, j) implies
        #[trigger] after.component(c).at(i, j) == before.component(c).at(i, j) by {
        assert(periodic_image_i(before.component(c), after.component(c)));
        assert(before.component(c).dims == d);
        let src = periodic_source_i(d, i);
        if i >= d.ni - d.nb {
            vstd::arithmetic::div_mod::lemma_mod_bound(i - (d.ni - d.nb), d.ni - 2 * d.nb);
        }
        assert(d.contains(src, j));
        assert(before.component(c).at(src, j) == vals[c]);
    }
}

} // verus!
