use vstd::prelude::*;
use vstd::string::StrSliceExecFns;

verus! {

/// A scheme identifier that names no supported scheme.
#[derive(Clone, Copy, Debug, PartialEq, Eq, Structural)]
pub enum ConfigError {
    UnknownBoundaryCondition,
    UnknownReconstruction,
    UnknownFluxScheme,
}

/// Boundary-condition policy applied after every stage.
#[derive(Clone, Copy, Debug, PartialEq, Eq, Structural)]
pub enum BcType {
    /// Periodic in the first logical direction; the ghost layers of the
    /// second direction keep the values they were given.
    PeriodicalInI,
}

/// Interface reconstruction scheme.
#[derive(Clone, Copy, Debug, PartialEq, Eq, Structural)]
pub enum Reconstruction {
    /// MUSCL with the minmod limiter on the basic variables.
    MusclMinmodBasic,
    /// Fifth-order monotonicity-preserving interpolation on the basic variables.
    Mp5Basic,
}

/// Numerical flux scheme.
#[derive(Clone, Copy, Debug, PartialEq, Eq, Structural)]
pub enum FluxScheme {
    /// Roe flux-difference splitting.
    RoeFds,
}

/// Whether two strings hold the same characters.
fn same_text(a: &str, b: &str) -> (r: bool)
    ensures
        r == (a@ == b@),
{
    let n = a.unicode_len();
    if n != b.unicode_len() {
        return false;
    }
    let mut k: usize = 0;
    while k < n
        invariant
            n == a@.len(),
            n == b@.len(),
            k <= n,
            forall|m: int| 0 <= m < k ==> a@[m] == b@[m],
        decreases n - k,
    {
        if a.get_char(k) != b.get_char(k) {
            return false;
        }
        k = k + 1;
    }
    assert(a@ =~= b@);
    true
}

impl BcType {
    /// Resolves a boundary-condition identifier.
    pub fn from_name(name: &str) -> (r: Result<BcType, ConfigError>)
        ensures
            r == Ok::<BcType, ConfigError>(BcType::PeriodicalInI) <==> name@ == "periodical_in_i"@,
            r == Err::<BcType, ConfigError>(ConfigError::UnknownBoundaryCondition) <==> name@ != "periodical_in_i"@,
    {
        if same_text(name, "periodical_in_i") {
            Ok(BcType::PeriodicalInI)
        } else {
            Err(ConfigError::UnknownBoundaryCondition)
        }
    }
}

impl Reconstruction {
    /// Resolves a reconstruction identifier.
    pub fn from_name(name: &str) -> (r: Result<Reconstruction, ConfigError>)
        ensures
            r == Ok::<Reconstruction, ConfigError>(Reconstruction::MusclMinmodBasic) <==> name@ == "MUSCL_minmod_basic"@,
            r == Ok::<Reconstruction, ConfigError>(Reconstruction::Mp5Basic) <==> name@ == "MP5_basic"@,
            r == Err::<Reconstruction, ConfigError>(ConfigError::UnknownReconstruction)
                <==> (name@ != "MUSCL_minmod_basic"@ && name@ != "MP5_basic"@),
    {
        proof {
            reveal_strlit("MUSCL_minmod_basic");
            reveal_strlit("MP5_basic");
            assert("MUSCL_minmod_basic"@.len() != "MP5_basic"@.len());
        }
        if same_text(name, "MUSCL_minmod_basic") {
            Ok(Reconstruction::MusclMinmodBasic)
        } else if same_text(name, "MP5_basic") {
            Ok(Reconstruction::Mp5Basic)
        } else {
            Err(ConfigError::UnknownReconstruction)
        }
    }

    /// Number of cells the stencil reaches on each side of an interface.
    pub open spec fn half_width_spec(self) -> nat {
        match self {
            Reconstruction::MusclMinmodBasic => 2,
            Reconstruction::Mp5Basic => 3,
        }
    }

    /// Number of cells the stencil reaches on each side of an interface:
    /// MUSCL reads four cells, MP5 six.
    pub fn half_width(&self) -> (r: usize)
        ensures
            r == self.half_width_spec(),
    {
        match self {
            Reconstruction::MusclMinmodBasic => 2,
            Reconstruction::Mp5Basic => 3,
        }
    }
}

impl FluxScheme {
    /// Resolves a flux-scheme identifier.
    pub fn from_name(name: &str) -> (r: Result<FluxScheme, ConfigError>)
        ensures
            r == Ok::<FluxScheme, ConfigError>(FluxScheme::RoeFds) <==> name@ == "Roe_FDS"@,
            r == Err::<FluxScheme, ConfigError>(ConfigError::UnknownFluxScheme) <==> name@ != "Roe_FDS"@,
    {
        if same_text(name, "Roe_FDS") {
            Ok(FluxScheme::RoeFds)
        } else {
            Err(ConfigError::UnknownFluxScheme)
        }
    }
}

} // verus!
