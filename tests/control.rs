use fluid2d::basic_var::BasicVarHD;
use fluid2d::bc::Boundary;
use fluid2d::grid::GridDims;
use fluid2d::marching::RkStage;
use fluid2d::scheme::{BcType, ConfigError, FluxScheme, Reconstruction};
use fluid2d::settings::{remaining_secs, split_hms, SetStructEuler};

#[test]
fn scheme_names_resolve() {
    assert_eq!(BcType::from_name("periodical_in_i"), Ok(BcType::PeriodicalInI));
    assert_eq!(Reconstruction::from_name("MUSCL_minmod_basic"), Ok(Reconstruction::MusclMinmodBasic));
    assert_eq!(Reconstruction::from_name("MP5_basic"), Ok(Reconstruction::Mp5Basic));
    assert_eq!(FluxScheme::from_name("Roe_FDS"), Ok(FluxScheme::RoeFds));
}

#[test]
fn unknown_scheme_names_are_errors() {
    assert_eq!(BcType::from_name("periodical_in_j"), Err(ConfigError::UnknownBoundaryCondition));
    assert_eq!(BcType::from_name(""), Err(ConfigError::UnknownBoundaryCondition));
    assert_eq!(Reconstruction::from_name("MP5"), Err(ConfigError::UnknownReconstruction));
    assert_eq!(Reconstruction::from_name("mp5_basic"), Err(ConfigError::UnknownReconstruction));
    assert_eq!(FluxScheme::from_name("Roe_FDS "), Err(ConfigError::UnknownFluxScheme));
}

#[test]
fn stencil_half_widths() {
    assert_eq!(Reconstruction::MusclMinmodBasic.half_width(), 2);
    assert_eq!(Reconstruction::Mp5Basic.half_width(), 3);
}

fn numbered(d: GridDims) -> BasicVarHD<f64> {
    let mut b = BasicVarHD::new(d, 0.0f64);
    for i in 0..d.ni {
        for j in 0..d.nj {
            let x = (100 * i + j) as f64;
            b.rho.set(i, j, 1.0 + x);
            b.u.set(i, j, 2.0 + x);
            b.v.set(i, j, 3.0 + x);
            b.e.set(i, j, 4.0 + x);
        }
    }
    b
}

#[test]
fn periodic_bc_on_all_four_variables() {
    let d = GridDims::new(16, 11, 4).unwrap();
    let mut b = numbered(d);
    let bound = Boundary::new();
    bound.bc_periodical_in_i(&mut b);
    for j in 0..11 {
        for i in 0..4 {
            for f in [&b.rho, &b.u, &b.v, &b.e] {
                assert_eq!(f.get(i, j), f.get(16 - 8 + i, j));
                assert_eq!(f.get(16 - 4 + i, j), f.get(4 + i, j));
            }
        }
        assert_eq!(b.rho.get(0, j), 1.0 + (800 + j) as f64);
        assert_eq!(b.e.get(15, j), 4.0 + (700 + j) as f64);
    }
    // ghost columns of the second direction keep their values
    assert_eq!(b.u.get(6, 0), 2.0 + 600.0);
    assert_eq!(b.v.get(6, 10), 3.0 + 610.0);
}

#[test]
fn reflect_bc_applies_periodic_policy() {
    let d = GridDims::new(9, 9, 2).unwrap();
    let mut a = numbered(d);
    let mut b = numbered(d);
    let bound = Boundary::new();
    bound.reflect_bc(BcType::from_name("periodical_in_i").unwrap(), &mut a);
    bound.bc_periodical_in_i(&mut b);
    assert_eq!(a.rho.data, b.rho.data);
    assert_eq!(a.e.data, b.e.data);
    assert_eq!(a.u.get(0, 3), 2.0 + 503.0);
}

#[test]
fn rk_stages_run_three_times_with_convex_weights() {
    let mut s = RkStage::first();
    assert_eq!(s, RkStage::First);
    assert_eq!(s.weights(), (0, 1, 1));
    s = s.next().unwrap();
    assert_eq!(s.weights(), (3, 1, 4));
    s = s.next().unwrap();
    assert_eq!(s, RkStage::Third);
    assert_eq!(s.weights(), (1, 2, 3));
    assert_eq!(s.next(), None);
}

#[test]
fn hms_split() {
    assert_eq!(split_hms(0), (0, 0, 0));
    assert_eq!(split_hms(59), (0, 0, 59));
    assert_eq!(split_hms(3725), (1, 2, 5));
    assert_eq!(split_hms(360000), (100, 0, 0));
}

#[test]
fn remaining_time_estimate() {
    assert_eq!(remaining_secs(30, 100, 10), Some(270));
    assert_eq!(remaining_secs(7, 3, 3), Some(0));
    assert_eq!(remaining_secs(10, 4, 3), Some(3));
    assert_eq!(remaining_secs(u64::MAX, 3, 1), None);
}

#[test]
fn settings_keep_the_grid() {
    let d = GridDims::new(408, 408, 4).unwrap();
    let s = SetStructEuler::new(d);
    assert_eq!(s.dims, d);
}

#[test]
fn periodic_bc_keeps_uniform_state() {
    let d = GridDims::new(12, 12, 4).unwrap();
    let mut b = BasicVarHD::new(d, 0.0f64);
    for i in 0..12 {
        for j in 0..12 {
            b.rho.set(i, j, 1.0);
            b.u.set(i, j, 0.0);
            b.v.set(i, j, 0.0);
            b.e.set(i, j, 2.5);
        }
    }
    Boundary::new().bc_periodical_in_i(&mut b);
    assert!(b.rho.data.iter().all(|x| *x == 1.0));
    assert!(b.u.data.iter().all(|x| *x == 0.0));
    assert!(b.v.data.iter().all(|x| *x == 0.0));
    assert!(b.e.data.iter().all(|x| *x == 2.5));
}
