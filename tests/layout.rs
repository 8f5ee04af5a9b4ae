use fluid2d::basic_var::BasicVarHD;
use fluid2d::field::Field2;
use fluid2d::grid::GridDims;

#[test]
fn dims_reject_frames_wider_than_grid() {
    assert!(GridDims::new(8, 10, 4).is_none());
    assert!(GridDims::new(10, 8, 4).is_none());
    assert!(GridDims::new(3, 3, 2).is_none());
    assert!(GridDims::new(usize::MAX, 3, 1).is_none());
    let d = GridDims::new(9, 10, 4).unwrap();
    assert_eq!((d.ni, d.nj, d.nb), (9, 10, 4));
    assert_eq!(d.n_cells(), 90);
}

#[test]
fn offset_is_row_major() {
    let d = GridDims::new(12, 10, 4).unwrap();
    assert_eq!(d.offset(0, 0), 0);
    assert_eq!(d.offset(0, 9), 9);
    assert_eq!(d.offset(1, 0), 10);
    assert_eq!(d.offset(11, 9), 119);
}

#[test]
fn line_slot_walks_fields_then_rows_then_columns() {
    let d = GridDims::new(12, 10, 4).unwrap();
    assert_eq!(d.line_slot(0, 4), Some((0, 0, 0)));
    assert_eq!(d.line_slot(13, 4), Some((0, 1, 3)));
    assert_eq!(d.line_slot(119, 4), Some((0, 11, 9)));
    assert_eq!(d.line_slot(120, 4), Some((1, 0, 0)));
    assert_eq!(d.line_slot(479, 4), Some((3, 11, 9)));
    assert_eq!(d.line_slot(480, 4), None);
    assert_eq!(d.line_slot(240, 2), None);
}

#[test]
fn field_get_set() {
    let d = GridDims::new(9, 9, 4).unwrap();
    let mut f = Field2::new(d, 1.5f64);
    assert_eq!(f.get(4, 4), 1.5);
    f.set(4, 5, -2.0);
    assert_eq!(f.get(4, 5), -2.0);
    assert_eq!(f.get(5, 4), 1.5);
    assert_eq!(f.data.len(), 81);
}

fn numbered(d: GridDims) -> Field2<u64> {
    let mut f = Field2::new(d, 0u64);
    for i in 0..d.ni {
        for j in 0..d.nj {
            f.set(i, j, (100 * i + j) as u64);
        }
    }
    f
}

#[test]
fn periodic_in_i_copies_interior_rows_into_ghost_rows() {
    let d = GridDims::new(14, 9, 3).unwrap();
    let mut f = numbered(d);
    f.periodic_in_i();
    for j in 0..9 {
        // low ghosts from the last interior rows 8, 9, 10
        assert_eq!(f.get(0, j), (800 + j) as u64);
        assert_eq!(f.get(1, j), (900 + j) as u64);
        assert_eq!(f.get(2, j), (1000 + j) as u64);
        // high ghosts from the first interior rows 3, 4, 5
        assert_eq!(f.get(11, j), (300 + j) as u64);
        assert_eq!(f.get(12, j), (400 + j) as u64);
        assert_eq!(f.get(13, j), (500 + j) as u64);
        // interior untouched
        for i in 3..11 {
            assert_eq!(f.get(i, j), (100 * i + j) as u64);
        }
        // ghost cells match the interior cells one period away
        for i in 0..3 {
            assert_eq!(f.get(i, j), f.get(14 - 6 + i, j));
            assert_eq!(f.get(14 - 3 + i, j), f.get(3 + i, j));
        }
    }
}

#[test]
fn periodic_in_i_with_narrow_interior() {
    // interior of two rows (4, 5) inside a ghost frame of four
    let d = GridDims::new(10, 9, 4).unwrap();
    let mut f = numbered(d);
    f.periodic_in_i();
    let want_low = [2u64, 3, 4, 5];
    let want_high = [4u64, 5, 4, 5];
    for j in 0..9 {
        for i in 0..4 {
            assert_eq!(f.get(i, j), 100 * want_low[i] + j as u64);
            assert_eq!(f.get(6 + i, j), 100 * want_high[i] + j as u64);
        }
    }
}

#[test]
fn stencils_straddle_interfaces() {
    let d = GridDims::new(14, 12, 3).unwrap();
    let f = numbered(d);
    // interface between interior rows -1 and 0 lies between rows 2 and 3
    assert_eq!(f.stencil_i(0, 0, 3), vec![3, 103, 203, 303, 403, 503]);
    assert_eq!(f.stencil_i(8, 2, 2), vec![905, 1005, 1105, 1205]);
    assert_eq!(f.stencil_j(1, 0, 2), vec![401, 402, 403, 404]);
    assert_eq!(f.stencil_j(0, 6, 3), vec![306, 307, 308, 309, 310, 311]);
}

#[test]
fn basic_var_store_line_fills_fields_in_order() {
    let d = GridDims::new(5, 5, 2).unwrap();
    let mut b = BasicVarHD::new(d, 0.0f64);
    assert!(b.store_line(0, 1.0));
    assert!(b.store_line(25 + 7, 2.0));
    assert!(b.store_line(50 + 24, 3.0));
    assert!(b.store_line(75 + 12, 4.0));
    assert!(!b.store_line(100, 5.0));
    assert_eq!(b.rho.get(0, 0), 1.0);
    assert_eq!(b.u.get(1, 2), 2.0);
    assert_eq!(b.v.get(4, 4), 3.0);
    assert_eq!(b.e.get(2, 2), 4.0);
    assert_eq!(b.rho.get(1, 2), 0.0);
    assert_eq!(b.e.get(0, 0), 0.0);
}
