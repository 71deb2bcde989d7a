use wavefield::{Array2D, Cross};

#[test]
fn dimensions_are_kept() {
    let g = Array2D::new(3, 2, 7u8);
    assert_eq!(g.width(), 3);
    assert_eq!(g.height(), 2);
    assert_eq!(g.as_slice(), &[7u8; 6][..]);
}

#[test]
fn get_outside_is_none() {
    let g = Array2D::new(3, 2, 1i32);
    assert_eq!(g.get(-1, 0), None);
    assert_eq!(g.get(0, -1), None);
    assert_eq!(g.get(3, 0), None);
    assert_eq!(g.get(0, 2), None);
    assert_eq!(g.get(isize::MIN, isize::MAX), None);
    assert_eq!(g.get(2, 1), Some(&1));
    assert_eq!(g.get(0, 0), Some(&1));
}

#[test]
fn get_mut_outside_is_none() {
    let mut g = Array2D::new(2, 2, 0i32);
    assert!(g.get_mut(-1, 1).is_none());
    assert!(g.get_mut(1, -1).is_none());
    assert!(g.get_mut(2, 1).is_none());
    assert!(g.get_mut(1, 2).is_none());
    assert_eq!(g.as_slice(), &[0, 0, 0, 0][..]);
}

#[test]
fn write_then_read_round_trip() {
    let mut g = Array2D::new(4, 3, 0i32);
    *g.get_mut(2, 1).unwrap() = 42;
    assert_eq!(g.get(2, 1), Some(&42));
    assert_eq!(g.as_slice()[2 + 4 * 1], 42);
    let others: i32 = g.as_slice().iter().sum();
    assert_eq!(others, 42);
}

#[test]
fn storage_is_row_major() {
    let mut g = Array2D::new(3, 2, 0usize);
    for y in 0..2 {
        for x in 0..3 {
            g.set(x, y, 10 * y + x);
        }
    }
    assert_eq!(g.as_slice(), &[0, 1, 2, 10, 11, 12][..]);
    assert_eq!(&*g, &[0, 1, 2, 10, 11, 12][..]);
    assert_eq!(g.get(1, 1), Some(&11));
}

#[test]
fn get_or_defaults_outside() {
    let g = Array2D::filled(2, 2, 5i32);
    assert_eq!(g.get_or(1, 1, -1), 5);
    assert_eq!(g.get_or(2, 1, -1), -1);
    assert_eq!(g.get_or(-1, 0, -1), -1);
}

#[test]
fn cross_reads_neighbours_with_boundary() {
    let mut g = Array2D::filled(3, 3, 0i32);
    for i in 0..9 {
        g.as_mut_slice()[i] = i as i32 + 1;
    }
    assert_eq!(g.cross(1, 1, 0), Cross { left: 4, right: 6, up: 2, down: 8 });
    assert_eq!(g.cross(0, 0, -9), Cross { left: -9, right: 2, up: -9, down: 4 });
    assert_eq!(g.cross(2, 2, -9), Cross { left: 8, right: -9, up: 6, down: -9 });
}

#[test]
fn deref_mut_writes_by_flat_index() {
    let mut g = Array2D::new(2, 2, 0u8);
    g[3] = 9;
    assert_eq!(g.get(1, 1), Some(&9));
}
