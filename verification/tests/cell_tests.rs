use affine_algebra::cells::Cell;

#[test]
fn named_cells_to_column() {
    // The full conversion table: each named slot against its column-major
    // index, which is the transpose of its row-major position.
    let table = [
        (Cell::I1, 0u8),
        (Cell::J1, 4),
        (Cell::K1, 8),
        (Cell::W1, 12),
        (Cell::I2, 1),
        (Cell::J2, 5),
        (Cell::K2, 9),
        (Cell::W2, 13),
        (Cell::I3, 2),
        (Cell::J3, 6),
        (Cell::K3, 10),
        (Cell::W3, 14),
        (Cell::I4, 3),
        (Cell::J4, 7),
        (Cell::K4, 11),
        (Cell::W4, 15),
    ];
    for (cell, expected) in table {
        assert_eq!(cell.to_column(), Cell::Column(expected));
    }
}

#[test]
fn row_cells_to_column() {
    for i in 0..16u8 {
        assert_eq!(Cell::Row(i).to_column(), Cell::Column((i * 4 % 16) + (i / 4)));
    }
}

#[test]
fn column_cells_to_column() {
    for i in 0..16u8 {
        assert_eq!(Cell::Column(i).to_column(), Cell::Column(i));
    }
}

#[test]
fn row_to_column_twice_returns() {
    // Converting a row-major index to column-major and treating the result
    // as a row-major index again lands back on the original index: the
    // transpose relation is an involution.
    for i in 0..16u8 {
        let first = Cell::Row(i).to_column();
        if let Cell::Column(j) = first {
            assert_eq!(Cell::Row(j).to_column(), Cell::Column(i));
        } else {
            panic!("to_column did not return a Column cell");
        }
    }
}
