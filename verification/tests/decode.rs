use jrs::decode::{decode_value, element_count, int_words_to_read};
use jrs::value::{JData, JVal};

#[test]
fn decode_int_scalar() {
    let r = decode_value(4, 0, vec![], vec![7]);
    assert_eq!(
        r,
        JVal { rank: 0, shape: vec![], data: JData::Int(7) }
    );
}

#[test]
fn decode_int_vector() {
    let r = decode_value(4, 1, vec![4], vec![10, -20, 30, -40]);
    assert_eq!(
        r,
        JVal { rank: 1, shape: vec![4], data: JData::IntV(vec![10, -20, 30, -40]) }
    );
}

#[test]
fn decode_int_matrix_of_squares() {
    // the squares of 0..5, shaped 2 by 3
    let r = decode_value(4, 2, vec![2, 3], vec![0, 1, 4, 9, 16, 25]);
    assert_eq!(
        r,
        JVal { rank: 2, shape: vec![2, 3], data: JData::IntV(vec![0, 1, 4, 9, 16, 25]) }
    );
}

#[test]
fn decode_empty_axis() {
    let r = decode_value(4, 2, vec![0, 5], vec![]);
    assert_eq!(
        r,
        JVal { rank: 2, shape: vec![0, 5], data: JData::IntV(vec![]) }
    );
}

#[test]
fn decode_boxed_leaves_children_undecoded() {
    let r = decode_value(32, 1, vec![2], vec![]);
    assert_eq!(
        r,
        JVal { rank: 1, shape: vec![2], data: JData::Boxed(vec![]) }
    );
}

#[test]
fn decode_literal_tag_is_unrecognized() {
    // the by-reference decoder dispatches only integer and boxed tags
    let r = decode_value(2, 1, vec![3], vec![]);
    assert_eq!(
        r,
        JVal { rank: 1, shape: vec![3], data: JData::Other }
    );
}

#[test]
fn decode_unknown_tag_is_unrecognized() {
    let r = decode_value(7, 0, vec![], vec![]);
    assert_eq!(
        r,
        JVal { rank: 0, shape: vec![], data: JData::Other }
    );
}

#[test]
fn decode_round_trip_scalar_vector_matrix() {
    // rank, shape and elements survive a bind-then-describe round trip
    let cases: Vec<(i64, Vec<i64>, Vec<i64>)> = vec![
        (0, vec![], vec![42]),
        (1, vec![3], vec![5, 6, 7]),
        (2, vec![2, 3], vec![0, 1, 4, 9, 16, 25]),
    ];
    for (rank, shape, data) in cases {
        let r = decode_value(4, rank, shape.clone(), data.clone());
        assert_eq!(r.rank, rank);
        assert_eq!(r.shape, shape);
        if rank == 0 {
            assert_eq!(r.data, JData::Int(data[0]));
        } else {
            assert_eq!(r.data, JData::IntV(data));
        }
    }
}

#[test]
fn decode_twice_gives_equal_values() {
    // an unchanged binding reads back equal both times
    let a = decode_value(4, 2, vec![2, 2], vec![1, 2, 3, 4]);
    let b = decode_value(4, 2, vec![2, 2], vec![1, 2, 3, 4]);
    assert_eq!(a, b);
}

#[test]
fn element_count_scalar_is_one() {
    assert_eq!(element_count(&vec![]), Some(1));
}

#[test]
fn element_count_multiplies_extents() {
    assert_eq!(element_count(&vec![2, 3]), Some(6));
    assert_eq!(element_count(&vec![4]), Some(4));
    assert_eq!(element_count(&vec![2, 3, 4]), Some(24));
}

#[test]
fn element_count_zero_extent_is_zero() {
    assert_eq!(element_count(&vec![0, 5]), Some(0));
    assert_eq!(element_count(&vec![5, 0, 7]), Some(0));
}

#[test]
fn element_count_overflow_is_none() {
    assert_eq!(element_count(&vec![i64::MAX, i64::MAX]), None);
}

#[test]
fn words_to_read_only_for_integer_tag() {
    assert_eq!(int_words_to_read(4, 6), 6);
    assert_eq!(int_words_to_read(2, 6), 0);
    assert_eq!(int_words_to_read(32, 6), 0);
    assert_eq!(int_words_to_read(7, 6), 0);
}
