use hiqlite_helpers::codec::{
    deserialize_ids, deserialize_leader, deserialize_u64, serialize_ids, serialize_leader,
    serialize_u64, CodecError,
};

#[test]
fn u64_is_eight_little_endian_bytes() {
    assert_eq!(serialize_u64(0x0102_0304_0506_0708), vec![8, 7, 6, 5, 4, 3, 2, 1]);
    assert_eq!(serialize_u64(0), vec![0; 8]);
}

#[test]
fn u64_round_trip() {
    for x in [0u64, 1, 255, 256, u64::MAX] {
        assert_eq!(deserialize_u64(&serialize_u64(x)), Ok(x));
    }
}

#[test]
fn u64_reads_only_the_first_eight_bytes() {
    assert_eq!(deserialize_u64(&[1, 0, 0, 0, 0, 0, 0, 0, 9, 9]), Ok(1));
}

#[test]
fn u64_short_input_is_truncated() {
    assert_eq!(deserialize_u64(&[1, 2, 3]), Err(CodecError::Truncated));
    assert_eq!(deserialize_u64(&[]), Err(CodecError::Truncated));
}

#[test]
fn ids_layout() {
    let bytes = serialize_ids(&vec![1, 2]);
    assert_eq!(
        bytes,
        vec![2, 0, 0, 0, 0, 0, 0, 0, 1, 0, 0, 0, 0, 0, 0, 0, 2, 0, 0, 0, 0, 0, 0, 0]
    );
    assert_eq!(serialize_ids(&vec![]), vec![0; 8]);
}

#[test]
fn ids_round_trip() {
    for v in [vec![], vec![7u64], vec![1, 2, 3], vec![u64::MAX, 0, 42]] {
        assert_eq!(deserialize_ids(&serialize_ids(&v)), Ok(v));
    }
}

#[test]
fn ids_encoding_is_stable() {
    let v = vec![3u64, 1, 4, 1, 5];
    assert_eq!(serialize_ids(&v), serialize_ids(&v));
}

#[test]
fn ids_missing_items_are_truncated() {
    let mut bytes = serialize_ids(&vec![1, 2, 3]);
    bytes.pop();
    assert_eq!(deserialize_ids(&bytes), Err(CodecError::Truncated));
    assert_eq!(deserialize_ids(&[3, 0, 0]), Err(CodecError::Truncated));
}

#[test]
fn leader_layout() {
    assert_eq!(serialize_leader(None), vec![0]);
    assert_eq!(serialize_leader(Some(2)), vec![1, 2, 0, 0, 0, 0, 0, 0, 0]);
}

#[test]
fn leader_round_trip() {
    for o in [None, Some(0u64), Some(9), Some(u64::MAX)] {
        assert_eq!(deserialize_leader(&serialize_leader(o)), Ok(o));
    }
}

#[test]
fn leader_bad_tag() {
    assert_eq!(deserialize_leader(&[2, 0, 0, 0, 0, 0, 0, 0, 0]), Err(CodecError::BadTag));
}

#[test]
fn leader_truncated() {
    assert_eq!(deserialize_leader(&[]), Err(CodecError::Truncated));
    assert_eq!(deserialize_leader(&[1, 5, 0]), Err(CodecError::Truncated));
}
