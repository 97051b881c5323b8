use clu_full_transmute::size_guard;
use clu_full_transmute::sizes_match;
use clu_full_transmute::TransmuteErrKind;

#[test]
fn sizes_match_equal_types() {
    assert!(sizes_match::<u32, i32>());
    assert!(sizes_match::<u32, [u8; 4]>());
    assert!(sizes_match::<String, Vec<u8>>());
}

#[test]
fn sizes_match_unequal_types() {
    assert!(!sizes_match::<u8, u32>());
    assert!(!sizes_match::<[u8; 3], u32>());
}

#[test]
fn size_guard_passes_value_through() {
    let r = size_guard::<u64, i64>(123_456);
    assert_eq!(r.ok(), Some(123_456));
}

#[test]
fn size_guard_reports_both_sizes() {
    let r = size_guard::<[u8; 3], u32>([0x01, 0x02, 0x03]);
    match r {
        Ok(_) => panic!("a three byte array is no four byte integer"),
        Err(e) => {
            assert_eq!(e.kind(), TransmuteErrKind::SizeMismatch { atype: 3, btype: 4 });
            assert!(e.kind().is_size_mismatch());
            assert_eq!(e.into_data(), [0x01, 0x02, 0x03]);
        }
    }
}

#[test]
fn size_guard_error_keeps_value_accessible() {
    let r = size_guard::<u8, u16>(9);
    match r {
        Ok(_) => panic!("one byte is no two"),
        Err(mut e) => {
            assert_eq!(*e.as_data(), 9);
            *e.as_mut_data() = 11;
            assert_eq!(e.into_data(), 11);
        }
    }
}
