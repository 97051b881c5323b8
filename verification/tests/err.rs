use clu_full_transmute::TransmuteErr;
use clu_full_transmute::TransmuteErrKind;

const MESSAGE_3_4: &str = "Invalid transmute: attempted to reinterpret type A (3 bytes) as incompatible type B (4 bytes). Sizes must match exactly.";

#[test]
fn kind_records_both_sizes() {
    let k = TransmuteErrKind::size_mismatch(3, 4);
    assert_eq!(k, TransmuteErrKind::SizeMismatch { atype: 3, btype: 4 });
    assert!(k.is_size_mismatch());
}

#[test]
fn kind_description_names_both_sizes() {
    let k = TransmuteErrKind::size_mismatch(3, 4);
    assert_eq!(k.as_description(), MESSAGE_3_4);
}

#[test]
fn err_new_keeps_kind_and_data() {
    let e = TransmuteErr::new(TransmuteErrKind::size_mismatch(1, 8), 42u8);
    assert_eq!(e.kind(), TransmuteErrKind::SizeMismatch { atype: 1, btype: 8 });
    assert_eq!(e.into_data(), 42);
}

#[test]
fn err_size_mismatch_shortcut() {
    let e = TransmuteErr::size_mismatch(2, 16, 7u16);
    assert_eq!(e.into_kind(), TransmuteErrKind::SizeMismatch { atype: 2, btype: 16 });
}

#[test]
fn err_data_accessors() {
    let mut e = TransmuteErr::size_mismatch(1, 2, 5u8);
    assert_eq!(*e.as_data(), 5);
    *e.as_mut_data() = 6;
    assert_eq!(*e.as_data(), 6);
    assert_eq!(e.into_data(), 6);
}

#[test]
fn err_description_names_both_sizes() {
    let e = TransmuteErr::size_mismatch(3, 4, [0u8; 3]);
    assert_eq!(e.as_description(), MESSAGE_3_4);
}

#[test]
fn description_renders_large_sizes() {
    let k = TransmuteErrKind::size_mismatch(4_294_967_295, 0);
    assert_eq!(
        k.as_description(),
        "Invalid transmute: attempted to reinterpret type A (4294967295 bytes) as incompatible type B (0 bytes). Sizes must match exactly."
    );
}
