use winit_wayland_legacy::qvariant::{QVariant, QMETATYPE_BOOL, QVARIANT_SIZE};

#[test]
fn bool_true_bytes() {
    let v = QVariant::from_bool(true);
    assert_eq!(v.type_id, QMETATYPE_BOOL);
    assert_eq!(v.as_bytes(), vec![1, 0, 0, 0, 0, 0, 0, 0, 1, 0, 0, 0, 0, 0, 0, 0]);
}

#[test]
fn bool_false_bytes() {
    let bytes = QVariant::from_bool(false).as_bytes();
    assert_eq!(bytes.len(), QVARIANT_SIZE);
    assert_eq!(bytes, vec![1, 0, 0, 0, 0, 0, 0, 0, 0, 0, 0, 0, 0, 0, 0, 0]);
}

#[test]
fn bytes_are_little_endian() {
    let v = QVariant { type_id: 0x0403_0201, flags: 0x0807_0605, bool_val: -1 };
    assert_eq!(
        v.as_bytes(),
        vec![1, 2, 3, 4, 5, 6, 7, 8, 0xff, 0xff, 0xff, 0xff, 0, 0, 0, 0]
    );
}
