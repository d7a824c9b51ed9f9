use bluepill::bits::{get_field, set_field};

#[test]
fn set_field_replaces_only_the_field() {
    assert_eq!(set_field(0xffff_ffff, 18, 0xf, 7), 0xffdf_ffff);
    assert_eq!(set_field(0, 8, 0x7, 4), 0x400);
    assert_eq!(set_field(0x30, 0, 0x7, 2), 0x32);
    // only the field's bits of the new value are used
    assert_eq!(set_field(0, 4, 0x3, 0xff), 0x30);
}

#[test]
fn get_field_reads_back_set_field() {
    for v in [0u32, 0x1234_5678, 0xffff_ffff] {
        assert_eq!(get_field(set_field(v, 18, 0xf, 9), 18, 0xf), 9);
        assert_eq!(get_field(set_field(v, 18, 0xf, 9), 0, 0x3), get_field(v, 0, 0x3));
    }
}
