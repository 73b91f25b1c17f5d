//! Tests of the protected module.

use x86emu::protected::Descriptor;

#[test]
fn descriptor_base_is_assembled_from_three_fields() {
    // base = 0xC0FF_1234, limit = 0x000F_FFFF, present code segment,
    // granularity and D/B set. Fields are scattered across the 8 bytes,
    // and putting any of them in the wrong place still yields a plausible
    // number -- which is why this is pinned.
    let raw: u64 = 0x0000_FFFF                    // limit 15:0
        | (0x1234u64 << 16)                       // base 15:0
        | (0xFFu64 << 32)                         // base 23:16
        | (0x9Au64 << 40)                         // access: present, code
        | (0xCFu64 << 48)                         // limit 19:16 + G + D/B
        | (0xC0u64 << 56);                        // base 31:24
    let d = Descriptor::parse(raw);
    assert_eq!(d.base, 0xC0FF_1234);
    assert_eq!(d.limit, 0xFFFF_FFFF);
    assert!(d.present());
    assert!(d.is_code());
    assert_eq!(d.dpl(), 0);
    assert!(d.g);
    assert!(d.d_b);
}

#[test]
fn dpl_is_read_from_the_access_byte() {
    // A ring-3 data segment: access byte 0xF2 (present, DPL 3, data, RW).
    let raw: u64 = 0xF2u64 << 40;
    assert_eq!(Descriptor::parse(raw).dpl(), 3);
}
