//! Tests of the modrm module.

use x86emu::modrm::ModRm;

#[test]
fn decode_fields() {
    let m = ModRm::from_byte(0b11_010_001);
    assert_eq!(m.mod_field, 3);
    assert_eq!(m.reg, 0b010);
    assert_eq!(m.rm, 0b001);
    assert!(m.is_reg());
}
