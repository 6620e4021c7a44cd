use cdylib_shim::trampoline::{displacement, make_trampoline, JUMP_LEN};

#[test]
fn emits_forward_jump_encoding() {
    // slot 0x2000, trampoline 0x1000: displacement 0x2000 - 0x1006 = 0xffa
    let (d, code) = make_trampoline(0x1000, 0x2000).unwrap();
    assert_eq!(d, 0xffa);
    assert_eq!(code, vec![0xff, 0x25, 0xfa, 0x0f, 0x00, 0x00]);
    assert_eq!(code.len(), JUMP_LEN);
}

#[test]
fn emits_backward_jump_encoding() {
    // slot 0x1000, trampoline 0x2000: displacement -0x1006, two's complement
    let (d, code) = make_trampoline(0x2000, 0x1000).unwrap();
    assert_eq!(d, 0xffff_effa);
    assert_eq!(code, vec![0xff, 0x25, 0xfa, 0xef, 0xff, 0xff]);
}

#[test]
fn zero_displacement_jump() {
    let (d, code) = make_trampoline(0x4000, 0x4006).unwrap();
    assert_eq!(d, 0);
    assert_eq!(code, vec![0xff, 0x25, 0x00, 0x00, 0x00, 0x00]);
}

#[test]
fn slot_too_far_for_a_32_bit_field() {
    assert!(make_trampoline(0, 0xffff_ffff_ffff_ffff).is_none());
    assert!(make_trampoline(0xffff_ffff_ffff_ffff, 0).is_none());
    assert!(displacement(0, 0x1_0000_0000).is_none());
}

#[test]
fn extreme_displacements_that_still_fit() {
    // largest forward distance
    let (d, _) = make_trampoline(0, 6 + 0x7fff_ffff).unwrap();
    assert_eq!(d, 0x7fff_ffff);
    // largest backward distance
    let (d, _) = make_trampoline(0x8000_0000, 6).unwrap();
    assert_eq!(d, 0x8000_0000);
}
