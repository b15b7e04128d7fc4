//! The letter notation of page attributes.

use ch4_kernel::flags::{build_flags, flags_from_bytes, parse_flags, VmFlags};

#[test]
fn letters_have_their_bits() {
    for (text, bits) in [
        ("V", 1),
        ("R", 2),
        ("W", 4),
        ("X", 8),
        ("U", 16),
        ("G", 32),
        ("A", 64),
        ("D", 128),
        ("", 0),
        ("DAGUXWRV", 255),
    ] {
        assert_eq!(build_flags(text), VmFlags { bits });
        assert_eq!(parse_flags(text), Ok(VmFlags { bits }));
        assert_eq!(build_flags(&text.to_ascii_lowercase()), VmFlags { bits });
    }
}

#[test]
fn kernel_texts() {
    assert_eq!(build_flags("U_WRV").bits, 16 + 4 + 2 + 1);
    assert_eq!(build_flags("X_RV").bits, 8 + 2 + 1);
    assert_eq!(build_flags("__RV").bits, 3);
    assert_eq!(build_flags("_WRV").bits, 7);
    assert_eq!(build_flags("__G_XWRV").bits, 32 + 15);
    assert_eq!(build_flags("U_W_V").bits, 21);
    assert_eq!(build_flags("RV").bits, 3);
    assert_eq!(build_flags("W_V").bits, 5);
    assert_eq!(build_flags("U_RV").bits, 19);
}

#[test]
fn filler_order_and_repetition_do_not_matter() {
    assert_eq!(build_flags("vRw"), build_flags("WRV"));
    assert_eq!(build_flags("VVVV"), build_flags("V"));
    assert_eq!(build_flags("1-V?\u{e9}\u{4f60} zR"), build_flags("RV"));
    assert_eq!(flags_from_bytes(&[0x55, 0x5f, 0xd6]), VmFlags { bits: 16 });
}
