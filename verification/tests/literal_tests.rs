use foreign_dispatch::literal::{format_radix, render_literal, Literal, Radix};

#[test]
fn booleans_render_python_style() {
    assert_eq!(render_literal(&Literal::Boolean(true)), "True");
    assert_eq!(render_literal(&Literal::Boolean(false)), "False");
}

#[test]
fn strings_are_quoted() {
    assert_eq!(render_literal(&Literal::Text("alice".to_string())), "\"alice\"");
    assert_eq!(render_literal(&Literal::Text(String::new())), "\"\"");
}

#[test]
fn signed_decimal() {
    assert_eq!(render_literal(&Literal::Int(17, Radix::Decimal)), "17");
    assert_eq!(render_literal(&Literal::Int(0, Radix::Decimal)), "0");
    assert_eq!(render_literal(&Literal::Int(-17, Radix::Decimal)), "-17");
    assert_eq!(
        render_literal(&Literal::Int(i64::MIN, Radix::Decimal)),
        "-9223372036854775808"
    );
    assert_eq!(
        render_literal(&Literal::Int(i64::MAX, Radix::Decimal)),
        "9223372036854775807"
    );
}

#[test]
fn signed_octal_is_wrapped_for_python() {
    assert_eq!(render_literal(&Literal::Int(15, Radix::Octal)), "int(0o17)");
    assert_eq!(
        render_literal(&Literal::Int(-1, Radix::Octal)),
        "int(0o1777777777777777777777)"
    );
}

#[test]
fn signed_hexadecimal_shows_bit_pattern() {
    assert_eq!(render_literal(&Literal::Int(255, Radix::Hexadecimal)), "0xff");
    assert_eq!(
        render_literal(&Literal::Int(-1, Radix::Hexadecimal)),
        "0xffffffffffffffff"
    );
}

#[test]
fn unsigned_radixes() {
    assert_eq!(render_literal(&Literal::UInt(8, Radix::Octal)), "0o10");
    assert_eq!(render_literal(&Literal::UInt(42, Radix::Decimal)), "42");
    assert_eq!(render_literal(&Literal::UInt(255, Radix::Hexadecimal)), "0xff");
    assert_eq!(render_literal(&Literal::UInt(0, Radix::Hexadecimal)), "0x0");
    assert_eq!(
        render_literal(&Literal::UInt(u64::MAX, Radix::Decimal)),
        "18446744073709551615"
    );
}

#[test]
fn float_keeps_source_text() {
    assert_eq!(render_literal(&Literal::Float("1.25e3".to_string())), "1.25e3");
    assert_eq!(render_literal(&Literal::Float("0.0".to_string())), "0.0");
}

#[test]
fn radix_digits_match_formatter() {
    for n in [0u64, 1, 7, 8, 9, 10, 15, 16, 255, 1000, u64::MAX] {
        assert_eq!(format_radix(n, 8), format!("{:o}", n));
        assert_eq!(format_radix(n, 10), format!("{}", n));
        assert_eq!(format_radix(n, 16), format!("{:x}", n));
    }
}
