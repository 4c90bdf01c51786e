use sap_ast::number::{
    helper_parse_int, parse_exponent_part, BinInt, ExponentPart, Float1, Float2, Float3, Int,
};
use sap_ast::strings::{
    handle_escape, EscapedStringFragment, NormalString, NormalStringFragment, NormalStringInner,
    RawString, RawStringInner, SapString,
};

#[test]
fn test_bin_int() {
    assert_eq!(helper_parse_int("0b10_10"), 10);
}

#[test]
fn test_oct_int() {
    assert_eq!(helper_parse_int("0o10_10"), 520);
}

#[test]
fn test_hex_int() {
    assert_eq!(helper_parse_int("0x10_10"), 4112);
}

#[test]
fn test_dec_int() {
    assert_eq!(helper_parse_int("10_10"), 1010);
}

#[test]
fn test_int() {
    let int = Int::BinInt(BinInt { value: helper_parse_int("0b10_10") });
    match int {
        Int::BinInt(bin_int) => {
            assert_eq!(bin_int.value, 10);
        }
        _ => panic!("wrong int type"),
    }
}

#[test]
fn test_int_value_ignores_radix() {
    assert_eq!(Int::BinInt(BinInt { value: 10 }).value(), 10);
    assert_eq!(helper_parse_int("0XfF"), 255);
    assert_eq!(helper_parse_int("0O7"), 7);
    assert_eq!(helper_parse_int("0B1"), 1);
}

#[test]
fn test_exponent_part() {
    assert_eq!(parse_exponent_part("e-10"), -10);
    assert_eq!(parse_exponent_part("e+10"), 10);
    assert_eq!(parse_exponent_part("e10"), 10);
}

#[test]
fn test_float1() {
    let float1 = Float1 {
        value: Int::BinInt(BinInt { value: helper_parse_int("0b10_10") }),
        exponent_part: ExponentPart { value: parse_exponent_part("e-10") },
    };
    assert_eq!(float1.value.value(), 10);
    assert_eq!(float1.exponent_part.value, -10);
}

#[test]
fn test_float2() {
    let float2 = Float2 {
        value: Int::BinInt(BinInt { value: helper_parse_int("0b10_10") }),
        sub: Int::BinInt(BinInt { value: helper_parse_int("0b10") }),
        exponent_part: Some(ExponentPart { value: -10 }),
    };
    assert_eq!(float2.value.value(), 10);
    assert_eq!(float2.sub.value(), 2);
    assert_eq!(float2.exponent_part.unwrap().value, -10);
}

#[test]
fn test_float3() {
    let float3 = Float3 {
        sub: Int::BinInt(BinInt { value: helper_parse_int("0b10") }),
        exponent_part: Some(ExponentPart { value: -10 }),
    };
    assert_eq!(float3.sub.value(), 2);
    assert_eq!(float3.exponent_part.unwrap().value, -10);
}

#[test]
fn test_handle_escape() {
    let escapes = [
        ("\\ue000", "\u{e000}"),
        (r"\a", "\x07"),
        (r"\b", "\x08"),
        (r"\e", "\x1b"),
        (r"\f", "\x0c"),
        (r#"\\"#, "\\"),
        (r#"\\x65"#, "\\x65"),
        (r"\n", "\x0a"),
        (r#"\""#, "\""),
        (r"\x65", "e"),
        (r"\U0010ffff", "\u{10ffff}"),
    ];
    for (e, r) in escapes {
        assert_eq!(handle_escape(e.to_string()), r);
    }
}

#[test]
fn test_handle_escape_octal() {
    assert_eq!(handle_escape(r"\101".to_string()), "A");
    assert_eq!(handle_escape(r"\7".to_string()), "\x07".to_string());
}

#[test]
fn test_parse_normal_string() {
    // The fragments of the literal `"hello\nworld!"`.
    let normal_string = NormalString {
        inner: vec![
            NormalStringInner::NormalStringFragment(NormalStringFragment {
                value: "hello".to_string(),
            }),
            NormalStringInner::EscapedStringFragment(EscapedStringFragment {
                value: handle_escape(r"\n".to_string()),
            }),
            NormalStringInner::NormalStringFragment(NormalStringFragment {
                value: "world!".to_string(),
            }),
        ],
    };
    assert_eq!(normal_string.value(), "hello\nworld!");
}

#[test]
fn test_parse_raw_string() {
    let body = "hello\n        #\"#\n        \\nworld!";
    let raw_string = RawString { inner: RawStringInner { value: body.to_string() } };
    assert_eq!(SapString::RawString(raw_string).value(), body);
}
