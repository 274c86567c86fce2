//! The template attribute's argument stream: a string literal, optionally
//! followed by one trailing comma, and nothing else.

use display_derive::model::{message_text, ArgToken};
use display_derive::template::parse_template;

fn s(x: &str) -> String {
    x.to_string()
}

fn lit(x: &str) -> ArgToken {
    ArgToken::StrLit(s(x))
}

#[test]
fn struct_format_input_requires_initial_lit_str() {
    let err = parse_template(&vec![], 0)
        .expect_err("empty stream was parsed successfully as StructFormatInput");
    assert_eq!(
        message_text(err.kind),
        "unexpected end of input, expected string literal"
    );
}

#[test]
fn struct_format_input_requires_initial_arg_to_be_lit_str() {
    let err = parse_template(&vec![ArgToken::Other(s("true"))], 0)
        .expect_err("stream `true` was parsed successfully as StructFormatInput");
    assert_eq!(message_text(err.kind), "expected string literal");
}

#[test]
fn struct_format_input_rejects_unexpected_token_after_lit_str() {
    let err = parse_template(&vec![lit("format string"), ArgToken::Other(s("5"))], 0).expect_err(
        "stream `\"format string\" 5` was parsed successfully as StructFormatInput",
    );
    assert_eq!(message_text(err.kind), "unexpected token after string literal");
}

#[test]
fn struct_format_input_parses_lit_str_with_trailing_comma() {
    let format_input = parse_template(&vec![lit("format string"), ArgToken::Comma], 0)
        .expect("stream `\"format string\",` could not be parsed as StructFormatInput");
    assert_eq!(format_input.literal, "format string");
}

#[test]
fn enum_variant_format_input_requires_initial_lit_str() {
    let err = parse_template(&vec![], 0)
        .expect_err("empty stream was parsed successfully as VariantFormatInput");
    assert_eq!(
        message_text(err.kind),
        "unexpected end of input, expected string literal"
    );
}

#[test]
fn enum_variant_format_input_requires_initial_arg_to_be_lit_str() {
    let err = parse_template(&vec![ArgToken::Other(s("true"))], 0)
        .expect_err("stream `true` was parsed successfully as VariantFormatInput");
    assert_eq!(message_text(err.kind), "expected string literal");
}

#[test]
fn enum_variant_format_input_rejects_unexpected_token_after_lit_str() {
    let err = parse_template(&vec![lit("format string"), ArgToken::Other(s("5"))], 0).expect_err(
        "stream `\"format string\" 5` was parsed successfully as VariantFormatInput",
    );
    assert_eq!(message_text(err.kind), "unexpected token after string literal");
}

#[test]
fn enum_variant_format_input_parses_lit_str_with_trailing_comma() {
    let format_input = parse_template(&vec![lit("format string"), ArgToken::Comma], 0)
        .expect("stream `\"format string\",` could not be parsed as VariantFormatInput");
    assert_eq!(format_input.literal, "format string");
}
