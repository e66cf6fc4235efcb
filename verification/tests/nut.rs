use nuttty::nut::{parse_tagged_line, set_var_line};
use nuttty::quote::{quote_value, unquote};

#[test]
fn unquote_plain_and_quoted() {
    assert_eq!(unquote("plain"), "plain");
    assert_eq!(unquote("\"quoted value\""), "quoted value");
    assert_eq!(unquote("  \"padded\"  "), "padded");
}

#[test]
fn unquote_escapes() {
    assert_eq!(unquote(r#""a \"b\" c""#), r#"a "b" c"#);
    assert_eq!(unquote(r#""back\\slash""#), r"back\slash");
}

#[test]
fn unquote_unbalanced_quote_kept() {
    // A lone opening quote is not a quoted value; keep it verbatim.
    assert_eq!(unquote("\"dangling"), "\"dangling");
}

#[test]
fn var_line_parses() {
    assert_eq!(
        parse_tagged_line(r#"VAR myups battery.charge "95""#, "VAR"),
        Some(("battery.charge".into(), "95".into()))
    );
    assert_eq!(
        parse_tagged_line(r#"VAR myups ups.status "OL CHRG""#, "VAR"),
        Some(("ups.status".into(), "OL CHRG".into()))
    );
}

#[test]
fn rw_line_parses() {
    assert_eq!(
        parse_tagged_line(r#"RW myups input.transfer.low "160""#, "RW"),
        Some(("input.transfer.low".into(), "160".into()))
    );
    // Tag mismatch: a VAR line is not an RW line.
    assert_eq!(parse_tagged_line(r#"VAR myups x "1""#, "RW"), None);
}

#[test]
fn set_var_wire_format() {
    assert_eq!(
        set_var_line("myups", "input.transfer.low", "1.5"),
        "SET VAR myups input.transfer.low \"1.5\"\n"
    );
    // Quotes and backslashes in the value must be escaped on the wire.
    assert_eq!(
        set_var_line("u", "n", r#"a"b\c"#),
        "SET VAR u n \"a\\\"b\\\\c\"\n"
    );
    // quote_value is the exact inverse of unquote.
    let tricky = r#"a"b\c \" end"#;
    assert_eq!(unquote(&format!("\"{}\"", quote_value(tricky))), tricky);
}

#[test]
fn var_line_rejects_malformed() {
    assert_eq!(parse_tagged_line("CMD myups beeper.enable", "VAR"), None);
    assert_eq!(parse_tagged_line("VAR myups", "VAR"), None);
    assert_eq!(parse_tagged_line("", "VAR"), None);
}
