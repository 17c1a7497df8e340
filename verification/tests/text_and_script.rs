use excel_deno_bridge::error::BridgeError;
use excel_deno_bridge::script::{
    build_user_script, prepare_execution, wrap_user_script, USER_SCRIPT_HEAD, USER_SCRIPT_TAIL,
};
use excel_deno_bridge::utf16::text_from_utf16;
use excel_deno_bridge::text::i32_text;

fn units(s: &str) -> Vec<u16> {
    s.encode_utf16().collect()
}

#[test]
fn i32_text_matches_display() {
    assert_eq!(i32_text(0), "0");
    assert_eq!(i32_text(7), "7");
    assert_eq!(i32_text(-42), "-42");
    assert_eq!(i32_text(1234567890), "1234567890");
    assert_eq!(i32_text(i32::MAX), "2147483647");
    assert_eq!(i32_text(i32::MIN), "-2147483648");
    for i in [-1000, -10, -9, -1, 1, 9, 10, 99, 100, 65535] {
        assert_eq!(i32_text(i), i.to_string());
    }
}

#[test]
fn error_messages() {
    assert_eq!(BridgeError::WorkbookPathNotSet.message(), "Workbook path not set");
    assert_eq!(BridgeError::ObjectLost.message(), "Object lost");
    assert_eq!(BridgeError::DispatchPropertyEmpty.message(), "Dispatch property empty");
    assert_eq!(BridgeError::PropertyNotDispatch.message(), "Property is not dispatch");
}

#[test]
fn utf16_decoding() {
    assert_eq!(text_from_utf16(&units("C:\\Books\\sheet.js")), "C:\\Books\\sheet.js");
    assert_eq!(text_from_utf16(&units("Grüße €")), "Grüße €");
    assert_eq!(text_from_utf16(&units("a😀b")), "a😀b");
    assert_eq!(text_from_utf16(&[0x61, 0xD800, 0x62]), "a\u{FFFD}b");
    assert_eq!(text_from_utf16(&[]), "");
}

#[test]
fn wrapped_script_embeds_the_literal() {
    let s = wrap_user_script("\"1+1\"");
    assert_eq!(s, format!("{}\"1+1\"{}", USER_SCRIPT_HEAD, USER_SCRIPT_TAIL));
    assert!(USER_SCRIPT_HEAD.starts_with("(function() {\n  try {\n"));
    assert!(USER_SCRIPT_HEAD.ends_with("    const __src = "));
    assert!(USER_SCRIPT_TAIL.starts_with(";\n    let __res;\n"));
    assert!(USER_SCRIPT_TAIL.ends_with("  }\n})()"));
    assert!(USER_SCRIPT_TAIL.contains("if (__src.includes('${')) {"));
    assert!(USER_SCRIPT_TAIL.contains("const __safe = __src.replace(/`/g, '\\\\`');"));
    assert!(USER_SCRIPT_TAIL.contains("return 'JS Error: ' + (e && e.message ? e.message : String(e));"));
}

#[test]
fn built_script_escapes_the_code() {
    let s = build_user_script("a\"b\\c\nd\t\u{1}");
    let quoted = "\"a\\\"b\\\\c\\nd\\t\\u0001\"";
    assert_eq!(s, format!("{}{}{}", USER_SCRIPT_HEAD, quoted, USER_SCRIPT_TAIL));
    assert_eq!(build_user_script(""), wrap_user_script("\"\""));
}

#[test]
fn execution_without_code_is_refused() {
    assert_eq!(prepare_execution(None), Err("Error: Null Pointer".to_string()));
}

#[test]
fn execution_with_code_builds_the_script() {
    let code = units("Excel.ActiveSheet.Name");
    let r = prepare_execution(Some(&code));
    assert_eq!(r, Ok(wrap_user_script("\"Excel.ActiveSheet.Name\"")));
}

#[test]
fn utf16_lossy_rules() {
    assert_eq!(text_from_utf16(&[0xD83D, 0xDE00]), "\u{1F600}");
    assert_eq!(text_from_utf16(&[0xD83D, 0x61]), "\u{FFFD}a");
    assert_eq!(text_from_utf16(&[0xDE00, 0xD83D]), "\u{FFFD}\u{FFFD}");
    let text = "x\u{10FFFF}y\u{FFFF}z\u{10000}";
    assert_eq!(text_from_utf16(&units(text)), text);
}

#[test]
fn quoting_follows_the_escape_table() {
    let lit = |code: &str| {
        let s = build_user_script(code);
        s[USER_SCRIPT_HEAD.len()..s.len() - USER_SCRIPT_TAIL.len()].to_string()
    };
    assert_eq!(lit("\u{8}\u{c}\r"), "\"\\b\\f\\r\"");
    assert_eq!(lit("\u{1f}\u{0}\u{b}"), "\"\\u001f\\u0000\\u000b\"");
    assert_eq!(lit("/\u{7f}é😀"), "\"/\u{7f}é😀\"");
    assert_eq!(lit("})()"), "\"})()\"");
}

#[test]
fn quoted_code_reads_back() {
    for code in ["a\"b", "\\n", "line\nbreak", "${x}", "\u{1}\u{1f}", "é😀"] {
        let s = build_user_script(code);
        let lit = &s[USER_SCRIPT_HEAD.len()..s.len() - USER_SCRIPT_TAIL.len()];
        let back: String = serde_json::from_str(lit).unwrap();
        assert_eq!(back, code);
    }
}
