//! The script that runs a user's code in the JavaScript runtime, with the
//! code embedded as the JSON string literal that serde_json writes for it.

use vstd::prelude::*;
use crate::utf16::{is_surrogate, text_from_utf16, utf16_lossy};

verus! {

#[verifier::external_type_specification]
#[verifier::external_body]
pub struct ExJsonError(serde_json::Error);

/// A lowercase hexadecimal digit.
pub open spec fn hex_digit(d: nat) -> char {
    if d < 10 {
        (48 + d) as char
    } else {
        (87 + d) as char
    }
}

/// How serde_json writes one character inside a string literal: `"` and `\`
/// and the controls `\b \t \n \f \r` by a backslash escape, the other
/// characters below U+0020 as `\u00` and two lowercase hex digits, every
/// other character as itself.
pub open spec fn json_escape_char(c: char) -> Seq<char> {
    if c == '"' {
        seq!['\\', '"']
    } else if c == '\\' {
        seq!['\\', '\\']
    } else if c == '\u{8}' {
        seq!['\\', 'b']
    } else if c == '\t' {
        seq!['\\', 't']
    } else if c == '\n' {
        seq!['\\', 'n']
    } else if c == '\u{c}' {
        seq!['\\', 'f']
    } else if c == '\r' {
        seq!['\\', 'r']
    } else if (c as u32) < 0x20 {
        seq!['\\', 'u', '0', '0', hex_digit((c as u32 / 16) as nat), hex_digit((c as u32 % 16) as nat)]
    } else {
        seq![c]
    }
}

/// The escaped characters of a text, as written inside a JSON string literal.
pub open spec fn json_escaped(s: Seq<char>) -> Seq<char>
    decreases s.len(),
{
    if s.len() == 0 {
        Seq::empty()
    } else {
        json_escape_char(s[0]) + json_escaped(s.drop_first())
    }
}

/// The JSON string literal of a text: a quote, the escaped text, a quote.
pub open spec fn json_quoted(s: Seq<char>) -> Seq<char> {
    seq!['"'] + json_escaped(s) + seq!['"']
}

/// Writes a text as a JSON string literal with `serde_json::to_string`,
/// which for a string always succeeds and writes `json_quoted` of it.
#[verifier::external_body]
fn json_quote(s: &str) -> (r: Result<String, serde_json::Error>)
    ensures
        r is Ok,
        r matches Ok(q) ==> q@ == json_quoted(s@),
{
    serde_json::to_string(s)
}

/// The value of a hexadecimal digit (either case).
pub open spec fn hex_value(c: char) -> Option<nat> {
    let n = c as u32;
    if 48 <= n <= 57 {
        Some((n - 48) as nat)
    } else if 97 <= n <= 102 {
        Some((n - 87) as nat)
    } else if 65 <= n <= 70 {
        Some((n - 55) as nat)
    } else {
        None
    }
}

/// The character that a one-letter JSON escape stands for.
pub open spec fn json_simple_escape(c: char) -> Option<char> {
    if c == '"' {
        Some('"')
    } else if c == '\\' {
        Some('\\')
    } else if c == '/' {
        Some('/')
    } else if c == 'b' {
        Some('\u{8}')
    } else if c == 'f' {
        Some('\u{c}')
    } else if c == 'n' {
        Some('\n')
    } else if c == 'r' {
        Some('\r')
    } else if c == 't' {
        Some('\t')
    } else {
        None
    }
}

/// A character put before the rest of a reading, when the rest reads.
pub open spec fn prepend_char(c: char, rest: Option<Seq<char>>) -> Option<Seq<char>> {
    match rest {
        Some(r) => Some(seq![c] + r),
        None => None,
    }
}

/// The code of four hexadecimal digits, if they are such.
pub open spec fn hex4(t: Seq<char>) -> Option<nat>
    recommends
        t.len() >= 4,
{
    match (hex_value(t[0]), hex_value(t[1]), hex_value(t[2]), hex_value(t[3])) {
        (Some(a), Some(b), Some(c), Some(d)) => Some(a * 4096 + b * 256 + c * 16 + d),
        _ => None,
    }
}

/// How a JSON reader reads the inside of a string literal (RFC 8259,
/// section 7): a backslash escape stands for its character, `\u` and four
/// hex digits for that code (surrogate pairs are not read); an unescaped
/// quote, backslash or control character ends the reading with no value.
pub open spec fn json_unescape(t: Seq<char>) -> Option<Seq<char>>
    decreases t.len(),
{
    if t.len() == 0 {
        Some(Seq::empty())
    } else if t[0] == '\\' {
        if t.len() >= 2 && json_simple_escape(t[1]) is Some {
            prepend_char(json_simple_escape(t[1])->0, json_unescape(t.subrange(2, t.len() as int)))
        } else if t.len() >= 6 && t[1] == 'u' {
            match hex4(t.subrange(2, 6)) {
                Some(code) => if 0xD800 <= code <= 0xDFFF {
                    None
                } else {
                    prepend_char(code as char, json_unescape(t.subrange(6, t.len() as int)))
                },
                None => None,
            }
        } else {
            None
        }
    } else if t[0] == '"' || (t[0] as u32) < 0x20 {
        None
    } else {
        prepend_char(t[0], json_unescape(t.drop_first()))
    }
}

/// The text a JSON reader reads from a string literal: its inside, read.
pub open spec fn json_string_value(lit: Seq<char>) -> Option<Seq<char>> {
    if lit.len() >= 2 && lit[0] == '"' && lit[lit.len() - 1] == '"' {
        json_unescape(lit.subrange(1, lit.len() - 1))
    } else {
        None
    }
}

proof fn lemma_escape_char_reads_back(c: char, rest: Seq<char>)
    ensures
        json_unescape(json_escape_char(c) + rest) == prepend_char(c, json_unescape(rest)),
{
    let e = json_escape_char(c);
    let t = e + rest;
    let n = c as u32;
    if e.len() == 2 {
        assert(t[0] == e[0]);
        assert(t[1] == e[1]);
        assert(t.subrange(2, t.len() as int) =~= rest);
    } else if e.len() == 6 {
        assert(t[0] == '\\' && t[1] == 'u');
        let h = t.subrange(2, 6);
        assert(h[0] == '0' && h[1] == '0');
        assert(h[2] == hex_digit((n / 16) as nat) && h[3] == hex_digit((n % 16) as nat));
        assert(hex_value(h[2]) == Some((n / 16) as nat));
        assert(hex_value(h[3]) == Some((n % 16) as nat));
        assert(hex4(h) == Some(n as nat));
        assert(((n as nat) as char) == c);
        assert(t.subrange(6, t.len() as int) =~= rest);
    } else {
        assert(e == seq![c]);
        assert(t[0] == c);
        assert(t.drop_first() =~= rest);
    }
}

/// The escaped text reads back as the text.
pub proof fn lemma_json_escaped_reads_back(s: Seq<char>)
    ensures
        json_unescape(json_escaped(s)) == Some(s),
    decreases s.len(),
{
    if s.len() > 0 {
        lemma_json_escaped_reads_back(s.drop_first());
        lemma_escape_char_reads_back(s[0], json_escaped(s.drop_first()));
        assert(seq![s[0]] + s.drop_first() =~= s);
    }
}

/// The JSON string literal of a text reads back as exactly that text; in
/// particular no quote inside it is left unescaped, so the literal ends
/// only at its last character.
pub proof fn lemma_json_quoted_reads_back(s: Seq<char>)
    ensures
        json_string_value(json_quoted(s)) == Some(s),
{
    let q = json_quoted(s);
    assert(q.subrange(1, q.len() - 1) =~= json_escaped(s));
    lemma_json_escaped_reads_back(s);
}

/// The script text before the user's code (as a JSON string literal).
pub const USER_SCRIPT_HEAD: &'static str = r#"(function() {
  try {
    if (typeof globalThis.fetchSync !== 'function') {
      globalThis.fetchSync = (url) => Deno.core.ops.op_fetch_sync(String(url));
    }
    if (typeof globalThis.fetch !== 'function') {
      globalThis.fetch = async (url) => {
        const __raw = Deno.core.ops.op_fetch_sync(String(url));
        return {
          text: async () => __raw,
          json: async () => JSON.parse(__raw),
        };
      };
    }
    if (typeof globalThis.include !== 'function') {
      globalThis.include = (filename) => {
        const code = Deno.core.ops.op_read_workbook_file(String(filename));
        return (0, eval)(code);
      };
    }

    const __src = "#;

/// The script text after the user's code.
pub const USER_SCRIPT_TAIL: &'static str = r#";
    let __res;

    try {
      __res = eval(__src);
    } catch (inner) {
      // Convenience fallback: allow inline template-style text without backticks.
      if (__src.includes('${')) {
        const __safe = __src.replace(/`/g, '\\`');
        __res = eval('`' + __safe + '`');
      } else {
        throw inner;
      }
    }

    if (__res === undefined) return 'undefined';
    if (__res === null) return 'null';

    if (typeof __res === 'object') {
      try {
        return JSON.stringify(__res, null, 2);
      } catch (_) {
        return String(__res);
      }
    }

    return String(__res);
  } catch (e) {
    return 'JS Error: ' + (e && e.message ? e.message : String(e));
  }
})()"#;

/// The script that runs user code given as the JSON string literal
/// `quoted`: it evaluates the code (falling back to a template literal when
/// evaluation throws and the code holds `${`), and returns the result as
/// text, or the text of the error thrown.
pub open spec fn user_script_text(quoted: Seq<char>) -> Seq<char> {
    USER_SCRIPT_HEAD@ + quoted + USER_SCRIPT_TAIL@
}

/// The script around user code that is already a JSON string literal.
pub fn wrap_user_script(quoted: &str) -> (r: String)
    ensures
        r@ == user_script_text(quoted@),
{
    let mut s = String::from_str(USER_SCRIPT_HEAD);
    s.append(quoted);
    s.append(USER_SCRIPT_TAIL);
    s
}

/// The script that runs the given user code.
pub fn build_user_script(code: &str) -> (r: String)
    ensures
        r@ == user_script_text(json_quoted(code@)),
{
    match json_quote(code) {
        Ok(q) => wrap_user_script(q.as_str()),
        Err(_) => wrap_user_script("\"\""),
    }
}

/// What a host call that runs code does before the runtime is involved:
/// without code (a null pointer) it answers `Error: Null Pointer`; with
/// code it decodes it and builds the script to run.
pub fn prepare_execution(code: Option<&[u16]>) -> (r: Result<String, String>)
    ensures
        code is None ==> (r matches Err(m) && m@ == "Error: Null Pointer"@),
        code matches Some(units) ==> (r matches Ok(s)
            && s@ == user_script_text(json_quoted(utf16_lossy(units@)))),
        code matches Some(units) ==> ((forall|i: int| 0 <= i < units@.len() ==> !is_surrogate(#[trigger] units@[i]))
            ==> (r matches Ok(s) && s@ == user_script_text(json_quoted(units@.map_values(|u: u16| u as char))))),
{
    match code {
        None => Err(String::from_str("Error: Null Pointer")),
        Some(units) => {
            let text = text_from_utf16(units);
            Ok(build_user_script(text.as_str()))
        },
    }
}

} // verus!
