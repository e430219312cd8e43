//! Classification of engine output.
//!
//! A finished invocation yields an exit code, captured standard output and
//! captured diagnostic text. A non-zero exit is a computational error and no
//! JSON extraction is attempted. Otherwise the whole output is parsed as one
//! JSON value; failing that, the first balanced JSON object or array found
//! outside string literals is parsed, so that human-readable banners around
//! the payload are tolerated. If neither yields a value, the output is
//! malformed.

use vstd::prelude::*;
use crate::error::FriedmanError;

verus! {

/// The index of the first `{` or `[` that stands outside a string literal,
/// scanning from `i` in the state given by `in_str` and `esc`.
pub open spec fn scan_start(s: Seq<char>, i: int, in_str: bool, esc: bool) -> Option<int>
    decreases s.len() - i,
{
    if i < 0 || i >= s.len() {
        None
    } else if esc {
        scan_start(s, i + 1, in_str, false)
    } else if in_str {
        if s[i] == '\\' {
            scan_start(s, i + 1, true, true)
        } else if s[i] == '"' {
            scan_start(s, i + 1, false, false)
        } else {
            scan_start(s, i + 1, true, false)
        }
    } else if s[i] == '{' || s[i] == '[' {
        Some(i)
    } else if s[i] == '"' {
        scan_start(s, i + 1, true, false)
    } else {
        scan_start(s, i + 1, false, false)
    }
}

/// One past the index of the closing bracket that balances the opening
/// bracket kind `open`, tracking nesting depth from `i` and respecting
/// string-literal boundaries and backslash escapes.
pub open spec fn scan_end(
    s: Seq<char>,
    i: int,
    open: char,
    close: char,
    depth: nat,
    in_str: bool,
    esc: bool,
) -> Option<int>
    decreases s.len() - i,
{
    if i < 0 || i >= s.len() {
        None
    } else if esc {
        scan_end(s, i + 1, open, close, depth, in_str, false)
    } else if in_str {
        if s[i] == '\\' {
            scan_end(s, i + 1, open, close, depth, true, true)
        } else if s[i] == '"' {
            scan_end(s, i + 1, open, close, depth, false, false)
        } else {
            scan_end(s, i + 1, open, close, depth, true, false)
        }
    } else if s[i] == '"' {
        scan_end(s, i + 1, open, close, depth, true, false)
    } else if s[i] == open {
        scan_end(s, i + 1, open, close, depth + 1, false, false)
    } else if s[i] == close {
        if depth <= 1 {
            Some(i + 1)
        } else {
            scan_end(s, i + 1, open, close, (depth - 1) as nat, false, false)
        }
    } else {
        scan_end(s, i + 1, open, close, depth, false, false)
    }
}

/// The closing bracket matching an opening one.
pub open spec fn close_of(open: char) -> char {
    if open == '{' {
        '}'
    } else {
        ']'
    }
}

/// The first balanced JSON candidate inside `s`: the text from the first
/// bracket outside any string literal through its matching closing bracket.
pub open spec fn extracted(s: Seq<char>) -> Option<Seq<char>> {
    match scan_start(s, 0, false, false) {
        None => None,
        Some(st) => match scan_end(s, st, s[st], close_of(s[st]), 0, false, false) {
            None => None,
            Some(en) => Some(s.subrange(st, en)),
        },
    }
}

/// Find the first opening bracket outside any string literal.
fn find_start(s: &str) -> (r: Option<usize>)
    ensures
        match r {
            Option::Some(i) => scan_start(s@, 0, false, false) == Some(i as int) && i < s@.len(),
            Option::None => scan_start(s@, 0, false, false) is None,
        },
{
    let n = s.unicode_len();
    let mut i: usize = 0;
    let mut in_str = false;
    let mut esc = false;
    while i < n
        invariant
            0 <= i <= n,
            n == s@.len(),
            scan_start(s@, 0, false, false) == scan_start(s@, i as int, in_str, esc),
        decreases n - i,
    {
        let c = s.get_char(i);
        if esc {
            esc = false;
        } else if in_str {
            if c == '\\' {
                esc = true;
            } else if c == '"' {
                in_str = false;
            }
        } else if c == '{' || c == '[' {
            return Some(i);
        } else if c == '"' {
            in_str = true;
        }
        i = i + 1;
    }
    None
}

/// Find one past the closing bracket balancing the opening bracket at `st`.
fn find_end(s: &str, st: usize, open: char, close: char) -> (r: Option<usize>)
    requires
        st < s@.len(),
    ensures
        match r {
            Option::Some(e) => scan_end(s@, st as int, open, close, 0, false, false) == Some(
                e as int,
            ) && st < e <= s@.len(),
            Option::None => scan_end(s@, st as int, open, close, 0, false, false) is None,
        },
{
    let n = s.unicode_len();
    let mut i: usize = st;
    let mut depth: usize = 0;
    let mut in_str = false;
    let mut esc = false;
    while i < n
        invariant
            st <= i <= n,
            n == s@.len(),
            depth <= i,
            scan_end(s@, st as int, open, close, 0, false, false) == scan_end(
                s@,
                i as int,
                open,
                close,
                depth as nat,
                in_str,
                esc,
            ),
        decreases n - i,
    {
        let c = s.get_char(i);
        if esc {
            esc = false;
        } else if in_str {
            if c == '\\' {
                esc = true;
            } else if c == '"' {
                in_str = false;
            }
        } else if c == '"' {
            in_str = true;
        } else if c == open {
            depth = depth + 1;
        } else if c == close {
            if depth <= 1 {
                return Some(i + 1);
            }
            depth = depth - 1;
        }
        i = i + 1;
    }
    None
}

/// Extract the first balanced JSON candidate from mixed output.
pub fn extract_json(s: &str) -> (r: Option<&str>)
    ensures
        match r {
            Option::Some(t) => extracted(s@) == Some(t@),
            Option::None => extracted(s@) is None,
        },
{
    match find_start(s) {
        None => None,
        Some(st) => {
            let open = s.get_char(st);
            let close = if open == '{' {
                '}'
            } else {
                ']'
            };
            proof {
                assert(close == close_of(s@[st as int]));
            }
            match find_end(s, st, open, close) {
                None => None,
                Some(en) => Some(s.substring_char(st, en)),
            }
        },
    }
}

#[verifier::external_type_specification]
#[verifier::external_body]
pub struct ExJsonValue(serde_json::Value);

/// Whether `s` is one well-formed JSON document.
pub uninterp spec fn json_parses(s: Seq<char>) -> bool;

/// The JSON value that `s` denotes, when it parses.
pub uninterp spec fn json_value_of(s: Seq<char>) -> serde_json::Value;

/// Relies on serde_json::from_str for serde_json::Value: whether the text
/// parses, and which value it denotes, depend on the text alone.
#[verifier::external_body]
fn parse_json(s: &str) -> (r: Option<serde_json::Value>)
    ensures
        r is Some <==> json_parses(s@),
        r is Some ==> r->0 == json_value_of(s@),
{
    serde_json::from_str::<serde_json::Value>(s).ok()
}

/// Classify a finished invocation and extract its JSON payload.
///
/// A non-zero exit is a computational error carrying the diagnostic text,
/// and no extraction is attempted, whatever the standard output holds.
pub fn interpret_output(exit_code: i32, stdout: &str, stderr: &str) -> (r: Result<
    serde_json::Value,
    FriedmanError,
>)
    ensures
        exit_code != 0 ==> (r matches Err(FriedmanError::SidecarExit { code, stderr: d })
            && code == exit_code && d@ == stderr@),
        exit_code == 0 && json_parses(stdout@) ==> (r matches Ok(v) && v == json_value_of(stdout@)),
        exit_code == 0 && !json_parses(stdout@) ==> match extracted(stdout@) {
            Option::Some(t) => {
                if json_parses(t) {
                    r matches Ok(v) && v == json_value_of(t)
                } else {
                    r matches Err(FriedmanError::JsonParse(m)) && m@ == stdout@
                }
            },
            Option::None => r matches Err(FriedmanError::JsonParse(m)) && m@ == stdout@,
        },
{
    if exit_code != 0 {
        return Err(FriedmanError::SidecarExit { code: exit_code, stderr: stderr.to_owned() });
    }
    match parse_json(stdout) {
        Some(v) => Ok(v),
        None => match extract_json(stdout) {
            Some(t) => match parse_json(t) {
                Some(v) => Ok(v),
                None => Err(FriedmanError::JsonParse(stdout.to_owned())),
            },
            None => Err(FriedmanError::JsonParse(stdout.to_owned())),
        },
    }
}

proof fn lemma_scan_start_none(s: Seq<char>, i: int, in_str: bool, esc: bool)
    requires
        0 <= i <= s.len(),
        forall|j: int| 0 <= j < s.len() ==> s[j] != '{' && s[j] != '[',
    ensures
        scan_start(s, i, in_str, esc) is None,
    decreases s.len() - i,
{
    if i < s.len() {
        if esc {
            lemma_scan_start_none(s, i + 1, in_str, false);
        } else if in_str {
            if s[i] == '\\' {
                lemma_scan_start_none(s, i + 1, true, true);
            } else if s[i] == '"' {
                lemma_scan_start_none(s, i + 1, false, false);
            } else {
                lemma_scan_start_none(s, i + 1, true, false);
            }
        } else if s[i] == '"' {
            lemma_scan_start_none(s, i + 1, true, false);
        } else {
            lemma_scan_start_none(s, i + 1, false, false);
        }
    }
}

/// Output without a single `{` or `[` holds no JSON candidate at all:
/// extraction reports that no JSON was found.
pub proof fn lemma_no_bracket_no_json(s: Seq<char>)
    requires
        forall|j: int| 0 <= j < s.len() ==> s[j] != '{' && s[j] != '[',
    ensures
        extracted(s) is None,
{
    lemma_scan_start_none(s, 0, false, false);
}

} // verus!
