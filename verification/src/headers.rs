//! The header compiler: turns raw `"name=value"` strings into validated
//! default headers.
//!
//! Each entry is split at its first `=`.  The name must be a nonempty HTTP
//! token; the value may hold horizontal tabs and any character from space
//! upward except delete.  Compilation is all-or-nothing: one bad entry
//! anywhere refuses the whole list, so either every request of a run
//! carries the compiled headers or no request is issued at all.

use vstd::prelude::*;

use crate::errors::EngineError;

verus! {

/// One compiled header: a validated name and value, split out of a raw
/// `"name=value"` entry.
#[derive(Clone, Debug)]
pub struct Header {
    pub name: String,
    pub value: String,
}

/// An HTTP token character: the characters allowed in a header field name.
pub open spec fn is_token_char(c: char) -> bool {
    ||| ('a' as u32) <= (c as u32) && (c as u32) <= ('z' as u32)
    ||| ('A' as u32) <= (c as u32) && (c as u32) <= ('Z' as u32)
    ||| ('0' as u32) <= (c as u32) && (c as u32) <= ('9' as u32)
    ||| c == '!' || c == '#' || c == '$' || c == '%' || c == '&' || c == '\''
    ||| c == '*' || c == '+' || c == '-' || c == '.' || c == '^' || c == '_'
    ||| c == '`' || c == '|' || c == '~'
}

/// A character allowed in a header field value: horizontal tab, or any
/// character from space upward except delete.
pub open spec fn is_value_char(c: char) -> bool {
    c == '\t' || (32 <= (c as u32) && (c as u32) != 127)
}

/// A valid header field name: a nonempty run of token characters.
pub open spec fn valid_name(s: Seq<char>) -> bool {
    s.len() > 0 && (forall|i: int| 0 <= i < s.len() ==> is_token_char(#[trigger] s[i]))
}

/// A valid header field value: every character is a value character.
/// The empty value is valid.
pub open spec fn valid_value(s: Seq<char>) -> bool {
    forall|i: int| 0 <= i < s.len() ==> is_value_char(#[trigger] s[i])
}

/// Whether the entry holds a `=` separator at all.
pub open spec fn has_separator(s: Seq<char>) -> bool {
    exists|i: int| 0 <= i < s.len() && s[i] == '='
}

/// The position of the first `=` in the entry; equals `s.len()` when there
/// is none, so it is meaningful only under `has_separator`.
pub open spec fn separator_pos(s: Seq<char>) -> int
    decreases s.len(),
{
    if s.len() == 0 {
        0
    } else if s[0] == '=' {
        0
    } else {
        1 + separator_pos(s.drop_first())
    }
}

/// The name part of an entry: everything before the first `=`.
pub open spec fn entry_name(s: Seq<char>) -> Seq<char> {
    s.subrange(0, separator_pos(s))
}

/// The value part of an entry: everything after the first `=`.
pub open spec fn entry_value(s: Seq<char>) -> Seq<char> {
    s.subrange(separator_pos(s) + 1, s.len() as int)
}

/// A compilable entry: it has a separator, a valid name and a valid value.
pub open spec fn valid_entry(s: Seq<char>) -> bool {
    has_separator(s) && valid_name(entry_name(s)) && valid_value(entry_value(s))
}

/// When an entry has a separator, `separator_pos` is a genuine index: it
/// lies inside the entry, holds `=`, and nothing before it does.
pub proof fn lemma_separator_pos(s: Seq<char>)
    requires
        has_separator(s),
    ensures
        0 <= separator_pos(s) < s.len(),
        s[separator_pos(s)] == '=',
        forall|j: int| 0 <= j < separator_pos(s) ==> s[j] != '=',
    decreases s.len(),
{
    if s[0] == '=' {
    } else {
        let i: int = choose|i: int| 0 <= i < s.len() && s[i] == '=';
        assert(s.drop_first()[i - 1] == '=');
        lemma_separator_pos(s.drop_first());
        assert forall|j: int| 0 <= j < separator_pos(s) implies s[j] != '=' by {
            if j > 0 {
                assert(s.drop_first()[j - 1] != '=');
            }
        }
    }
}

/// The first `=` is the only index with `=` and nothing earlier: any index
/// with that property is `separator_pos`.
pub proof fn lemma_separator_pos_unique(s: Seq<char>, k: int)
    requires
        0 <= k < s.len(),
        s[k] == '=',
        forall|j: int| 0 <= j < k ==> s[j] != '=',
    ensures
        separator_pos(s) == k,
{
    assert(has_separator(s));
    lemma_separator_pos(s);
}

/// Decides `is_token_char`.
pub fn token_char(c: char) -> (r: bool)
    ensures
        r == is_token_char(c),
{
    let n: u32 = c as u32;
    (('a' as u32) <= n && n <= ('z' as u32)) || (('A' as u32) <= n && n <= ('Z' as u32))
        || (('0' as u32) <= n && n <= ('9' as u32)) || c == '!' || c == '#' || c == '$'
        || c == '%' || c == '&' || c == '\'' || c == '*' || c == '+' || c == '-' || c == '.'
        || c == '^' || c == '_' || c == '`' || c == '|' || c == '~'
}

/// Decides `is_value_char`.
pub fn value_char(c: char) -> (r: bool)
    ensures
        r == is_value_char(c),
{
    let n: u32 = c as u32;
    c == '\t' || (32 <= n && n != 127)
}

/// Decides `valid_name`.
pub fn check_name(s: &str) -> (r: bool)
    ensures
        r == valid_name(s@),
{
    let n: usize = s.unicode_len();
    if n == 0 {
        return false;
    }
    let mut i: usize = 0;
    while i < n
        invariant
            0 <= i <= n,
            n == s@.len(),
            forall|j: int| 0 <= j < i ==> is_token_char(#[trigger] s@[j]),
        decreases n - i,
    {
        if !token_char(s.get_char(i)) {
            return false;
        }
        i = i + 1;
    }
    true
}

/// Decides `valid_value`.
pub fn check_value(s: &str) -> (r: bool)
    ensures
        r == valid_value(s@),
{
    let n: usize = s.unicode_len();
    let mut i: usize = 0;
    while i < n
        invariant
            0 <= i <= n,
            n == s@.len(),
            forall|j: int| 0 <= j < i ==> is_value_char(#[trigger] s@[j]),
        decreases n - i,
    {
        if !value_char(s.get_char(i)) {
            return false;
        }
        i = i + 1;
    }
    true
}

/// Splits an entry at its first `=`, without validating the pieces.
/// Returns `None` exactly when the entry has no separator.
pub fn split_entry(entry: &str) -> (r: Option<Header>)
    ensures
        r is Some <==> has_separator(entry@),
        r matches Some(h) ==> h.name@ == entry_name(entry@) && h.value@ == entry_value(entry@),
{
    let n: usize = entry.unicode_len();
    let mut i: usize = 0;
    while i < n
        invariant
            0 <= i <= n,
            n == entry@.len(),
            forall|j: int| 0 <= j < i ==> entry@[j] != '=',
        decreases n - i,
    {
        if entry.get_char(i) == '=' {
            proof {
                lemma_separator_pos_unique(entry@, i as int);
            }
            let name = entry.substring_char(0, i).to_owned();
            let value = entry.substring_char(i + 1, n).to_owned();
            return Some(Header { name, value });
        }
        i = i + 1;
    }
    None
}

/// Compiles the raw header entries, all-or-nothing: the result is `Ok`
/// exactly when every entry is valid, and then holds the split entries in
/// order.  One bad entry anywhere refuses the whole list.
pub fn compile_headers(raw: &Vec<String>) -> (r: Result<Vec<Header>, EngineError>)
    ensures
        r is Ok <==> (forall|i: int| 0 <= i < raw@.len() ==> valid_entry(#[trigger] raw@[i]@)),
        r matches Ok(hs) ==> {
            &&& hs@.len() == raw@.len()
            &&& forall|i: int|
                0 <= i < raw@.len() ==> #[trigger] hs@[i].name@ == entry_name(raw@[i]@)
                    && hs@[i].value@ == entry_value(raw@[i]@)
        },
        r matches Err(e) ==> e == EngineError::Configuration,
{
    let mut compiled: Vec<Header> = Vec::new();
    let mut k: usize = 0;
    while k < raw.len()
        invariant
            0 <= k <= raw@.len(),
            compiled@.len() == k,
            forall|i: int| 0 <= i < k ==> valid_entry(#[trigger] raw@[i]@),
            forall|i: int|
                0 <= i < k ==> #[trigger] compiled@[i].name@ == entry_name(raw@[i]@)
                    && compiled@[i].value@ == entry_value(raw@[i]@),
        decreases raw@.len() - k,
    {
        let entry = &raw[k];
        match split_entry(entry.as_str()) {
            None => {
                return Err(EngineError::Configuration);
            },
            Some(h) => {
                if !check_name(h.name.as_str()) {
                    return Err(EngineError::Configuration);
                }
                if !check_value(h.value.as_str()) {
                    return Err(EngineError::Configuration);
                }
                compiled.push(h);
                assert(compiled@[k as int].name@ == entry_name(raw@[k as int]@));
                assert(compiled@[k as int].value@ == entry_value(raw@[k as int]@));
            },
        }
        k = k + 1;
    }
    Ok(compiled)
}

} // verus!
