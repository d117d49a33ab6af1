//! Source code that the annotated type holds (field types, generic parameters, `where`
//! predicates), as tokens, and its text in the generated code.
//!
//! Every path whose first segment is `seu` refers to the crate that the generated code refers
//! to: the text puts the target crate's path in place of that segment (and of a `::` before it).
//! The arguments of a macro invocation are left as written: they are tokens, not paths.

use vstd::prelude::*;

use crate::macros::opts::is_keyword;
use crate::macros::opts::is_path_keyword;
use crate::serde::value::str_eq;

verus! {

/// A token of source code; a bracketed group appears as its opening bracket, its tokens and its
/// closing bracket
pub enum CodeToken {
    /// An identifier or keyword, as written (a raw identifier keeps its `r#`)
    Ident(String),
    /// A punctuation character; `joint` where the next token is a punctuation character written
    /// right after it
    Punct { ch: char, joint: bool },
    /// A literal, as written
    Literal(String),
    /// An opening bracket: `(`, `[` or `{`
    Open(char),
    /// A closing bracket: `)`, `]` or `}`
    Close(char),
}

/// Whether the token at position `i` is the punctuation character `ch`
pub open spec fn code_punct(toks: Seq<CodeToken>, i: int, ch: char) -> bool {
    &&& 0 <= i < toks.len()
    &&& toks[i] matches CodeToken::Punct { ch: c, .. }
    &&& c == ch
}

/// Whether a `::` starts at position `j`
pub open spec fn code_path_sep(toks: Seq<CodeToken>, j: int) -> bool {
    &&& code_punct(toks, j, ':')
    &&& toks[j] matches CodeToken::Punct { joint, .. }
    &&& joint
    &&& code_punct(toks, j + 1, ':')
}

/// Whether the token before position `j` ends a path segment, so that a `::` at `j` continues
/// that path
pub open spec fn ends_segment_before(toks: Seq<CodeToken>, j: int) -> bool {
    &&& 0 < j <= toks.len()
    &&& match toks[j - 1] {
        CodeToken::Ident(s) => !is_keyword(s@) || is_path_keyword(s@) || s@ == "Self"@,
        CodeToken::Punct { ch, .. } => ch == '>',
        _ => false,
    }
}

/// Whether the token at position `i` is the segment `seu` that starts a path
pub open spec fn starts_crate_path(toks: Seq<CodeToken>, i: int) -> bool {
    &&& 0 <= i < toks.len()
    &&& toks[i] matches CodeToken::Ident(s)
    &&& s@ == "seu"@
    &&& !(i >= 2 && code_path_sep(toks, i - 2) && ends_segment_before(toks, i - 2))
    &&& !code_punct(toks, i - 1, '\'')
}

/// Whether the token at position `i` belongs to a `::` that starts a path whose first segment is
/// `seu`
pub open spec fn in_leading_sep(toks: Seq<CodeToken>, i: int) -> bool {
    ||| (code_path_sep(toks, i) && !ends_segment_before(toks, i) && starts_crate_path(toks, i + 2))
    ||| (code_path_sep(toks, i - 1) && !ends_segment_before(toks, i - 1) && starts_crate_path(
        toks,
        i + 1,
    ))
}

/// How many macro invocations' argument groups hold the token at position `n`: a group opened
/// right after a `!` starts one, and each bracket inside it is counted until it closes
pub open spec fn macro_depth(toks: Seq<CodeToken>, n: int) -> nat
    decreases n,
{
    if n <= 0 {
        0
    } else {
        let depth = macro_depth(toks, n - 1);
        match toks[n - 1] {
            CodeToken::Open(_) => if depth > 0 || code_punct(toks, n - 2, '!') {
                depth + 1
            } else {
                depth
            },
            CodeToken::Close(_) => if depth > 0 {
                (depth - 1) as nat
            } else {
                depth
            },
            _ => depth,
        }
    }
}

/// The text of token `i` as written
pub open spec fn token_text(t: CodeToken) -> Seq<char> {
    match t {
        CodeToken::Ident(s) => s@,
        CodeToken::Punct { ch, .. } => seq![ch],
        CodeToken::Literal(s) => s@,
        CodeToken::Open(c) => seq![c],
        CodeToken::Close(c) => seq![c],
    }
}

/// What the text holds for token `i`: the token as written inside the arguments of a macro
/// invocation; elsewhere nothing for a `::` in front of `seu`, the target crate's path `k` for
/// `seu` at the start of a path, and the token as written otherwise
pub open spec fn token_piece(k: Seq<char>, toks: Seq<CodeToken>, i: int) -> Seq<char> {
    if macro_depth(toks, i) > 0 {
        token_text(toks[i])
    } else if in_leading_sep(toks, i) {
        Seq::empty()
    } else if starts_crate_path(toks, i) {
        k
    } else {
        token_text(toks[i])
    }
}

/// Whether the text joins the token at position `i` to the next without a space
pub open spec fn glues_next(toks: Seq<CodeToken>, i: int) -> bool {
    toks[i] matches CodeToken::Punct { joint, .. } && joint
}

/// The text of the first `n` tokens, and whether the next piece follows without a space
pub open spec fn code_prefix_text(k: Seq<char>, toks: Seq<CodeToken>, n: int) -> (Seq<char>, bool)
    decreases n,
{
    if n <= 0 {
        (Seq::empty(), true)
    } else {
        let (text, glue) = code_prefix_text(k, toks, n - 1);
        let piece = token_piece(k, toks, n - 1);
        if piece.len() == 0 {
            (text, glue)
        } else if glue {
            (text + piece, glues_next(toks, n - 1))
        } else {
            (text + " "@ + piece, glues_next(toks, n - 1))
        }
    }
}

/// The text of `toks` in the generated code, with the crate at path `k`: tokens apart by a
/// space, but for a punctuation character joined to the next
pub open spec fn code_text(k: Seq<char>, toks: Seq<CodeToken>) -> Seq<char> {
    code_prefix_text(k, toks, toks.len() as int).0
}

/// The text of the tokens from position `start` to position `n`, as written, and whether the
/// next token follows without a space: tokens apart by a space, but for a punctuation character
/// joined to the next
pub open spec fn tokens_text_from(toks: Seq<CodeToken>, start: int, n: int) -> (Seq<char>, bool)
    decreases n - start,
{
    if n <= start {
        (Seq::empty(), true)
    } else {
        let (text, glue) = tokens_text_from(toks, start, n - 1);
        let piece = token_text(toks[n - 1]);
        if glue {
            (text + piece, glues_next(toks, n - 1))
        } else {
            (text + " "@ + piece, glues_next(toks, n - 1))
        }
    }
}

/// Whether the token at position `i` is the punctuation character `c`.
fn punct_is(toks: &Vec<CodeToken>, i: usize, c: char) -> (found: bool)
    ensures
        found == code_punct(toks@, i as int, c),
{
    if i < toks.len() {
        match &toks[i] {
            CodeToken::Punct { ch, .. } => *ch == c,
            _ => false,
        }
    } else {
        false
    }
}

/// Whether a `::` starts at position `j`.
fn path_sep_at(toks: &Vec<CodeToken>, j: usize) -> (found: bool)
    ensures
        found == code_path_sep(toks@, j as int),
{
    if j >= toks.len() {
        return false;
    }
    match &toks[j] {
        CodeToken::Punct { ch, joint } => *ch == ':' && *joint && punct_is(toks, j + 1, ':'),
        _ => false,
    }
}

/// Whether the token before position `j` ends a path segment.
fn ends_segment(toks: &Vec<CodeToken>, j: usize) -> (found: bool)
    ensures
        found == ends_segment_before(toks@, j as int),
{
    if j == 0 || j > toks.len() {
        return false;
    }
    match &toks[j - 1] {
        CodeToken::Ident(s) => {
            let s = s.as_str();
            !crate::macros::opts::is_keyword_str(s) || str_eq(s, "super") || str_eq(s, "self")
                || str_eq(s, "crate") || str_eq(s, "try") || str_eq(s, "Self")
        },
        CodeToken::Punct { ch, .. } => *ch == '>',
        _ => false,
    }
}

/// Whether the token at position `i` is the segment `seu` that starts a path.
fn crate_path_at(toks: &Vec<CodeToken>, i: usize) -> (found: bool)
    ensures
        found == starts_crate_path(toks@, i as int),
{
    if i >= toks.len() {
        return false;
    }
    let is_seu = match &toks[i] {
        CodeToken::Ident(s) => str_eq(s.as_str(), "seu"),
        _ => false,
    };
    if !is_seu {
        return false;
    }
    let separated = i >= 2 && path_sep_at(toks, i - 2) && ends_segment(toks, i - 2);
    let lifetime = i >= 1 && punct_is(toks, i - 1, '\'');
    !separated && !lifetime
}

/// Whether the token at position `i` belongs to a `::` in front of `seu` at the start of a path.
fn in_leading_sep_at(toks: &Vec<CodeToken>, i: usize) -> (found: bool)
    ensures
        found == in_leading_sep(toks@, i as int),
{
    if i >= toks.len() {
        return false;
    }
    let first = path_sep_at(toks, i) && !ends_segment(toks, i) && crate_path_at(toks, i + 2);
    let second = i >= 1 && path_sep_at(toks, i - 1) && !ends_segment(toks, i - 1)
        && crate_path_at(toks, i + 1);
    first || second
}

/// The text of a token as written.
fn token_string(t: &CodeToken) -> (text: String)
    ensures
        text@ == token_text(*t),
{
    match t {
        CodeToken::Ident(s) => String::from_str(s.as_str()),
        CodeToken::Literal(s) => String::from_str(s.as_str()),
        CodeToken::Punct { ch, .. } => char_string(*ch),
        CodeToken::Open(c) => char_string(*c),
        CodeToken::Close(c) => char_string(*c),
    }
}

/// The one-character text of `c`.
fn char_string(c: char) -> (text: String)
    ensures
        text@ == seq![c],
{
    let mut text = String::new();
    push_char(&mut text, c);
    text
}

/// Calls `String::push`. Its contract claims that the text gains `c` at its end.
#[verifier::external_body]
fn push_char(text: &mut String, c: char)
    ensures
        final(text)@ == old(text)@.push(c),
{
    text.push(c);
}

/// The text of the tokens of `toks` from position `start` on, as written.
pub fn tokens_string(toks: &Vec<CodeToken>, start: usize) -> (text: String)
    requires
        start <= toks@.len(),
    ensures
        text@ == tokens_text_from(toks@, start as int, toks@.len() as int).0,
{
    let mut text = String::new();
    let mut glue = true;
    let mut i: usize = start;
    while i < toks.len()
        invariant
            start <= i <= toks@.len(),
            (text@, glue) == tokens_text_from(toks@, start as int, i as int),
        decreases toks@.len() - i,
    {
        let piece = token_string(&toks[i]);
        if !glue {
            text.append(" ");
        }
        text.append(piece.as_str());
        glue = match &toks[i] {
            CodeToken::Punct { joint, .. } => *joint,
            _ => false,
        };
        i = i + 1;
    }
    text
}

/// The text of `toks` in the generated code, with the crate at path `krate`.
pub fn code_string(krate: &str, toks: &Vec<CodeToken>) -> (text: String)
    ensures
        text@ == code_text(krate@, toks@),
{
    let mut text = String::new();
    let mut glue = true;
    let mut depth: usize = 0;
    let mut i: usize = 0;
    while i < toks.len()
        invariant
            i <= toks@.len(),
            depth <= i,
            depth == macro_depth(toks@, i as int),
            (text@, glue) == code_prefix_text(krate@, toks@, i as int),
        decreases toks@.len() - i,
    {
        let piece = if depth > 0 {
            token_string(&toks[i])
        } else if in_leading_sep_at(toks, i) {
            String::new()
        } else if crate_path_at(toks, i) {
            String::from_str(krate)
        } else {
            token_string(&toks[i])
        };
        if piece.unicode_len() > 0 {
            if !glue {
                text.append(" ");
            }
            text.append(piece.as_str());
            glue = match &toks[i] {
                CodeToken::Punct { joint, .. } => *joint,
                _ => false,
            };
        }
        match &toks[i] {
            CodeToken::Open(_) => {
                if depth > 0 || (i >= 1 && punct_is(toks, i - 1, '!')) {
                    depth = depth + 1;
                }
            },
            CodeToken::Close(_) => {
                if depth > 0 {
                    depth = depth - 1;
                }
            },
            _ => {},
        }
        i = i + 1;
    }
    text
}

} // verus!
