//! Options of the derive, given by `#[datatype(...)]` attributes on the annotated type.
//!
//! The one option names the path of the crate that the generated code refers to: `crate = path`,
//! or `name = path` with `name` in any case. The path is checked by `syn` and kept as written.

use vstd::prelude::*;

use crate::macros::derive::code::tokens_string;
use crate::macros::derive::code::tokens_text_from;
use crate::macros::derive::code::CodeToken;
use crate::macros::error_matches;
use crate::macros::MacroError;
use crate::macros::Outcome;
use crate::serde::value::str_eq;

verus! {

/// An attribute of the annotated type
pub enum AttrDef {
    /// An attribute of the form `#[path(tokens)]`
    List {
        /// Whether the path starts with `::`
        leading_colon: bool,
        /// Segments of the attribute's path
        segments: Vec<String>,
        /// Tokens between the brackets
        tokens: Vec<CodeToken>,
    },
    /// An attribute of another form
    Other,
}

/// Name of an option
#[derive(PartialEq, Eq, Structural)]
pub enum OptionName {
    /// The path of the crate that generated code refers to
    Crate,
}

/// An option with its value
pub enum OptionValue {
    /// The path of the crate that generated code refers to, as source text
    Crate(String),
}

/// Options for the derive
pub struct Options {
    /// Source text of the target crate's path, for name resolution
    pub target_crate: String,
}

/// `str::to_lowercase`: the lowercase mapping of each character of a string, as the Unicode
/// tables of the standard library define it
pub uninterp spec fn lowercase_of(s: Seq<char>) -> Seq<char>;

/// Calls `str::to_lowercase`. Its contract claims that the result is `lowercase_of` the argument,
/// that is, a function of the argument alone.
#[verifier::external_body]
fn to_lowercase(s: &str) -> (lower: String)
    ensures
        lower@ == lowercase_of(s@),
{
    s.to_lowercase()
}

/// Whether `s` is a keyword of the language, which is no identifier
pub open spec fn is_keyword(s: Seq<char>) -> bool {
    s == "_"@ || s == "abstract"@ || s == "as"@ || s == "async"@ || s == "await"@ || s
        == "become"@ || s == "box"@ || s == "break"@ || s == "const"@ || s == "continue"@ || s
        == "crate"@ || s == "do"@ || s == "dyn"@ || s == "else"@ || s == "enum"@ || s
        == "extern"@ || s == "false"@ || s == "final"@ || s == "fn"@ || s == "for"@ || s
        == "if"@ || s == "impl"@ || s == "in"@ || s == "let"@ || s == "loop"@ || s == "macro"@
        || s == "match"@ || s == "mod"@ || s == "move"@ || s == "mut"@ || s == "override"@ || s
        == "priv"@ || s == "pub"@ || s == "ref"@ || s == "return"@ || s == "Self"@ || s
        == "self"@ || s == "static"@ || s == "struct"@ || s == "super"@ || s == "trait"@ || s
        == "true"@ || s == "try"@ || s == "type"@ || s == "typeof"@ || s == "unsafe"@ || s
        == "unsized"@ || s == "use"@ || s == "virtual"@ || s == "where"@ || s == "while"@ || s
        == "yield"@
}

/// Whether `s` is a keyword that a path may hold as a segment
pub open spec fn is_path_keyword(s: Seq<char>) -> bool {
    s == "super"@ || s == "self"@ || s == "crate"@ || s == "try"@
}

/// The identifier or keyword at position `i`, if there is one
pub open spec fn token_ident(toks: Seq<CodeToken>, i: int) -> Option<Seq<char>> {
    if 0 <= i < toks.len() {
        match toks[i] {
            CodeToken::Ident(s) => Some(s@),
            _ => None,
        }
    } else {
        None
    }
}

/// Whether the token at position `i` is the punctuation character `ch`
pub open spec fn is_punct(toks: Seq<CodeToken>, i: int, ch: char) -> bool {
    &&& 0 <= i < toks.len()
    &&& toks[i] matches CodeToken::Punct { ch: c, .. }
    &&& c == ch
}

/// Whether `syn` reads source text as a path: nothing where it does, or the message of the
/// error that stops reading
pub uninterp spec fn path_error(source: Seq<char>) -> Option<Seq<char>>;

/// Calls `syn::parse_str::<syn::Path>` on `source`, keeping only whether it succeeds, and the
/// `to_string` of its error where it fails. The contract claims that the outcome is `path_error`
/// of the text: a function of the text alone.
#[verifier::external_body]
fn check_path(source: &str) -> (checked: Result<(), String>)
    ensures
        match checked {
            Ok(()) => path_error(source@) is None,
            Err(message) => path_error(source@) == Some(message@),
        },
{
    match syn::parse_str::<syn::Path>(source) {
        Ok(_) => Ok(()),
        Err(err) => Err(err.to_string()),
    }
}

/// The option that a lowercased option name names
pub open spec fn name_for_lowercase(lowered: Seq<char>) -> Option<OptionName> {
    if lowered == "name"@ {
        Some(OptionName::Crate)
    } else {
        None
    }
}

/// What the tokens of a `datatype` attribute give: the crate path that they set, or the error
pub open spec fn option_outcome(toks: Seq<CodeToken>) -> Outcome {
    match token_ident(toks, 0) {
        Some(s) => {
            if s != "crate"@ && is_keyword(s) {
                Outcome::Error(MacroError::ExpectedOptionName)
            } else if s != "crate"@ && name_for_lowercase(lowercase_of(s)) is None {
                Outcome::UnknownOption(lowercase_of(s))
            } else if !is_punct(toks, 1, '=') {
                Outcome::Error(MacroError::ExpectedEquals)
            } else {
                let path = tokens_text_from(toks, 2, toks.len() as int).0;
                match path_error(path) {
                    None => Outcome::Text(path),
                    Some(message) => Outcome::ParseError(message),
                }
            }
        },
        None => if toks.len() == 0 {
            Outcome::Error(MacroError::MissingOptionName)
        } else {
            Outcome::Error(MacroError::ExpectedOptionName)
        },
    }
}

/// Whether an attribute is a `datatype` attribute with arguments
pub open spec fn is_datatype_attr(attr: AttrDef) -> bool {
    attr matches AttrDef::List { leading_colon, segments, .. } && !leading_colon
        && segments@.len() == 1 && segments@[0]@ == "datatype"@
}

/// Where loading the options from position `i` on stops, the crate path being `target` before
/// them: the crate path at that point, and the position of the first `datatype` attribute whose
/// tokens cannot be read (the length of `attrs` where each can be read)
pub open spec fn load_stop(target: Seq<char>, attrs: Seq<AttrDef>, i: int) -> (Seq<char>, int)
    decreases attrs.len() - i,
{
    if i < 0 || i >= attrs.len() {
        (target, attrs.len() as int)
    } else if is_datatype_attr(attrs[i]) {
        match option_outcome(attrs[i]->tokens@) {
            Outcome::Text(path) => load_stop(path, attrs, i + 1),
            _ => (target, i),
        }
    } else {
        load_stop(target, attrs, i + 1)
    }
}

/// What the attributes give, where the crate path is `target` before them: the crate path that
/// the last `datatype` attribute sets, or the error of the first that cannot be read
pub open spec fn options_outcome(target: Seq<char>, attrs: Seq<AttrDef>) -> Outcome {
    let stop = load_stop(target, attrs, 0);
    if stop.1 == attrs.len() {
        Outcome::Text(stop.0)
    } else {
        option_outcome(attrs[stop.1]->tokens@)
    }
}

/// The attributes that loading the options leaves in place, in order: all but the `datatype`
/// attributes
pub open spec fn kept_attrs(attrs: Seq<AttrDef>) -> Seq<AttrDef> {
    attrs.filter(|attr: AttrDef| !is_datatype_attr(attr))
}

/// Loading the options from one more attribute keeps it where it is no `datatype` attribute.
proof fn lemma_kept_attrs_step(attrs: Seq<AttrDef>, j: int)
    requires
        0 <= j < attrs.len(),
    ensures
        kept_attrs(attrs.take(j + 1)) == if is_datatype_attr(attrs[j]) {
            kept_attrs(attrs.take(j))
        } else {
            kept_attrs(attrs.take(j)).push(attrs[j])
        },
{
    reveal(Seq::filter);
    assert(attrs.take(j + 1).drop_last() =~= attrs.take(j));
}

/// The source text of the crate path that generated code refers to by default
pub open spec fn default_target_text() -> Seq<char> {
    "::seu"@
}

/// Whether `s` is a keyword of the language.
pub fn is_keyword_str(s: &str) -> (kw: bool)
    ensures
        kw == is_keyword(s@),
{
    str_eq(s, "_") || str_eq(s, "abstract") || str_eq(s, "as") || str_eq(s, "async") || str_eq(
        s,
        "await",
    ) || str_eq(s, "become") || str_eq(s, "box") || str_eq(s, "break") || str_eq(s, "const")
        || str_eq(s, "continue") || str_eq(s, "crate") || str_eq(s, "do") || str_eq(s, "dyn")
        || str_eq(s, "else") || str_eq(s, "enum") || str_eq(s, "extern") || str_eq(s, "false")
        || str_eq(s, "final") || str_eq(s, "fn") || str_eq(s, "for") || str_eq(s, "if") || str_eq(
        s,
        "impl",
    ) || str_eq(s, "in") || str_eq(s, "let") || str_eq(s, "loop") || str_eq(s, "macro")
        || str_eq(s, "match") || str_eq(s, "mod") || str_eq(s, "move") || str_eq(s, "mut")
        || str_eq(s, "override") || str_eq(s, "priv") || str_eq(s, "pub") || str_eq(s, "ref")
        || str_eq(s, "return") || str_eq(s, "Self") || str_eq(s, "self") || str_eq(s, "static")
        || str_eq(s, "struct") || str_eq(s, "super") || str_eq(s, "trait") || str_eq(s, "true")
        || str_eq(s, "try") || str_eq(s, "type") || str_eq(s, "typeof") || str_eq(s, "unsafe")
        || str_eq(s, "unsized") || str_eq(s, "use") || str_eq(s, "virtual") || str_eq(s, "where")
        || str_eq(s, "while") || str_eq(s, "yield")
}

/// The identifier or keyword at position `i`, if there is one.
fn ident_at(tokens: &Vec<CodeToken>, i: usize) -> (ident: Option<&str>)
    ensures
        match ident {
            Some(s) => token_ident(tokens@, i as int) == Some(s@),
            None => token_ident(tokens@, i as int) is None,
        },
{
    if i < tokens.len() {
        match &tokens[i] {
            CodeToken::Ident(s) => Some(s.as_str()),
            _ => None,
        }
    } else {
        None
    }
}

/// Whether the token at position `i` is the punctuation character `c`.
fn punct_at(tokens: &Vec<CodeToken>, i: usize, c: char) -> (found: bool)
    ensures
        found == is_punct(tokens@, i as int, c),
{
    if i < tokens.len() {
        match &tokens[i] {
            CodeToken::Punct { ch, .. } => *ch == c,
            _ => false,
        }
    } else {
        false
    }
}

impl OptionName {
    /// The option that a lowercased option name names.
    pub fn from_lowercase(lowered: &str) -> (name: Result<OptionName, MacroError>)
        ensures
            match name {
                Ok(n) => name_for_lowercase(lowered@) == Some(n),
                Err(e) => {
                    &&& name_for_lowercase(lowered@) is None
                    &&& e matches MacroError::UnknownOption(m)
                    &&& m@ == lowered@
                },
            },
    {
        if str_eq(lowered, "name") {
            Ok(OptionName::Crate)
        } else {
            Err(MacroError::UnknownOption(String::from_str(lowered)))
        }
    }

    /// Read the option name at the start of `tokens`: `crate`, or an identifier that names an
    /// option in any case.
    pub fn parse(tokens: &Vec<CodeToken>) -> (name: Result<OptionName, MacroError>)
        ensures
            match name {
                Ok(n) => n == OptionName::Crate && match token_ident(tokens@, 0) {
                    Some(s) => s == "crate"@ || (!is_keyword(s) && name_for_lowercase(
                        lowercase_of(s),
                    ) == Some(n)),
                    None => false,
                },
                Err(e) => match token_ident(tokens@, 0) {
                    Some(s) => if s != "crate"@ && is_keyword(s) {
                        e == MacroError::ExpectedOptionName
                    } else {
                        s != "crate"@ && error_matches(e, Outcome::UnknownOption(lowercase_of(s)))
                            && name_for_lowercase(lowercase_of(s)) is None
                    },
                    None => e == if tokens@.len() == 0 {
                        MacroError::MissingOptionName
                    } else {
                        MacroError::ExpectedOptionName
                    },
                },
            },
    {
        match ident_at(tokens, 0) {
            Some(s) => {
                if str_eq(s, "crate") {
                    Ok(OptionName::Crate)
                } else if is_keyword_str(s) {
                    Err(MacroError::ExpectedOptionName)
                } else {
                    let lowered = to_lowercase(s);
                    OptionName::from_lowercase(lowered.as_str())
                }
            },
            None => if tokens.len() == 0 {
                Err(MacroError::MissingOptionName)
            } else {
                Err(MacroError::ExpectedOptionName)
            },
        }
    }
}

impl OptionValue {
    /// Read an option and its value from all of `tokens`: `name = path`.
    pub fn parse(tokens: &Vec<CodeToken>) -> (value: Result<OptionValue, MacroError>)
        ensures
            match value {
                Ok(OptionValue::Crate(path)) => option_outcome(tokens@) == Outcome::Text(path@),
                Err(e) => error_matches(e, option_outcome(tokens@)),
            },
    {
        let name = OptionName::parse(tokens)?;
        if !punct_at(tokens, 1, '=') {
            return Err(MacroError::ExpectedEquals);
        }
        match name {
            OptionName::Crate => {
                let path = tokens_string(tokens, 2);
                match check_path(path.as_str()) {
                    Ok(()) => Ok(OptionValue::Crate(path)),
                    Err(message) => Err(MacroError::Parse(message)),
                }
            },
        }
    }
}

/// Whether `attr` is a `datatype` attribute with arguments.
fn is_datatype_list(attr: &AttrDef) -> (found: bool)
    ensures
        found == is_datatype_attr(*attr),
{
    match attr {
        AttrDef::List { leading_colon, segments, .. } => !*leading_colon && segments.len() == 1
            && str_eq(segments[0].as_str(), "datatype"),
        AttrDef::Other => false,
    }
}

impl Default for Options {
    fn default() -> (opts: Self)
        ensures
            opts.target_crate@ == default_target_text(),
    {
        Options { target_crate: String::from_str("::seu") }
    }
}

impl Options {
    /// Load options from the attributes of the annotated type, taking the `datatype` attributes
    /// out of them.
    ///
    /// Each `datatype` attribute sets the option it names, in order, so the last one wins; the
    /// other attributes stay, in order. Where one cannot be read, loading stops there with its
    /// error: the attributes before it have been applied and taken out, it is taken out too, and
    /// the attributes after it stay as they were.
    pub fn load_from(&mut self, attrs: &mut Vec<AttrDef>) -> (loaded: Result<(), MacroError>)
        ensures
            final(self).target_crate@ == load_stop(old(self).target_crate@, old(attrs)@, 0).0,
            ({
                let stop = load_stop(old(self).target_crate@, old(attrs)@, 0).1;
                if stop == old(attrs)@.len() {
                    &&& loaded is Ok
                    &&& final(attrs)@ == kept_attrs(old(attrs)@)
                } else {
                    &&& loaded matches Err(e)
                    &&& error_matches(e, option_outcome(old(attrs)@[stop]->tokens@))
                    &&& final(attrs)@ == kept_attrs(old(attrs)@.take(stop + 1)) + old(
                        attrs,
                    )@.skip(stop + 1)
                }
            }),
            match options_outcome(old(self).target_crate@, old(attrs)@) {
                Outcome::Text(target) => loaded is Ok && final(self).target_crate@ == target,
                other => loaded matches Err(e) && error_matches(e, other),
            },
    {
        let ghost all = attrs@;
        let ghost start = self.target_crate@;
        let mut i: usize = 0;
        let ghost mut j: int = 0;
        while i < attrs.len()
            invariant
                all == old(attrs)@,
                start == old(self).target_crate@,
                0 <= j <= all.len(),
                attrs@ == kept_attrs(all.take(j)) + all.skip(j),
                i == kept_attrs(all.take(j)).len(),
                load_stop(self.target_crate@, all, j) == load_stop(start, all, 0),
            decreases attrs@.len() - i,
        {
            proof {
                lemma_kept_attrs_step(all, j);
                assert(attrs@[i as int] == all[j]);
                assert(all.skip(j).drop_first() =~= all.skip(j + 1));
            }
            if is_datatype_list(&attrs[i]) {
                let parsed = match &attrs[i] {
                    AttrDef::List { tokens, .. } => OptionValue::parse(tokens),
                    AttrDef::Other => Err(MacroError::ExpectedOptionName),
                };
                attrs.remove(i);
                proof {
                    assert(attrs@ =~= kept_attrs(all.take(j + 1)) + all.skip(j + 1));
                }
                match parsed {
                    Ok(OptionValue::Crate(path)) => {
                        self.target_crate = path;
                    },
                    Err(e) => {
                        assert(error_matches(e, option_outcome(all[j]->tokens@)));
                        assert(load_stop(self.target_crate@, all, j) == (self.target_crate@, j));
                        return Err(e);
                    },
                }
            } else {
                i = i + 1;
                proof {
                    assert(attrs@ =~= kept_attrs(all.take(j + 1)) + all.skip(j + 1));
                }
            }
            proof {
                j = j + 1;
            }
        }
        proof {
            assert(all.skip(j).len() == 0);
            assert(all.take(j) =~= all);
            assert(attrs@ =~= kept_attrs(all));
        }
        Ok(())
    }
}

} // verus!
