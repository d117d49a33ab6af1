//! Code generation for the `DataType` derive: from a model of the annotated type to the Rust source
//! text of its generic representation and of the `DataType` implementation.

pub mod derive;
pub mod generics;
pub mod names;
pub mod nums;
pub mod opts;
pub mod product;
pub mod text;

use vstd::prelude::*;

use crate::macros::nums::int_literal_digits;
use crate::macros::nums::is_decimal;
use crate::macros::nums::decimal_value;
use crate::macros::nums::default_crate_text;
use crate::macros::nums::num_term_text;
use crate::macros::nums::num_type_text;
use crate::macros::nums::number_error;
use crate::macros::nums::read_int_literal;

verus! {

/// Why code could not be generated
#[derive(Debug, PartialEq, Eq)]
pub enum MacroError {
    /// An option name that no option has; holds the name, lowercased
    UnknownOption(String),
    /// Neither `crate` nor an identifier where an option name belongs
    ExpectedOptionName,
    /// No tokens at all where an option belongs
    MissingOptionName,
    /// No `=` after an option name
    ExpectedEquals,
    /// The annotated type is a union
    UnionUnsupported,
    /// A number without digits
    EmptyNumber,
    /// A number with a character that is no decimal digit
    InvalidDigit,
    /// A number too large for `usize`
    NumberTooLarge,
    /// The macro input could not be read; holds the reader's message
    Parse(String),
}

/// What generating code, or a part of it, gives: a text, or the error that stops it
pub enum Outcome {
    /// The generated text
    Text(Seq<char>),
    /// An unknown option, with its name lowercased
    UnknownOption(Seq<char>),
    /// Input that could not be read, with the reader's message
    ParseError(Seq<char>),
    /// Another error
    Error(MacroError),
}

/// Whether `e` is the error of outcome `o`
pub open spec fn error_matches(e: MacroError, o: Outcome) -> bool {
    match o {
        Outcome::Text(_) => false,
        Outcome::UnknownOption(name) => e matches MacroError::UnknownOption(n) && n@ == name,
        Outcome::ParseError(message) => e matches MacroError::Parse(m) && m@ == message,
        Outcome::Error(f) => e == f && !(f is UnknownOption) && !(f is Parse),
    }
}

/// Whether `r` is outcome `o`
pub open spec fn text_result_matches(r: Result<String, MacroError>, o: Outcome) -> bool {
    match r {
        Ok(text) => o == Outcome::Text(text@),
        Err(e) => error_matches(e, o),
    }
}

impl MacroError {
    /// The text of the message that reports this error
    pub open spec fn spec_message(&self) -> Seq<char> {
        match self {
            MacroError::UnknownOption(name) => "Unknown option name "@ + name@,
            MacroError::ExpectedOptionName => "expected `crate` or identifier"@,
            MacroError::MissingOptionName => "unexpected end of input, expected `crate` or identifier"@,
            MacroError::ExpectedEquals => "expected `=`"@,
            MacroError::UnionUnsupported => "DataType: Union data types are not yet supported"@,
            MacroError::EmptyNumber => "cannot parse integer from empty string"@,
            MacroError::InvalidDigit => "invalid digit found in string"@,
            MacroError::NumberTooLarge => "number too large to fit in target type"@,
            MacroError::Parse(message) => message@,
        }
    }

    /// The message that reports this error.
    pub fn message(&self) -> (text: String)
        ensures
            text@ == self.spec_message(),
    {
        match self {
            MacroError::UnknownOption(name) => {
                let mut text = String::from_str("Unknown option name ");
                text.append(name.as_str());
                text
            },
            MacroError::ExpectedOptionName => String::from_str("expected `crate` or identifier"),
            MacroError::MissingOptionName => String::from_str(
                "unexpected end of input, expected `crate` or identifier",
            ),
            MacroError::ExpectedEquals => String::from_str("expected `=`"),
            MacroError::UnionUnsupported => String::from_str(
                "DataType: Union data types are not yet supported",
            ),
            MacroError::EmptyNumber => String::from_str("cannot parse integer from empty string"),
            MacroError::InvalidDigit => String::from_str("invalid digit found in string"),
            MacroError::NumberTooLarge => String::from_str("number too large to fit in target type"),
            MacroError::Parse(message) => String::from_str(message.as_str()),
        }
    }
}

/// Turn the integer literal in `source` into a Peano number expression.
pub fn num(source: &str) -> (expr: Result<String, MacroError>)
    ensures
        match int_literal_digits(source@) {
            Ok(digits) => match expr {
                Ok(text) => is_decimal(digits) && decimal_value(digits) <= usize::MAX && text@
                    == num_term_text(default_crate_text(), decimal_value(digits)),
                Err(e) => e == number_error(digits) && (!is_decimal(digits) || decimal_value(
                    digits,
                ) > usize::MAX),
            },
            Err(message) => expr matches Err(MacroError::Parse(m)) && m@ == message,
        },
{
    match read_int_literal(source) {
        Ok(digits) => crate::macros::nums::main_expr(digits.as_str()),
        Err(message) => Err(MacroError::Parse(message)),
    }
}

/// Turn the integer literal in `source` into a Peano number type.
#[allow(non_snake_case)]
pub fn Num(source: &str) -> (ty: Result<String, MacroError>)
    ensures
        match int_literal_digits(source@) {
            Ok(digits) => match ty {
                Ok(text) => is_decimal(digits) && decimal_value(digits) <= usize::MAX && text@
                    == num_type_text(default_crate_text(), decimal_value(digits)),
                Err(e) => e == number_error(digits) && (!is_decimal(digits) || decimal_value(
                    digits,
                ) > usize::MAX),
            },
            Err(message) => ty matches Err(MacroError::Parse(m)) && m@ == message,
        },
{
    match read_int_literal(source) {
        Ok(digits) => crate::macros::nums::main_ty(digits.as_str()),
        Err(message) => Err(MacroError::Parse(message)),
    }
}

} // verus!
