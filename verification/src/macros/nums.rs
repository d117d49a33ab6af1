use vstd::prelude::*;

use crate::macros::MacroError;

verus! {

/// What `syn` reads from the source text of an integer literal: the literal's value in decimal
/// digits, or the message of the error that stops reading
pub uninterp spec fn int_literal_digits(source: Seq<char>) -> Result<Seq<char>, Seq<char>>;

/// Calls `syn::parse_str::<syn::LitInt>` on `source`, then `LitInt::base10_digits` on the literal
/// it reads, or `to_string` on its error. The contract claims that the result is
/// `int_literal_digits` of the text: a function of the text alone.
#[verifier::external_body]
pub(crate) fn read_int_literal(source: &str) -> (read: Result<String, String>)
    ensures
        match read {
            Ok(digits) => int_literal_digits(source@) == Ok::<Seq<char>, Seq<char>>(digits@),
            Err(message) => int_literal_digits(source@) == Err::<Seq<char>, Seq<char>>(message@),
        },
{
    match syn::parse_str::<syn::LitInt>(source) {
        Ok(lit) => Ok(lit.base10_digits().to_string()),
        Err(err) => Err(err.to_string()),
    }
}

/// The decimal digit character for `d`
pub open spec fn digit_char(d: nat) -> char {
    if d == 0 {
        '0'
    } else if d == 1 {
        '1'
    } else if d == 2 {
        '2'
    } else if d == 3 {
        '3'
    } else if d == 4 {
        '4'
    } else if d == 5 {
        '5'
    } else if d == 6 {
        '6'
    } else if d == 7 {
        '7'
    } else if d == 8 {
        '8'
    } else {
        '9'
    }
}

/// The value of the decimal digit character `c`, if it is one
pub open spec fn digit_value(c: char) -> Option<nat> {
    if '0' <= c <= '9' {
        Some((c as nat - '0' as nat) as nat)
    } else {
        None
    }
}

/// Decimal text of `n`, without leading zeros
pub open spec fn decimal_text(n: nat) -> Seq<char>
    decreases n,
{
    if n < 10 {
        seq![digit_char(n)]
    } else {
        decimal_text(n / 10) + seq![digit_char(n % 10)]
    }
}

/// Whether `s` is a non-empty run of decimal digits
pub open spec fn is_decimal(s: Seq<char>) -> bool {
    s.len() > 0 && forall|i: int| 0 <= i < s.len() ==> (#[trigger] digit_value(s[i])) is Some
}

/// The number that the decimal digits `s` denote
pub open spec fn decimal_value(s: Seq<char>) -> nat
    decreases s.len(),
{
    if s.len() == 0 {
        0
    } else {
        decimal_value(s.drop_last()) * 10 + match digit_value(s.last()) {
            Some(d) => d,
            None => 0,
        }
    }
}

/// The error of reading `s` as a `usize` where it is not one: no digits, a character that is no
/// digit, or a number too large
pub open spec fn number_error(s: Seq<char>) -> MacroError {
    if s.len() == 0 {
        MacroError::EmptyNumber
    } else if !is_decimal(s) {
        MacroError::InvalidDigit
    } else {
        MacroError::NumberTooLarge
    }
}

/// Source text of the type-level Peano number `n`, in the crate at path `k`
pub open spec fn num_type_text(k: Seq<char>, n: nat) -> Seq<char>
    decreases n,
{
    if n == 0 {
        k + "::generic::nums::Zero"@
    } else {
        k + "::generic::nums::Succ<"@ + num_type_text(k, (n - 1) as nat) + ">"@
    }
}

/// Source text of the term-level Peano number `n`, in the crate at path `k`
pub open spec fn num_term_text(k: Seq<char>, n: nat) -> Seq<char>
    decreases n,
{
    if n == 0 {
        k + "::generic::nums::Zero"@
    } else {
        k + "::generic::nums::Succ("@ + num_term_text(k, (n - 1) as nat) + ")"@
    }
}

/// The path of the crate that the number macros refer to
pub open spec fn default_crate_text() -> Seq<char> {
    "::seu"@
}

/// The decimal digit `d`.
fn digit(d: usize) -> (text: &'static str)
    requires
        d < 10,
    ensures
        text@ == seq![digit_char(d as nat)],
{
    if d == 0 {
        proof {
            reveal_strlit("0");
        }
        "0"
    } else if d == 1 {
        proof {
            reveal_strlit("1");
        }
        "1"
    } else if d == 2 {
        proof {
            reveal_strlit("2");
        }
        "2"
    } else if d == 3 {
        proof {
            reveal_strlit("3");
        }
        "3"
    } else if d == 4 {
        proof {
            reveal_strlit("4");
        }
        "4"
    } else if d == 5 {
        proof {
            reveal_strlit("5");
        }
        "5"
    } else if d == 6 {
        proof {
            reveal_strlit("6");
        }
        "6"
    } else if d == 7 {
        proof {
            reveal_strlit("7");
        }
        "7"
    } else if d == 8 {
        proof {
            reveal_strlit("8");
        }
        "8"
    } else {
        proof {
            reveal_strlit("9");
        }
        "9"
    }
}

/// Decimal text of `n`.
pub fn decimal(n: usize) -> (text: String)
    ensures
        text@ == decimal_text(n as nat),
    decreases n,
{
    if n < 10 {
        String::from_str(digit(n))
    } else {
        let mut text = decimal(n / 10);
        text.append(digit(n % 10));
        text
    }
}

/// A longer run of digits denotes at least as much as its prefix.
proof fn lemma_decimal_value_prefix(s: Seq<char>, i: int)
    requires
        0 <= i <= s.len(),
    ensures
        decimal_value(s.take(i)) <= decimal_value(s),
    decreases s.len() - i,
{
    if i < s.len() {
        lemma_decimal_value_prefix(s, i + 1);
        assert(s.take(i + 1).drop_last() =~= s.take(i));
    } else {
        assert(s.take(i) =~= s);
    }
}

/// Parse decimal digits into a number.
pub fn parse_decimal(digits: &str) -> (value: Option<usize>)
    ensures
        match value {
            Some(v) => is_decimal(digits@) && v == decimal_value(digits@),
            None => !is_decimal(digits@) || decimal_value(digits@) > usize::MAX,
        },
{
    let len = digits.unicode_len();
    if len == 0 {
        return None;
    }
    let mut i: usize = 0;
    while i < len
        invariant
            len == digits@.len(),
            i <= len,
            forall|j: int| 0 <= j < i ==> (#[trigger] digit_value(digits@[j])) is Some,
        decreases len - i,
    {
        let c = digits.get_char(i);
        if !('0' <= c && c <= '9') {
            assert(digit_value(digits@[i as int]) is None);
            return None;
        }
        i = i + 1;
    }
    let mut value: usize = 0;
    let mut i: usize = 0;
    while i < len
        invariant
            len == digits@.len(),
            i <= len,
            is_decimal(digits@),
            value == decimal_value(digits@.take(i as int)),
        decreases len - i,
    {
        let c = digits.get_char(i);
        let d = ((c as u32) - ('0' as u32)) as usize;
        assert(digit_value(digits@[i as int]) is Some);
        assert(digits@.take(i + 1).drop_last() =~= digits@.take(i as int));
        if value > (usize::MAX - d) / 10 {
            proof {
                lemma_decimal_value_prefix(digits@, i + 1);
            }
            return None;
        }
        value = value * 10 + d;
        i = i + 1;
    }
    assert(digits@.take(len as int) =~= digits@);
    Some(value)
}

/// The error of reading `digits` as a `usize` where it is not one.
fn number_error_of(digits: &str) -> (e: MacroError)
    ensures
        e == number_error(digits@),
{
    let len = digits.unicode_len();
    if len == 0 {
        return MacroError::EmptyNumber;
    }
    let mut i: usize = 0;
    while i < len
        invariant
            len == digits@.len(),
            i <= len,
            forall|j: int| 0 <= j < i ==> (#[trigger] digit_value(digits@[j])) is Some,
        decreases len - i,
    {
        let c = digits.get_char(i);
        if !('0' <= c && c <= '9') {
            assert(digit_value(digits@[i as int]) is None);
            return MacroError::InvalidDigit;
        }
        i = i + 1;
    }
    MacroError::NumberTooLarge
}

/// Construct a Peano number type.
pub fn num_ty(krate: &str, num: usize) -> (ty: String)
    ensures
        ty@ == num_type_text(krate@, num as nat),
{
    let mut ty = String::from_str(krate);
    ty.append("::generic::nums::Zero");
    let mut i: usize = 0;
    while i < num
        invariant
            i <= num,
            ty@ == num_type_text(krate@, i as nat),
        decreases num - i,
    {
        let mut next = String::from_str(krate);
        next.append("::generic::nums::Succ<");
        next.append(ty.as_str());
        next.append(">");
        ty = next;
        i = i + 1;
    }
    ty
}

/// Construct a Peano number expression.
pub fn num_expr(krate: &str, num: usize) -> (expr: String)
    ensures
        expr@ == num_term_text(krate@, num as nat),
{
    let mut expr = String::from_str(krate);
    expr.append("::generic::nums::Zero");
    let mut i: usize = 0;
    while i < num
        invariant
            i <= num,
            expr@ == num_term_text(krate@, i as nat),
        decreases num - i,
    {
        let mut next = String::from_str(krate);
        next.append("::generic::nums::Succ(");
        next.append(expr.as_str());
        next.append(")");
        expr = next;
        i = i + 1;
    }
    expr
}

/// Given the decimal digits of an integer literal, construct the Peano number expression.
pub fn main_expr(digits: &str) -> (expr: Result<String, MacroError>)
    ensures
        match expr {
            Ok(text) => is_decimal(digits@) && decimal_value(digits@) <= usize::MAX && text@
                == num_term_text(default_crate_text(), decimal_value(digits@)),
            Err(e) => e == number_error(digits@) && (!is_decimal(digits@) || decimal_value(
                digits@,
            ) > usize::MAX),
        },
{
    match parse_decimal(digits) {
        Some(num) => Ok(num_expr("::seu", num)),
        None => Err(number_error_of(digits)),
    }
}

/// Given the decimal digits of an integer literal, construct the Peano number type.
pub fn main_ty(digits: &str) -> (ty: Result<String, MacroError>)
    ensures
        match ty {
            Ok(text) => is_decimal(digits@) && decimal_value(digits@) <= usize::MAX && text@
                == num_type_text(default_crate_text(), decimal_value(digits@)),
            Err(e) => e == number_error(digits@) && (!is_decimal(digits@) || decimal_value(
                digits@,
            ) > usize::MAX),
        },
{
    match parse_decimal(digits) {
        Some(num) => Ok(num_ty("::seu", num)),
        None => Err(number_error_of(digits)),
    }
}

/// The decimal text of a number is a run of digits that denotes that number.
pub proof fn law_decimal_text_denotes(n: nat)
    ensures
        is_decimal(decimal_text(n)),
        decimal_value(decimal_text(n)) == n,
    decreases n,
{
    let s = decimal_text(n);
    if n < 10 {
        assert(digit_value(digit_char(n)) == Some(n));
        assert(s.drop_last() =~= Seq::<char>::empty());
        assert(decimal_value(s.drop_last()) == 0);
        assert(decimal_value(s) == decimal_value(s.drop_last()) * 10 + n);
    } else {
        law_decimal_text_denotes(n / 10);
        let d = (n % 10) as nat;
        assert(digit_value(digit_char(d)) == Some(d));
        assert(s.drop_last() =~= decimal_text(n / 10));
        assert(s.last() == digit_char(d));
        assert(decimal_value(s) == decimal_value(s.drop_last()) * 10 + d);
        assert(n == (n / 10) * 10 + d);
        assert forall|i: int| 0 <= i < s.len() implies (#[trigger] digit_value(s[i])) is Some by {
            if i < s.len() - 1 {
                assert(s[i] == decimal_text(n / 10)[i]);
            }
        }
    }
}

/// A type-level number is `Zero` wrapped in one `Succ` per unit, as a type and as a term.
pub proof fn law_num_text_counts(k: Seq<char>, n: nat)
    ensures
        n == 0 ==> num_type_text(k, n) == k + "::generic::nums::Zero"@ && num_term_text(k, n) == k
            + "::generic::nums::Zero"@,
        n > 0 ==> num_type_text(k, n) == k + "::generic::nums::Succ<"@ + num_type_text(
            k,
            (n - 1) as nat,
        ) + ">"@ && num_term_text(k, n) == k + "::generic::nums::Succ("@ + num_term_text(
            k,
            (n - 1) as nat,
        ) + ")"@,
{
}

} // verus!
