//! The symbolic derivation trail: the text shapes each operation builds.
//!
//! A trail is write-only. Every operation wraps its operand trails in one
//! fixed shell of text; nothing ever parses a trail back.

use vstd::prelude::*;
use vstd::string::StringExecFns;

verus! {

/// Trail of a freshly constructed measurement: the value's rendering, a
/// plus-minus sign, and the uncertainty's rendering.
pub open spec fn seed_trail(value: Seq<char>, uncertainty: Seq<char>) -> Seq<char> {
    value + "±"@ + uncertainty
}

/// Trail of a binary operation: both operand trails parenthesised around
/// the operator, as in `(a) + (b)`. `sep` is the full middle text, as in
/// `) + (`.
pub open spec fn binary_trail(a: Seq<char>, sep: Seq<char>, b: Seq<char>) -> Seq<char> {
    "("@ + a + sep + b + ")"@
}

/// Trail of a named unary operation, as in `sin(a)`. `name` carries the
/// opening parenthesis, as in `sin(`.
pub open spec fn unary_trail(name: Seq<char>, a: Seq<char>) -> Seq<char> {
    name + a + ")"@
}

/// Trail of a named operation with a numeric parameter, as in
/// `log(a, base)`. `name` carries the opening parenthesis.
pub open spec fn param_trail(name: Seq<char>, a: Seq<char>, p: Seq<char>) -> Seq<char> {
    name + a + ", "@ + p + ")"@
}

/// Trail of raising to a power: `(a)^e`.
pub open spec fn power_trail(a: Seq<char>, e: Seq<char>) -> Seq<char> {
    "("@ + a + ")^"@ + e
}

/// Trail of a choice that kept its first alternative.
pub open spec fn chosen_trail(a: Seq<char>) -> Seq<char> {
    "("@ + a + ") if condition else [skipped]"@
}

/// Trail of a choice that kept its second alternative.
pub open spec fn skipped_trail(b: Seq<char>) -> Seq<char> {
    "[skipped] if condition else ("@ + b + ")"@
}

/// The one display line: value, uncertainty and trail, each behind its
/// label.
pub open spec fn display_line(value: Seq<char>, uncertainty: Seq<char>, symbolic: Seq<char>) -> Seq<char> {
    "Value: "@ + value + ", Uncertainty: "@ + uncertainty + ", Symbolic: "@ + symbolic
}

pub(crate) fn seed(value: &str, uncertainty: &str) -> (r: String)
    ensures
        r@ == seed_trail(value@, uncertainty@),
{
    let mut s = String::from_str(value);
    s.append("±");
    s.append(uncertainty);
    proof {
        assert(s@ =~= seed_trail(value@, uncertainty@));
    }
    s
}

pub(crate) fn binary(a: &str, sep: &str, b: &str) -> (r: String)
    ensures
        r@ == binary_trail(a@, sep@, b@),
{
    let mut s = String::from_str("(");
    s.append(a);
    s.append(sep);
    s.append(b);
    s.append(")");
    proof {
        assert(s@ =~= binary_trail(a@, sep@, b@));
    }
    s
}

pub(crate) fn unary(name: &str, a: &str) -> (r: String)
    ensures
        r@ == unary_trail(name@, a@),
{
    let mut s = String::from_str(name);
    s.append(a);
    s.append(")");
    proof {
        assert(s@ =~= unary_trail(name@, a@));
    }
    s
}

pub(crate) fn parameterised(name: &str, a: &str, p: &str) -> (r: String)
    ensures
        r@ == param_trail(name@, a@, p@),
{
    let mut s = String::from_str(name);
    s.append(a);
    s.append(", ");
    s.append(p);
    s.append(")");
    proof {
        assert(s@ =~= param_trail(name@, a@, p@));
    }
    s
}

pub(crate) fn powered(a: &str, e: &str) -> (r: String)
    ensures
        r@ == power_trail(a@, e@),
{
    let mut s = String::from_str("(");
    s.append(a);
    s.append(")^");
    s.append(e);
    proof {
        assert(s@ =~= power_trail(a@, e@));
    }
    s
}

pub(crate) fn chosen(a: &str) -> (r: String)
    ensures
        r@ == chosen_trail(a@),
{
    let mut s = String::from_str("(");
    s.append(a);
    s.append(") if condition else [skipped]");
    proof {
        assert(s@ =~= chosen_trail(a@));
    }
    s
}

pub(crate) fn skipped(b: &str) -> (r: String)
    ensures
        r@ == skipped_trail(b@),
{
    let mut s = String::from_str("[skipped] if condition else (");
    s.append(b);
    s.append(")");
    proof {
        assert(s@ =~= skipped_trail(b@));
    }
    s
}

pub(crate) fn line(value: &str, uncertainty: &str, symbolic: &str) -> (r: String)
    ensures
        r@ == display_line(value@, uncertainty@, symbolic@),
{
    let mut s = String::from_str("Value: ");
    s.append(value);
    s.append(", Uncertainty: ");
    s.append(uncertainty);
    s.append(", Symbolic: ");
    s.append(symbolic);
    proof {
        assert(s@ =~= display_line(value@, uncertainty@, symbolic@));
    }
    s
}

/// Every operation wraps its operands in one shell of fixed text: the
/// result is longer than the operand trails by exactly the shell, and each
/// operand trail stands unchanged inside it. Chaining operations therefore
/// nests exactly one shell per operation around the seed texts.
pub proof fn lemma_trail_wraps(a: Seq<char>, sep: Seq<char>, b: Seq<char>, name: Seq<char>)
    ensures
        binary_trail(a, sep, b).len() == a.len() + sep.len() + b.len() + 2,
        binary_trail(a, sep, b).subrange(1, 1 + a.len() as int) == a,
        binary_trail(a, sep, b).subrange(
            (1 + a.len() + sep.len()) as int,
            (1 + a.len() + sep.len() + b.len()) as int,
        ) == b,
        unary_trail(name, a).len() == name.len() + a.len() + 1,
        unary_trail(name, a).subrange(name.len() as int, (name.len() + a.len()) as int) == a,
{
    reveal_strlit("(");
    reveal_strlit(")");
    assert(binary_trail(a, sep, b).subrange(1, 1 + a.len() as int) =~= a);
    assert(binary_trail(a, sep, b).subrange(
        (1 + a.len() + sep.len()) as int,
        (1 + a.len() + sep.len() + b.len()) as int,
    ) =~= b);
    assert(unary_trail(name, a).subrange(name.len() as int, (name.len() + a.len()) as int) =~= a);
}

} // verus!
