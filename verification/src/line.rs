//! The line that reports one equation, built through either kind of
//! dispatch.

use crate::operation::{Add, Mul, Operation};
use vstd::prelude::*;

verus! {

/// The two operands around the operation's token, then the result:
/// `<a><symbol><b> = <result>`.
pub open spec fn equation(
    a: Seq<char>,
    symbol: Seq<char>,
    b: Seq<char>,
    result: Seq<char>,
) -> Seq<char> {
    a + symbol + b + " = "@ + result
}

/// The line of an operation that was reached through a trait object.
pub open spec fn spec_dynamic_line(
    a: Seq<char>,
    symbol: Seq<char>,
    b: Seq<char>,
    result: Seq<char>,
) -> Seq<char> {
    "Dynamic dispatch: "@ + equation(a, symbol, b, result)
}

/// The line of an operation that was reached through a type parameter.
pub open spec fn spec_static_line(
    a: Seq<char>,
    symbol: Seq<char>,
    b: Seq<char>,
    result: Seq<char>,
) -> Seq<char> {
    "Static dispatch: "@ + equation(a, symbol, b, result)
}

/// Appends the equation to a line that so far holds its prefix.
fn push_equation(line: &mut String, a: &str, token: &str, b: &str, result: &str)
    ensures
        final(line)@ == old(line)@ + equation(a@, token@, b@, result@),
{
    line.append(a);
    line.append(token);
    line.append(b);
    line.append(" = ");
    line.append(result);
}

/// Builds the line for `op`, whose variant is found through the handle when
/// the call is made. `a`, `b` and `result` are the operands and the result as
/// the caller rendered them.
///
/// A verified caller learns most by handing over the variant itself, as in
/// `dynamic_line(&Add, ..)`: the verifier then knows whose `symbol` the
/// handle has. It does not carry that knowledge from one `&dyn` parameter on
/// to the next.
pub fn dynamic_line(op: &dyn Operation, a: &str, b: &str, result: &str) -> (line: String)
    ensures
        line@ == spec_dynamic_line(a@, op.symbol(), b@, result@),
{
    let token = op.name();
    let mut line = "Dynamic dispatch: ".to_owned();
    push_equation(&mut line, a, token.as_str(), b, result);
    line
}

/// Builds the line for `op`, whose variant `T` is fixed where the caller is
/// compiled. `a`, `b` and `result` are the operands and the result as the
/// caller rendered them.
pub fn static_line<T: Operation>(op: &T, a: &str, b: &str, result: &str) -> (line: String)
    ensures
        line@ == spec_static_line(a@, op.symbol(), b@, result@),
{
    let token = op.name();
    let mut line = "Static dispatch: ".to_owned();
    push_equation(&mut line, a, token.as_str(), b, result);
    line
}

/// Nothing but the operation's token and the three texts enters a line: two
/// lines that `dynamic_line` returned for the same operation and the same
/// texts are equal character for character, hence byte for byte, and so are
/// two that `static_line` returned.
pub proof fn lemma_repeated_call_same_line<T: Operation + ?Sized>(
    op: &T,
    a: Seq<char>,
    b: Seq<char>,
    result: Seq<char>,
    first: Seq<char>,
    second: Seq<char>,
)
    requires
        ({
            &&& first == spec_dynamic_line(a, op.symbol(), b, result)
            &&& second == spec_dynamic_line(a, op.symbol(), b, result)
        }) || ({
            &&& first == spec_static_line(a, op.symbol(), b, result)
            &&& second == spec_static_line(a, op.symbol(), b, result)
        }),
    ensures
        first == second,
        vstd::utf8::encode_utf8(first) == vstd::utf8::encode_utf8(second),
{
}

/// The way in which an operation is reached changes the prefix of its line
/// and nothing else: behind their prefixes the line of `dynamic_line` and
/// that of `static_line` hold the same equation, and in both the operation's
/// own token stands right behind the first operand.
pub proof fn lemma_dispatch_changes_prefix_only<T: Operation + ?Sized>(
    op: &T,
    a: Seq<char>,
    b: Seq<char>,
    result: Seq<char>,
)
    ensures
        spec_dynamic_line(a, op.symbol(), b, result).skip("Dynamic dispatch: "@.len() as int)
            == equation(a, op.symbol(), b, result),
        spec_static_line(a, op.symbol(), b, result).skip("Static dispatch: "@.len() as int)
            == equation(a, op.symbol(), b, result),
        equation(a, op.symbol(), b, result).subrange(
            a.len() as int,
            (a.len() + op.symbol().len()) as int,
        ) == op.symbol(),
{
}

/// Whether `Add` or `Mul` is handed over as a trait object or by its type,
/// its token is the same, and behind the prefixes the two lines are the same.
pub proof fn lemma_variants_agree_across_dispatch(
    add: &Add,
    mul: &Mul,
    a: Seq<char>,
    b: Seq<char>,
    result: Seq<char>,
)
    ensures
        ({
            let handle: &dyn Operation = add;
            &&& handle.symbol() == add.symbol()
            &&& spec_dynamic_line(a, handle.symbol(), b, result).skip(
                "Dynamic dispatch: "@.len() as int,
            ) == spec_static_line(a, add.symbol(), b, result).skip(
                "Static dispatch: "@.len() as int,
            )
        }),
        ({
            let handle: &dyn Operation = mul;
            &&& handle.symbol() == mul.symbol()
            &&& spec_dynamic_line(a, handle.symbol(), b, result).skip(
                "Dynamic dispatch: "@.len() as int,
            ) == spec_static_line(a, mul.symbol(), b, result).skip(
                "Static dispatch: "@.len() as int,
            )
        }),
{
    lemma_dispatch_changes_prefix_only(add, a, b, result);
    lemma_dispatch_changes_prefix_only(mul, a, b, result);
}

} // verus!
