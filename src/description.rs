//! The text of the pending command: counts, register and operators, in the
//! order in which they were typed.
use vstd::prelude::*;
use vstd::string::StringExecFns;
use crate::state::{Operator, VimState};

verus! {

/// The decimal digit character for `d < 10`.
pub open spec fn digit_char(d: nat) -> char {
    ((48 + d) as u8) as char
}

/// The plain decimal representation of `n`, without leading zeros.
pub open spec fn decimal(n: nat) -> Seq<char>
    decreases n,
{
    if n < 10 {
        seq![digit_char(n)]
    } else {
        decimal(n / 10).push(digit_char(n % 10))
    }
}

/// A count's fragment: its decimal form, or nothing when it is absent.
pub open spec fn count_text(c: Option<usize>) -> Seq<char> {
    match c {
        Some(n) => decimal(n as nat),
        None => Seq::empty(),
    }
}

/// The register's fragment: a double quote and the register, or nothing.
pub open spec fn register_text(r: Option<char>) -> Seq<char> {
    match r {
        Some(c) => seq!['"', c],
        None => Seq::empty(),
    }
}

/// The identifiers of the operators, in stack order, with no separator.
pub open spec fn operators_text(ops: Seq<Operator>) -> Seq<char>
    decreases ops.len(),
{
    if ops.len() == 0 {
        Seq::empty()
    } else {
        operators_text(ops.drop_last()) + ops.last()@
    }
}

/// The whole pending command: pre-count, register, operators, post-count.
pub open spec fn description(s: VimState) -> Seq<char> {
    count_text(s.pre_count) + register_text(s.selected_register) + operators_text(
        s.operator_stack@,
    ) + count_text(s.post_count)
}

/// Relies on String::push: appends one character to the end of the string.
#[verifier::external_body]
fn push_char(s: &mut String, c: char)
    ensures
        final(s)@ == old(s)@.push(c),
{
    s.push(c)
}

/// Appends the decimal form of `n` to `s`.
pub fn push_decimal(s: &mut String, n: usize)
    ensures
        final(s)@ == old(s)@ + decimal(n as nat),
    decreases n,
{
    if n >= 10 {
        push_decimal(s, n / 10);
    }
    let d: u8 = (n % 10) as u8;
    let c = (48u8 + d) as char;
    push_char(s, c);
    assert(final(s)@ =~= old(s)@ + decimal(n as nat));
}

/// Formats a count as plain decimal digits.
pub fn count_to_string(n: usize) -> (r: String)
    ensures
        r@ == decimal(n as nat),
{
    let mut s = String::new();
    push_decimal(&mut s, n);
    assert(s@ =~= decimal(n as nat));
    s
}

/// The pending command of `state` as one string: the pre-count, then `"`
/// and the selected register, then each pending operator's identifier in
/// stack order, then the post-count. Absent parts contribute nothing.
pub fn current_operators_description(state: &VimState) -> (r: String)
    ensures
        r@ == description(*state),
{
    let mut s = String::new();
    if let Some(n) = state.pre_count {
        push_decimal(&mut s, n);
    }
    if let Some(reg) = state.selected_register {
        push_char(&mut s, '"');
        push_char(&mut s, reg);
    }
    let ghost head = s@;
    assert(head =~= count_text(state.pre_count) + register_text(state.selected_register));
    let ops = &state.operator_stack;
    let mut i: usize = 0;
    while i < ops.len()
        invariant
            0 <= i <= ops@.len(),
            s@ == head + operators_text(ops@.take(i as int)),
        decreases ops@.len() - i,
    {
        assert(ops@.take(i as int + 1).drop_last() =~= ops@.take(i as int));
        s.append(ops[i].id());
        i += 1;
    }
    assert(ops@.take(i as int) =~= ops@);
    if let Some(n) = state.post_count {
        push_decimal(&mut s, n);
    }
    assert(s@ =~= description(*state));
    s
}

} // verus!
