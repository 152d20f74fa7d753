//! CSS class names and style values of a transition kind.

use vstd::prelude::*;

verus! {

pub open spec fn hidden_suffix() -> Seq<char> {
    "-transition-hidden"@
}

pub open spec fn activating_suffix() -> Seq<char> {
    "-transition-activating"@
}

/// `<kind>-transition-hidden`: the class of the start state.
pub open spec fn hidden_class_of(kind: Seq<char>) -> Seq<char> {
    kind + hidden_suffix()
}

/// `<kind>-transition-activating`: the class of the end state.
pub open spec fn activating_class_of(kind: Seq<char>) -> Seq<char> {
    kind + activating_suffix()
}

pub open spec fn digit_char(d: nat) -> char {
    if d == 0 { '0' }
    else if d == 1 { '1' }
    else if d == 2 { '2' }
    else if d == 3 { '3' }
    else if d == 4 { '4' }
    else if d == 5 { '5' }
    else if d == 6 { '6' }
    else if d == 7 { '7' }
    else if d == 8 { '8' }
    else { '9' }
}

/// The decimal digits of `n`, without leading zeros.
pub open spec fn decimal(n: nat) -> Seq<char>
    decreases n,
{
    if n < 10 {
        seq![digit_char(n)]
    } else {
        decimal(n / 10).push(digit_char(n % 10))
    }
}

/// The CSS time value of a duration in milliseconds, such as `200ms`.
pub open spec fn millis_value(ms: nat) -> Seq<char> {
    decimal(ms) + "ms"@
}

fn digit_str(d: u32) -> (r: &'static str)
    requires
        d < 10,
    ensures
        r@ == seq![digit_char(d as nat)],
{
    proof {
        reveal_strlit("0");
        reveal_strlit("1");
        reveal_strlit("2");
        reveal_strlit("3");
        reveal_strlit("4");
        reveal_strlit("5");
        reveal_strlit("6");
        reveal_strlit("7");
        reveal_strlit("8");
        reveal_strlit("9");
    }
    if d == 0 { "0" }
    else if d == 1 { "1" }
    else if d == 2 { "2" }
    else if d == 3 { "3" }
    else if d == 4 { "4" }
    else if d == 5 { "5" }
    else if d == 6 { "6" }
    else if d == 7 { "7" }
    else if d == 8 { "8" }
    else { "9" }
}

fn decimal_string(n: u32) -> (r: String)
    ensures
        r@ == decimal(n as nat),
    decreases n,
{
    if n < 10 {
        String::from_str(digit_str(n))
    } else {
        let mut s = decimal_string(n / 10);
        s.append(digit_str(n % 10));
        s
    }
}

/// The hidden class of a transition kind.
pub fn hidden_class(kind: &str) -> (r: String)
    ensures
        r@ == hidden_class_of(kind@),
{
    let mut s = String::from_str(kind);
    s.append("-transition-hidden");
    s
}

/// The activating class of a transition kind.
pub fn activating_class(kind: &str) -> (r: String)
    ensures
        r@ == activating_class_of(kind@),
{
    let mut s = String::from_str(kind);
    s.append("-transition-activating");
    s
}

/// The value given to the element's `transition` style for a duration.
pub fn millis(duration_ms: u32) -> (r: String)
    ensures
        r@ == millis_value(duration_ms as nat),
{
    let mut s = decimal_string(duration_ms);
    s.append("ms");
    s
}

} // verus!
