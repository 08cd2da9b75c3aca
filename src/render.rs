//! Rendering of counts as text.

use thousands::policies::{
    COMMA_SEPARATOR, DOT_SEPARATOR, HEX_FOUR, SPACE_SEPARATOR, UNDERSCORE_SEPARATOR,
};
use thousands::Separable;
use vstd::prelude::*;
use vstd::string::*;

verus! {

/// The ASCII digit for `d`, which is below ten.
pub open spec fn digit_char(d: int) -> char {
    seq!['0', '1', '2', '3', '4', '5', '6', '7', '8', '9'][d]
}

/// Plain decimal notation of `n`: no sign, no leading zeros, no separators.
pub open spec fn decimal_of(n: nat) -> Seq<char>
    decreases n,
{
    if n < 10 {
        seq![digit_char(n as int)]
    } else {
        decimal_of(n / 10).push(digit_char((n % 10) as int))
    }
}

fn digit_text(d: u64) -> (r: &'static str)
    requires
        d < 10,
    ensures
        r@ == seq![digit_char(d as int)],
{
    proof {
        reveal_strlit("0");
        reveal_strlit("1");
        reveal_strlit("2");
        reveal_strlit("3");
        reveal_strlit("4");
        reveal_strlit("5");
        reveal_strlit("6");
        reveal_strlit("7");
        reveal_strlit("8");
        reveal_strlit("9");
    }
    if d == 0 {
        "0"
    } else if d == 1 {
        "1"
    } else if d == 2 {
        "2"
    } else if d == 3 {
        "3"
    } else if d == 4 {
        "4"
    } else if d == 5 {
        "5"
    } else if d == 6 {
        "6"
    } else if d == 7 {
        "7"
    } else if d == 8 {
        "8"
    } else {
        "9"
    }
}

/// Renders `n` in plain decimal notation.
pub fn to_decimal(n: u64) -> (r: String)
    ensures
        r@ == decimal_of(n as nat),
    decreases n,
{
    if n < 10 {
        String::from_str(digit_text(n))
    } else {
        let mut s = to_decimal(n / 10);
        s.append(digit_text(n % 10));
        s
    }
}

/// The ways a count can be written out.
#[derive(Clone, Copy, PartialEq, Eq, Structural)]
pub enum CountFormatterKind {
    /// Delimit the count with a `,` every three digits.
    Comma,
    /// Delimit the count with a `.` every three digits.
    Dot,
    /// Delimit the count with a ` ` every four hexadecimal digits.
    HexFour,
    /// Delimit the count with a ` ` every three digits.
    Space,
    /// Delimit the count with an `_` every three digits.
    Underscore,
    /// Plain decimal, no delimiter.
    Nothing,
}

/// `digits` cut into groups of `size` from the right, with `sep` between two
/// groups; the leftmost group may be shorter.
pub open spec fn grouped(digits: Seq<char>, size: nat, sep: Seq<char>) -> Seq<char>
    decreases digits.len(),
{
    if size == 0 || digits.len() <= size {
        digits
    } else {
        let cut = digits.len() - size;
        grouped(digits.subrange(0, cut), size, sep) + sep + digits.subrange(cut, digits.len() as int)
    }
}

impl CountFormatterKind {
    /// How many digits stand between two separators.
    pub open spec fn group_size(self) -> nat {
        match self {
            CountFormatterKind::HexFour => 4,
            CountFormatterKind::Nothing => 0,
            _ => 3,
        }
    }

    /// The text put between two groups of digits.
    pub open spec fn separator(self) -> Seq<char> {
        match self {
            CountFormatterKind::Comma => seq![','],
            CountFormatterKind::Dot => seq!['.'],
            CountFormatterKind::Underscore => seq!['_'],
            CountFormatterKind::Nothing => seq![],
            _ => seq![' '],
        }
    }
}

#[verifier::external_body]
fn separate(n: u64, kind: CountFormatterKind) -> (r: String)
    requires
        kind != CountFormatterKind::Nothing,
    ensures
        r@ == grouped(decimal_of(n as nat), kind.group_size(), kind.separator()),
{
    // `Nothing` never reaches this point: the precondition leaves it out.
    let policy = match kind {
        CountFormatterKind::Comma => COMMA_SEPARATOR,
        CountFormatterKind::Dot => DOT_SEPARATOR,
        CountFormatterKind::HexFour => HEX_FOUR,
        CountFormatterKind::Space => SPACE_SEPARATOR,
        CountFormatterKind::Underscore | CountFormatterKind::Nothing => UNDERSCORE_SEPARATOR,
    };
    n.separate_by_policy(policy)
}

impl CountFormatterKind {
    /// The text that stands for `count` under this kind.
    pub open spec fn rendered(self, count: u64) -> Seq<char> {
        grouped(decimal_of(count as nat), self.group_size(), self.separator())
    }

    /// Writes `count` out as this kind says.
    pub fn fmt(&self, count: u64) -> (r: String)
        ensures
            r@ == self.rendered(count),
    {
        match self {
            CountFormatterKind::Nothing => {
                let r = to_decimal(count);
                assert(r@ == self.rendered(count));
                r
            },
            _ => separate(count, *self),
        }
    }
}

} // verus!
