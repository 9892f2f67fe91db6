//! Small operations on text.
use vstd::prelude::*;
use vstd::string::{StrSliceExecFns, StringExecFns};

verus! {

/// Whether two texts are the same.
pub fn same_text(left: &str, right: &str) -> (same: bool)
    ensures
        same == (left@ == right@),
{
    let a: String = left.to_owned();
    let b: String = right.to_owned();
    a == b
}

/// The text of one decimal digit.
pub open spec fn spec_digit(d: int) -> Seq<char> {
    if d == 0 {
        "0"@
    } else if d == 1 {
        "1"@
    } else if d == 2 {
        "2"@
    } else if d == 3 {
        "3"@
    } else if d == 4 {
        "4"@
    } else if d == 5 {
        "5"@
    } else if d == 6 {
        "6"@
    } else if d == 7 {
        "7"@
    } else if d == 8 {
        "8"@
    } else {
        "9"@
    }
}

/// The decimal text of a byte, without leading zeros.
pub open spec fn spec_decimal(n: u8) -> Seq<char> {
    if n < 10 {
        spec_digit(n as int)
    } else if n < 100 {
        spec_digit(n as int / 10) + spec_digit(n as int % 10)
    } else {
        spec_digit(n as int / 100) + spec_digit((n as int / 10) % 10) + spec_digit(n as int % 10)
    }
}

fn digit(d: u8) -> (text: &'static str)
    requires
        d < 10,
    ensures
        text@ == spec_digit(d as int),
{
    if d == 0 {
        "0"
    } else if d == 1 {
        "1"
    } else if d == 2 {
        "2"
    } else if d == 3 {
        "3"
    } else if d == 4 {
        "4"
    } else if d == 5 {
        "5"
    } else if d == 6 {
        "6"
    } else if d == 7 {
        "7"
    } else if d == 8 {
        "8"
    } else {
        "9"
    }
}

/// The decimal text of a byte.
pub fn decimal(n: u8) -> (text: String)
    ensures
        text@ == spec_decimal(n),
{
    if n < 10 {
        digit(n).to_owned()
    } else if n < 100 {
        let mut text: String = digit(n / 10).to_owned();
        text.append(digit(n % 10));
        text
    } else {
        let mut text: String = digit(n / 100).to_owned();
        text.append(digit((n / 10) % 10));
        text.append(digit(n % 10));
        text
    }
}

/// An identifier without the zero character that ends it on the wire.
pub open spec fn spec_bare(identifier: Seq<char>) -> Seq<char> {
    if identifier.len() > 0 && identifier.last() == '\0' {
        identifier.drop_last()
    } else {
        identifier
    }
}

/// An identifier without the zero character that ends it on the wire.
pub fn bare(identifier: &str) -> (text: String)
    ensures
        text@ == spec_bare(identifier@),
{
    let n: usize = identifier.unicode_len();
    if n > 0 && identifier.get_char(n - 1) == '\0' {
        let cut = identifier.substring_char(0, n - 1);
        assert(cut@ =~= identifier@.drop_last());
        cut.to_owned()
    } else {
        identifier.to_owned()
    }
}

} // verus!
