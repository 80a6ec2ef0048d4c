//! Names of the image files.
//!
//! Every capture is stored under the image directory as `<index>.jpg`, where
//! the index is written in decimal without padding. Distinct indices give
//! distinct paths, so captures of one run never overwrite each other.

use vstd::prelude::*;

verus! {

/// Directory that receives the images.
pub const IMAGE_DIRECTORY: &'static str = "/home/pi/deepimage";

/// Extension of every image file, with its dot.
pub const IMAGE_EXTENSION: &'static str = ".jpg";

/// The character for a single decimal digit.
pub open spec fn digit(d: nat) -> char
    recommends
        d < 10,
{
    if d == 0 {
        '0'
    } else if d == 1 {
        '1'
    } else if d == 2 {
        '2'
    } else if d == 3 {
        '3'
    } else if d == 4 {
        '4'
    } else if d == 5 {
        '5'
    } else if d == 6 {
        '6'
    } else if d == 7 {
        '7'
    } else if d == 8 {
        '8'
    } else {
        '9'
    }
}

/// The digit that a character stands for; zero for any other character.
pub open spec fn digit_value(c: char) -> nat {
    if c == '1' {
        1
    } else if c == '2' {
        2
    } else if c == '3' {
        3
    } else if c == '4' {
        4
    } else if c == '5' {
        5
    } else if c == '6' {
        6
    } else if c == '7' {
        7
    } else if c == '8' {
        8
    } else if c == '9' {
        9
    } else {
        0
    }
}

/// Whether a character is one of `0` to `9`.
pub open spec fn is_digit(c: char) -> bool {
    c == '0' || digit_value(c) != 0
}

/// The decimal numeral of `n`, most significant digit first.
pub open spec fn decimal(n: nat) -> Seq<char>
    decreases n,
{
    if n < 10 {
        seq![digit(n)]
    } else {
        decimal(n / 10).push(digit(n % 10))
    }
}

/// The number that a string of digits denotes, read in base ten.
pub open spec fn numeral_value(s: Seq<char>) -> nat
    decreases s.len(),
{
    if s.len() == 0 {
        0
    } else {
        10 * numeral_value(s.drop_last()) + digit_value(s.last())
    }
}

/// The file name of the capture with the given index.
pub open spec fn spec_image_name(index: nat) -> Seq<char> {
    decimal(index) + IMAGE_EXTENSION@
}

/// The full path of the capture with the given index.
pub open spec fn spec_image_path(index: nat) -> Seq<char> {
    IMAGE_DIRECTORY@ + seq!['/'] + spec_image_name(index)
}

/// Reading a decimal numeral back gives the number it was written from.
pub proof fn lemma_decimal_reads_back(n: nat)
    ensures
        numeral_value(decimal(n)) == n,
    decreases n,
{
    if n < 10 {
        assert(decimal(n).drop_last() =~= Seq::<char>::empty());
        assert(numeral_value(decimal(n).drop_last()) == 0);
    } else {
        lemma_decimal_reads_back(n / 10);
        assert(decimal(n).drop_last() =~= decimal(n / 10));
    }
}

/// A decimal numeral is never empty, holds digits only, and starts with a
/// zero only where the number is zero.
pub proof fn lemma_decimal_is_unpadded(n: nat)
    ensures
        decimal(n).len() >= 1,
        forall|i: int| 0 <= i < decimal(n).len() ==> is_digit(#[trigger] decimal(n)[i]),
        n == 0 <==> decimal(n)[0] == '0',
        n == 0 ==> decimal(n) == seq!['0'],
    decreases n,
{
    if n >= 10 {
        lemma_decimal_is_unpadded(n / 10);
    }
}

/// Two numbers with the same decimal numeral are the same number.
pub proof fn lemma_decimal_injective(a: nat, b: nat)
    requires
        decimal(a) == decimal(b),
    ensures
        a == b,
{
    lemma_decimal_reads_back(a);
    lemma_decimal_reads_back(b);
}

/// Two captures share a file name, or a path, only if they share the index.
pub proof fn lemma_image_names_distinct(a: nat, b: nat)
    ensures
        spec_image_name(a) == spec_image_name(b) ==> a == b,
        spec_image_path(a) == spec_image_path(b) ==> a == b,
{
    let ext = IMAGE_EXTENSION@;
    let head = IMAGE_DIRECTORY@ + seq!['/'];
    if spec_image_name(a) == spec_image_name(b) {
        let whole = spec_image_name(a);
        assert(decimal(a).len() + ext.len() == decimal(b).len() + ext.len());
        assert(decimal(a) =~= whole.subrange(0, decimal(a).len() as int));
        assert(decimal(b) =~= whole.subrange(0, decimal(b).len() as int));
        lemma_decimal_injective(a, b);
    }
    if spec_image_path(a) == spec_image_path(b) {
        let whole = spec_image_path(a);
        let na = spec_image_name(a);
        let nb = spec_image_name(b);
        assert(whole.len() == head.len() + na.len());
        assert(whole.len() == head.len() + nb.len());
        assert(na =~= whole.subrange(head.len() as int, whole.len() as int));
        assert(nb =~= whole.subrange(head.len() as int, whole.len() as int));
    }
}

/// The one-character string for a decimal digit.
fn digit_text(d: u64) -> (text: &'static str)
    requires
        d < 10,
    ensures
        text@ == seq![digit(d as nat)],
{
    proof {
        reveal_strlit("0");
        reveal_strlit("1");
        reveal_strlit("2");
        reveal_strlit("3");
        reveal_strlit("4");
        reveal_strlit("5");
        reveal_strlit("6");
        reveal_strlit("7");
        reveal_strlit("8");
        reveal_strlit("9");
    }
    let text: &'static str = if d == 0 {
        "0"
    } else if d == 1 {
        "1"
    } else if d == 2 {
        "2"
    } else if d == 3 {
        "3"
    } else if d == 4 {
        "4"
    } else if d == 5 {
        "5"
    } else if d == 6 {
        "6"
    } else if d == 7 {
        "7"
    } else if d == 8 {
        "8"
    } else {
        "9"
    };
    assert(text@ =~= seq![digit(d as nat)]);
    text
}

/// Appends the decimal numeral of `n` to `text`.
fn push_decimal(text: &mut String, n: u64)
    ensures
        final(text)@ == old(text)@ + decimal(n as nat),
    decreases n,
{
    if n >= 10 {
        push_decimal(text, n / 10);
    }
    text.append(digit_text(n % 10));
}

/// Writes `n` in decimal, without sign or padding.
pub fn decimal_string(n: u64) -> (text: String)
    ensures
        text@ == decimal(n as nat),
{
    let mut text = String::new();
    push_decimal(&mut text, n);
    text
}

/// The file name under which the capture with the given index is stored.
pub fn image_name(index: u64) -> (name: String)
    ensures
        name@ == spec_image_name(index as nat),
{
    let mut name = decimal_string(index);
    name.append(IMAGE_EXTENSION);
    name
}

/// The full path under which the capture with the given index is stored.
pub fn image_path(index: u64) -> (path: String)
    ensures
        path@ == spec_image_path(index as nat),
{
    proof {
        reveal_strlit("/");
    }
    let name = image_name(index);
    let mut path = String::from_str(IMAGE_DIRECTORY);
    path.append("/");
    path.append(name.as_str());
    assert(path@ =~= spec_image_path(index as nat));
    path
}

} // verus!
