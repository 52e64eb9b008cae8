//! Text building with exact contracts.
use vstd::prelude::*;

verus! {

/// The decimal digit of a number below ten.
pub open spec fn digit_text(digit: nat) -> Seq<char> {
    seq![('0' as int + digit) as char]
}

/// A number in decimal, without leading zeros.
pub open spec fn decimal_text(number: nat) -> Seq<char>
    decreases number,
{
    if number < 10 {
        digit_text(number)
    } else {
        decimal_text(number / 10) + digit_text(number % 10)
    }
}

/// A text between double quotes.
pub open spec fn quoted(text: Seq<char>) -> Seq<char> {
    seq!['"'] + text + seq!['"']
}

/// Whether two texts are the same.
pub fn same(left: &str, right: &str) -> (res: bool)
    ensures
        res == (left@ == right@),
{
    left.to_owned() == right.to_owned()
}

/// One text after the other.
pub fn join(left: &str, right: &str) -> (res: String)
    ensures
        res@ == left@ + right@,
{
    let mut res = left.to_owned();
    res.append(right);
    res
}

fn digit(value: u64) -> (res: &'static str)
    requires
        value < 10,
    ensures
        res@ == digit_text(value as nat),
{
    let res = match value {
        0 => "0",
        1 => "1",
        2 => "2",
        3 => "3",
        4 => "4",
        5 => "5",
        6 => "6",
        7 => "7",
        8 => "8",
        _ => "9",
    };
    proof {
        reveal_strlit("0");
        reveal_strlit("1");
        reveal_strlit("2");
        reveal_strlit("3");
        reveal_strlit("4");
        reveal_strlit("5");
        reveal_strlit("6");
        reveal_strlit("7");
        reveal_strlit("8");
        reveal_strlit("9");
        assert(res@ =~= digit_text(value as nat));
    }
    res
}

/// A number in decimal.
pub fn decimal(number: u64) -> (res: String)
    ensures
        res@ == decimal_text(number as nat),
    decreases number,
{
    if number < 10 {
        digit(number).to_owned()
    } else {
        join(decimal(number / 10).as_str(), digit(number % 10))
    }
}

/// The number that a text of digits stands for.
pub open spec fn decimal_value(digits: Seq<char>) -> int
    decreases digits.len(),
{
    if digits.len() == 0 {
        0
    } else {
        decimal_value(digits.drop_last()) * 10 + (digits.last() as int - '0' as int)
    }
}

/// A number in decimal reads back: its text is made of digits, stands for the
/// number, and begins with a zero only where it is the number zero.
pub proof fn law_decimal_reads_back(number: nat)
    ensures
        decimal_value(decimal_text(number)) == number,
        decimal_text(number).len() > 0,
        forall|i: int|
            0 <= i < decimal_text(number).len() ==> '0' <= #[trigger] decimal_text(number)[i]
                && decimal_text(number)[i] <= '9',
        decimal_text(number)[0] == '0' ==> number == 0,
    decreases number,
{
    let text = decimal_text(number);
    if number >= 10 {
        law_decimal_reads_back(number / 10);
        assert(text.drop_last() =~= decimal_text(number / 10));
        assert(text.last() == digit_text(number % 10)[0]);
        assert(text[0] == decimal_text(number / 10)[0]);
        assert forall|i: int| 0 <= i < text.len() implies '0' <= #[trigger] text[i] && text[i]
            <= '9' by {
            if i < text.len() - 1 {
                assert(text[i] == decimal_text(number / 10)[i]);
            }
        }
    } else {
        assert(text.drop_last() =~= Seq::empty());
        assert(decimal_value(Seq::empty()) == 0);
    }
}

/// A quoted text is the text, with a quote before it and one behind it.
pub proof fn law_quotes_stand_around(text: Seq<char>)
    ensures
        quoted(text).len() == text.len() + 2,
        quoted(text)[0] == '"',
        quoted(text).last() == '"',
        quoted(text).subrange(1, quoted(text).len() - 1) == text,
{
    assert(quoted(text).subrange(1, quoted(text).len() - 1) =~= text);
}

/// A text as `Debug` shows it: between quotes, with escapes.
pub uninterp spec fn debug_text(text: Seq<char>) -> Seq<char>;

/// `Debug` of `str` in `std`, through `format`. What it writes is a function of
/// the text alone; which characters it escapes, and how, is left unsaid.
#[verifier::external_body]
pub(crate) fn debug(text: &str) -> (res: String)
    ensures
        res@ == debug_text(text@),
{
    format!("{text:?}")
}

} // verus!
