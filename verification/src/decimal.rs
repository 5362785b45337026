//! Numbers in decimal notation.
use vstd::prelude::*;
use vstd::string::StringExecFns;

verus! {

/// The character of a decimal digit.
pub open spec fn digit_char(digit: nat) -> char {
    (('0' as nat) + digit) as char
}

/// `n` in decimal notation, without leading zeros.
pub open spec fn decimal(n: nat) -> Seq<char>
    decreases n,
{
    if n < 10 {
        seq![digit_char(n)]
    } else {
        decimal(n / 10).push(digit_char(n % 10))
    }
}

/// `numeral` is the ordinary way to write `n`: decimal digits whose values, weighted by
/// their places, add up to `n`, and no zero in front.
pub open spec fn reads_as(numeral: Seq<char>, n: int) -> bool {
    &&& numeral.len() >= 1
    &&& forall|i: int| 0 <= i < numeral.len() ==> '0' <= #[trigger] numeral[i] <= '9'
    &&& numeral.len() > 1 ==> numeral[0] != '0'
    &&& numeral.fold_left(0int, |value: int, digit: char| 10 * value + (digit as int - '0' as int))
        == n
}

/// The text of a decimal digit.
fn digit_text(digit: u32) -> (text: &'static str)
    requires
        digit < 10,
    ensures
        text@ == seq![digit_char(digit as nat)],
{
    proof {
        reveal_strlit("0");
        reveal_strlit("1");
        reveal_strlit("2");
        reveal_strlit("3");
        reveal_strlit("4");
        reveal_strlit("5");
        reveal_strlit("6");
        reveal_strlit("7");
        reveal_strlit("8");
        reveal_strlit("9");
    }
    match digit {
        0 => "0",
        1 => "1",
        2 => "2",
        3 => "3",
        4 => "4",
        5 => "5",
        6 => "6",
        7 => "7",
        8 => "8",
        _ => "9",
    }
}

/// Appends `n` in decimal notation to a text.
pub fn append_decimal(text: &mut String, n: u32)
    ensures
        final(text)@ == old(text)@ + decimal(n as nat),
        old(text)@.is_prefix_of(final(text)@),
        reads_as(final(text)@.skip(old(text)@.len() as int), n as int),
    decreases n,
{
    if n >= 10 {
        append_decimal(text, n / 10);
    }
    text.append(digit_text(n % 10));
    assert(text@ =~= old(text)@ + decimal(n as nat));
    proof {
        law_decimal_reads_back(n as nat);
        assert(text@.skip(old(text)@.len() as int) =~= decimal(n as nat));
    }
}

/// Two numbers with the same decimal notation are the same.
pub(crate) proof fn lemma_decimal_injective(m: nat, n: nat)
    requires
        decimal(m) == decimal(n),
    ensures
        m == n,
    decreases m,
{
    lemma_decimal_nonempty(m);
    lemma_decimal_nonempty(n);
    assert(decimal(m).last() == digit_char(m % 10));
    assert(decimal(n).last() == digit_char(n % 10));
    if m >= 10 && n >= 10 {
        assert(decimal(m).drop_last() =~= decimal(m / 10));
        assert(decimal(n).drop_last() =~= decimal(n / 10));
        lemma_decimal_injective(m / 10, n / 10);
    } else if m >= 10 {
        lemma_decimal_nonempty(m / 10);
    } else if n >= 10 {
        lemma_decimal_nonempty(n / 10);
    }
}

/// Decimal notation has at least one digit.
proof fn lemma_decimal_nonempty(n: nat)
    ensures
        decimal(n).len() >= 1,
{
}

/// A number in decimal notation reads as that number.
pub proof fn law_decimal_reads_back(n: nat)
    ensures
        reads_as(decimal(n), n as int),
    decreases n,
{
    let weigh = |value: int, digit: char| 10 * value + (digit as int - '0' as int);
    let numeral = decimal(n);
    reveal_with_fuel(Seq::fold_left, 2);
    if n < 10 {
        assert(numeral.drop_last() =~= Seq::<char>::empty());
        assert(numeral.fold_left(0int, weigh) == weigh(0, numeral.last()));
    } else {
        law_decimal_reads_back(n / 10);
        assert(numeral.drop_last() =~= decimal(n / 10));
        assert(numeral.fold_left(0int, weigh) == weigh(
            decimal(n / 10).fold_left(0int, weigh),
            numeral.last(),
        ));
        assert(numeral[0] == decimal(n / 10)[0]);
        if n / 10 < 10 {
            assert(decimal(n / 10)[0] == digit_char(n / 10));
        }
        assert forall|i: int| 0 <= i < numeral.len() implies '0' <= #[trigger] numeral[i] <= '9' by {
            if i < numeral.len() - 1 {
                assert(numeral[i] == decimal(n / 10)[i]);
            }
        }
    }
}

} // verus!
