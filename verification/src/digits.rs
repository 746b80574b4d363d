use vstd::prelude::*;
use vstd::string::StringExecFns;

verus! {

/// The character for one decimal digit.
pub open spec fn digit_char(d: nat) -> char {
    if d == 0 {
        '0'
    } else if d == 1 {
        '1'
    } else if d == 2 {
        '2'
    } else if d == 3 {
        '3'
    } else if d == 4 {
        '4'
    } else if d == 5 {
        '5'
    } else if d == 6 {
        '6'
    } else if d == 7 {
        '7'
    } else if d == 8 {
        '8'
    } else {
        '9'
    }
}

/// The decimal spelling of a number, most significant digit first and
/// without leading zeros (zero itself is spelled `0`).
pub open spec fn spec_decimal(n: nat) -> Seq<char>
    decreases n,
{
    if n < 10 {
        seq![digit_char(n)]
    } else {
        spec_decimal(n / 10) + seq![digit_char(n % 10)]
    }
}

proof fn lemma_decimal_len(n: nat)
    ensures
        spec_decimal(n).len() >= 1,
    decreases n,
{
    if n >= 10 {
        lemma_decimal_len(n / 10);
    }
}

/// Two distinct numbers have distinct decimal spellings.
proof fn lemma_decimal_injective(m: nat, n: nat)
    requires
        m != n,
    ensures
        spec_decimal(m) != spec_decimal(n),
    decreases m + n,
{
    let left = spec_decimal(m);
    let right = spec_decimal(n);
    if m < 10 && n < 10 {
        assert(left[0] != right[0]);
    } else if m < 10 {
        lemma_decimal_len(n / 10);
        assert(left.len() == 1 && right.len() >= 2);
    } else if n < 10 {
        lemma_decimal_len(m / 10);
        assert(left.len() >= 2 && right.len() == 1);
    } else {
        if m % 10 != n % 10 {
            assert(left.last() != right.last());
        } else {
            lemma_decimal_injective(m / 10, n / 10);
            if left == right {
                assert(left.drop_last() =~= spec_decimal(m / 10));
                assert(right.drop_last() =~= spec_decimal(n / 10));
            }
        }
    }
}

/// Equal decimal spellings come from equal numbers (and conversely).
pub proof fn lemma_decimal_identity(m: nat, n: nat)
    ensures
        (spec_decimal(m) == spec_decimal(n)) == (m == n),
{
    if m != n {
        lemma_decimal_injective(m, n);
    }
}

fn digit_str(d: u64) -> (text: &'static str)
    requires
        d < 10,
    ensures
        text@ == seq![digit_char(d as nat)],
{
    let text: &'static str = match d {
        0 => "0",
        1 => "1",
        2 => "2",
        3 => "3",
        4 => "4",
        5 => "5",
        6 => "6",
        7 => "7",
        8 => "8",
        _ => "9",
    };
    proof {
        reveal_strlit("0");
        reveal_strlit("1");
        reveal_strlit("2");
        reveal_strlit("3");
        reveal_strlit("4");
        reveal_strlit("5");
        reveal_strlit("6");
        reveal_strlit("7");
        reveal_strlit("8");
        reveal_strlit("9");
        assert(text@ =~= seq![digit_char(d as nat)]);
    }
    text
}

/// Spell a number in decimal.
pub fn decimal(n: u64) -> (text: String)
    ensures
        text@ == spec_decimal(n as nat),
    decreases n,
{
    if n < 10 {
        digit_str(n).to_owned()
    } else {
        let mut text = decimal(n / 10);
        text.append(digit_str(n % 10));
        text
    }
}

} // verus!
