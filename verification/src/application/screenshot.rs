//! Names of the screenshots of a headless sequence: the stem of the
//! screenshot path, a dash, the frame number written with at least four
//! digits, a dot and the extension (`shot-0042.png`).

use vstd::prelude::*;
use vstd::string::StringExecFns;

verus! {

/// The character of a decimal digit.
pub open spec fn digit_char(d: nat) -> char {
    if d == 0 {
        '0'
    } else if d == 1 {
        '1'
    } else if d == 2 {
        '2'
    } else if d == 3 {
        '3'
    } else if d == 4 {
        '4'
    } else if d == 5 {
        '5'
    } else if d == 6 {
        '6'
    } else if d == 7 {
        '7'
    } else if d == 8 {
        '8'
    } else {
        '9'
    }
}

/// The decimal digits of `n`, most significant first, without leading zeros.
pub open spec fn decimal(n: nat) -> Seq<char>
    decreases n,
{
    if n < 10 {
        seq![digit_char(n)]
    } else {
        decimal(n / 10).push(digit_char(n % 10))
    }
}

/// The decimal digits of `n`, with leading zeros up to `width` digits.
pub open spec fn zero_padded(n: nat, width: nat) -> Seq<char> {
    if decimal(n).len() < width {
        Seq::new((width - decimal(n).len()) as nat, |i: int| '0') + decimal(n)
    } else {
        decimal(n)
    }
}

/// The file name of the screenshot of frame `frame` in a sequence.
pub open spec fn spec_sequence_file_name(stem: Seq<char>, frame: nat, ext: Seq<char>) -> Seq<char> {
    stem + seq!['-'] + zero_padded(frame, 4) + seq!['.'] + ext
}

/// The text of a single digit
fn digit_str(d: u64) -> (s: &'static str)
    requires
        d < 10,
    ensures
        s@ == seq![digit_char(d as nat)],
{
    proof {
        reveal_strlit("0");
        reveal_strlit("1");
        reveal_strlit("2");
        reveal_strlit("3");
        reveal_strlit("4");
        reveal_strlit("5");
        reveal_strlit("6");
        reveal_strlit("7");
        reveal_strlit("8");
        reveal_strlit("9");
    }
    if d == 0 {
        "0"
    } else if d == 1 {
        "1"
    } else if d == 2 {
        "2"
    } else if d == 3 {
        "3"
    } else if d == 4 {
        "4"
    } else if d == 5 {
        "5"
    } else if d == 6 {
        "6"
    } else if d == 7 {
        "7"
    } else if d == 8 {
        "8"
    } else {
        "9"
    }
}

/// Append the decimal digits of `n`
fn push_decimal(s: &mut String, n: u64)
    ensures
        final(s)@ == old(s)@ + decimal(n as nat),
    decreases n,
{
    if n >= 10 {
        push_decimal(s, n / 10);
    }
    s.append(digit_str(n % 10));
    proof {
        if n >= 10 {
            assert(decimal(n as nat) == decimal((n / 10) as nat).push(digit_char((n % 10) as nat)));
        }
    }
}

/// The number of decimal digits of `n`
fn digit_count(n: u64) -> (c: usize)
    ensures
        c == decimal(n as nat).len(),
        c <= 20,
    decreases n,
{
    proof {
        lemma_decimal_len(n as nat);
    }
    if n < 10 {
        1
    } else {
        digit_count(n / 10) + 1
    }
}

/// A number has at least one digit, and one that fits in 64 bits at most 20.
proof fn lemma_decimal_len(n: nat)
    ensures
        1 <= decimal(n).len(),
        n <= u64::MAX ==> decimal(n).len() <= 20,
{
    if n <= u64::MAX {
        assert(pow10(20) == 100000000000000000000nat) by {
            reveal_with_fuel(pow10, 21);
        }
        lemma_decimal_short(n, 20);
    }
}

/// A number below 10^k has at most k digits.
proof fn lemma_decimal_short(n: nat, k: nat)
    requires
        k >= 1,
        n < pow10(k),
    ensures
        decimal(n).len() <= k,
    decreases n,
{
    if n >= 10 {
        assert(k >= 2) by {
            if k == 1 {
                assert(pow10(1) == 10);
            }
        }
        assert(n / 10 < pow10((k - 1) as nat)) by {
            assert(pow10(k) == 10 * pow10((k - 1) as nat));
        }
        lemma_decimal_short(n / 10, (k - 1) as nat);
    }
}

/// Ten to the power `k`.
spec fn pow10(k: nat) -> nat
    decreases k,
{
    if k == 0 {
        1
    } else {
        10 * pow10((k - 1) as nat)
    }
}

/// The name of the screenshot of frame `frame` in a sequence: `stem`, a
/// dash, the frame number zero-padded to four digits, a dot and `ext`
pub fn sequence_file_name(stem: &str, frame: u64, ext: &str) -> (name: String)
    ensures
        name@ == spec_sequence_file_name(stem@, frame as nat, ext@),
{
    proof {
        reveal_strlit("-");
        reveal_strlit("0");
        reveal_strlit(".");
    }
    let mut name = stem.to_owned();
    name.append("-");
    let count = digit_count(frame);
    let ghost before_pad = name@;
    let mut padded: usize = count;
    while padded < 4
        invariant
            count <= padded <= 4 || padded == count,
            count == decimal(frame as nat).len(),
            "0"@ == seq!['0'],
            name@ == before_pad + Seq::new((padded - count) as nat, |i: int| '0'),
        decreases 4 - padded,
    {
        name.append("0");
        proof {
            assert(before_pad + Seq::new((padded + 1 - count) as nat, |i: int| '0')
                =~= before_pad + Seq::new((padded - count) as nat, |i: int| '0') + seq!['0']);
        }
        padded += 1;
    }
    let ghost after_pad = name@;
    push_decimal(&mut name, frame);
    name.append(".");
    name.append(ext);
    proof {
        let zeros = Seq::new((padded - count) as nat, |i: int| '0');
        if count < 4 {
            assert(padded == 4);
            assert(zero_padded(frame as nat, 4) =~= zeros + decimal(frame as nat));
        } else {
            assert(zeros =~= Seq::<char>::empty());
            assert(zero_padded(frame as nat, 4) == decimal(frame as nat));
        }
        assert(name@ =~= spec_sequence_file_name(stem@, frame as nat, ext@));
    }
    name
}

} // verus!
