//! Display-only decimal values.
//!
//! `Decimal` pairs an unsigned 128-bit magnitude with a decimal-place
//! count and renders it as a human-readable decimal string: the digits
//! of the magnitude with a decimal point inserted `decimals` places
//! from the right, zero-padded as `0.00…` when the magnitude has no
//! integer part. It carries no arithmetic behaviour beyond formatting.

use vstd::prelude::*;
use vstd::string::StringExecFns;

verus! {

/// The character for a single decimal digit value.
pub open spec fn digit_char(d: int) -> char {
    if d == 0 {
        '0'
    } else if d == 1 {
        '1'
    } else if d == 2 {
        '2'
    } else if d == 3 {
        '3'
    } else if d == 4 {
        '4'
    } else if d == 5 {
        '5'
    } else if d == 6 {
        '6'
    } else if d == 7 {
        '7'
    } else if d == 8 {
        '8'
    } else {
        '9'
    }
}

/// The decimal digit characters of `n`, most significant first, with no
/// leading zeros except for `n == 0` itself.
pub open spec fn dec_digits(n: nat) -> Seq<char>
    decreases n,
{
    if n < 10 {
        seq![digit_char(n as int)]
    } else {
        dec_digits(n / 10) + seq![digit_char((n % 10) as int)]
    }
}

/// A run of `k` zero characters.
pub open spec fn zero_run(k: nat) -> Seq<char> {
    Seq::new(k, |i: int| '0')
}

/// The digit characters for a sequence of digit values.
pub open spec fn digit_seq_chars(ds: Seq<u8>) -> Seq<char> {
    Seq::new(ds.len(), |i: int| digit_char(ds[i] as int))
}

/// The rendered form of a scaled integer: the digits of `value` with a
/// decimal point `decimals` places from the right. A magnitude with no
/// integer part is padded to `0.` followed by enough zeros to place
/// every digit in the fractional part; with `decimals == 0` the digits
/// keep a trailing point.
pub open spec fn decimal_string(value: u128, decimals: u32) -> Seq<char> {
    let digits = dec_digits(value as nat);
    if digits.len() <= decimals {
        seq!['0', '.'] + zero_run((decimals - digits.len()) as nat) + digits
    } else {
        digits.subrange(0, digits.len() - decimals) + seq!['.'] + digits.subrange(
            digits.len() - decimals,
            digits.len() as int,
        )
    }
}

/// A scaled integer for display: `value` is the magnitude in units of
/// `10^-decimals`.
pub struct Decimal {
    /// The scaled magnitude.
    pub value: u128,
    /// How many of the magnitude's trailing digits are fractional.
    pub decimals: u32,
}

impl Decimal {
    /// Pairs a magnitude with its decimal-place count.
    pub fn new(value: u128, decimals: u32) -> (d: Decimal)
        ensures
            d.value == value,
            d.decimals == decimals,
    {
        Decimal { value, decimals }
    }

    /// Renders the value as a decimal string.
    pub fn to_string(&self) -> (s: String)
        ensures
            s@ == decimal_string(self.value, self.decimals),
    {
        let digits = to_decimal_digits(self.value);
        let mut s = String::new();
        if digits.len() <= self.decimals as usize {
            proof {
                reveal_strlit("0.");
                assert(("0.")@ =~= seq!['0', '.']);
            }
            s.append("0.");
            let mut k: usize = digits.len();
            proof {
                assert(s@ =~= seq!['0', '.'] + zero_run((k - digits@.len()) as nat));
            }
            while k < self.decimals as usize
                invariant
                    digits@.len() <= k <= self.decimals as usize,
                    s@ == seq!['0', '.'] + zero_run((k - digits@.len()) as nat),
                decreases self.decimals as usize - k,
            {
                proof {
                    reveal_strlit("0");
                    assert(("0")@ =~= seq!['0']);
                }
                s.append("0");
                k = k + 1;
                proof {
                    assert(zero_run((k - digits@.len()) as nat) =~= zero_run(
                        (k - 1 - digits@.len()) as nat,
                    ) + seq!['0']);
                }
            }
            append_digits(&mut s, &digits, 0, digits.len());
            proof {
                assert(digits@.subrange(0, digits@.len() as int) =~= digits@);
                assert(s@ =~= decimal_string(self.value, self.decimals));
            }
        } else {
            let split = digits.len() - self.decimals as usize;
            append_digits(&mut s, &digits, 0, split);
            proof {
                reveal_strlit(".");
                assert((".")@ =~= seq!['.']);
            }
            s.append(".");
            append_digits(&mut s, &digits, split, digits.len());
            proof {
                let whole = dec_digits(self.value as nat);
                assert(digit_seq_chars(digits@.subrange(0, split as int)) =~= whole.subrange(
                    0,
                    split as int,
                ));
                assert(digit_seq_chars(digits@.subrange(split as int, digits@.len() as int))
                    =~= whole.subrange(split as int, whole.len() as int));
                assert(s@ =~= decimal_string(self.value, self.decimals));
            }
        }
        s
    }
}

/// The decimal digit values of `n`, most significant first.
fn to_decimal_digits(n: u128) -> (digits: Vec<u8>)
    ensures
        digits@.len() >= 1,
        forall|i: int| 0 <= i < digits@.len() ==> digits@[i] < 10,
        digit_seq_chars(digits@) == dec_digits(n as nat),
{
    let mut digits: Vec<u8> = Vec::new();
    let mut rest: u128 = n;
    digits.insert(0, (rest % 10) as u8);
    rest = rest / 10;
    proof {
        assert(digit_seq_chars(digits@) =~= seq![digit_char((n as nat % 10) as int)]);
    }
    while rest > 0
        invariant
            digits@.len() >= 1,
            forall|i: int| 0 <= i < digits@.len() ==> digits@[i] < 10,
            rest > 0 ==> dec_digits(n as nat) == dec_digits(rest as nat) + digit_seq_chars(
                digits@,
            ),
            rest == 0 ==> dec_digits(n as nat) == digit_seq_chars(digits@),
        decreases rest,
    {
        let d: u8 = (rest % 10) as u8;
        let ghost before = digits@;
        digits.insert(0, d);
        proof {
            assert(digit_seq_chars(digits@) =~= seq![digit_char(d as int)] + digit_seq_chars(
                before,
            ));
            if rest >= 10 {
                assert(dec_digits(rest as nat) == dec_digits(rest as nat / 10) + seq![
                    digit_char((rest as nat % 10) as int),
                ]);
            }
            assert(dec_digits(rest as nat) + digit_seq_chars(before) =~= (if rest as nat / 10 > 0 {
                dec_digits(rest as nat / 10) + digit_seq_chars(digits@)
            } else {
                digit_seq_chars(digits@)
            }));
        }
        rest = rest / 10;
    }
    digits
}

/// Appends the digit characters of `digits[from..to]` to `s`.
fn append_digits(s: &mut String, digits: &Vec<u8>, from: usize, to: usize)
    requires
        from <= to <= digits@.len(),
        forall|i: int| 0 <= i < digits@.len() ==> digits@[i] < 10,
    ensures
        final(s)@ == old(s)@ + digit_seq_chars(digits@.subrange(from as int, to as int)),
{
    let mut i: usize = from;
    proof {
        assert(s@ =~= old(s)@ + digit_seq_chars(digits@.subrange(from as int, from as int)));
    }
    while i < to
        invariant
            from <= i <= to <= digits@.len(),
            forall|j: int| 0 <= j < digits@.len() ==> digits@[j] < 10,
            s@ == old(s)@ + digit_seq_chars(digits@.subrange(from as int, i as int)),
        decreases to - i,
    {
        push_digit(s, digits[i]);
        i = i + 1;
        proof {
            assert(digit_seq_chars(digits@.subrange(from as int, i as int)) =~= digit_seq_chars(
                digits@.subrange(from as int, i - 1),
            ) + seq![digit_char(digits@[i - 1] as int)]);
        }
    }
}

/// Appends the character for one digit value to `s`.
fn push_digit(s: &mut String, d: u8)
    requires
        d < 10,
    ensures
        final(s)@ == old(s)@ + seq![digit_char(d as int)],
{
    match d {
        0 => {
            proof {
                reveal_strlit("0");
                assert(("0")@ =~= seq!['0']);
            }
            s.append("0");
        },
        1 => {
            proof {
                reveal_strlit("1");
                assert(("1")@ =~= seq!['1']);
            }
            s.append("1");
        },
        2 => {
            proof {
                reveal_strlit("2");
                assert(("2")@ =~= seq!['2']);
            }
            s.append("2");
        },
        3 => {
            proof {
                reveal_strlit("3");
                assert(("3")@ =~= seq!['3']);
            }
            s.append("3");
        },
        4 => {
            proof {
                reveal_strlit("4");
                assert(("4")@ =~= seq!['4']);
            }
            s.append("4");
        },
        5 => {
            proof {
                reveal_strlit("5");
                assert(("5")@ =~= seq!['5']);
            }
            s.append("5");
        },
        6 => {
            proof {
                reveal_strlit("6");
                assert(("6")@ =~= seq!['6']);
            }
            s.append("6");
        },
        7 => {
            proof {
                reveal_strlit("7");
                assert(("7")@ =~= seq!['7']);
            }
            s.append("7");
        },
        8 => {
            proof {
                reveal_strlit("8");
                assert(("8")@ =~= seq!['8']);
            }
            s.append("8");
        },
        _ => {
            proof {
                reveal_strlit("9");
                assert(("9")@ =~= seq!['9']);
            }
            s.append("9");
        },
    }
}

} // verus!
