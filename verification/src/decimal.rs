use vstd::prelude::*;

verus! {

/// Amounts are held in fixed-point form with four decimal places: one stored
/// unit is one ten-thousandth of the currency unit.
pub const AMOUNT_SCALE: i128 = 10000;

/// Strict bound on the magnitude of one parsed amount: a well-formed amount
/// has at most fourteen digits before the point, so its scaled value stays
/// strictly below 10^18.
pub const AMOUNT_LIMIT: i128 = 1000000000000000000;

/// Most digits allowed before the decimal point.
pub const MAX_INT_DIGITS: usize = 14;

pub open spec fn is_digit(c: char) -> bool {
    ('0' as u32) <= (c as u32) && (c as u32) <= ('9' as u32)
}

pub open spec fn digit_val(c: char) -> int {
    (c as u32) - ('0' as u32)
}

pub open spec fn all_digits(s: Seq<char>) -> bool {
    forall|i: int| 0 <= i < s.len() ==> is_digit(#[trigger] s[i])
}

/// The integer a digit string denotes, most significant digit first.
pub open spec fn digits_val(s: Seq<char>) -> int
    decreases s.len(),
{
    if s.len() == 0 {
        0
    } else {
        digits_val(s.drop_last()) * 10 + digit_val(s.last())
    }
}

/// Index of the first '.' in `s`, or `s.len()` when there is none.
pub open spec fn dot_pos(s: Seq<char>) -> int
    decreases s.len(),
{
    if s.len() == 0 {
        0
    } else if s[0] == '.' {
        0
    } else {
        1 + dot_pos(s.skip(1))
    }
}

pub open spec fn int_digits(t: Seq<char>) -> Seq<char> {
    t.take(dot_pos(t))
}

pub open spec fn frac_digits(t: Seq<char>) -> Seq<char> {
    if dot_pos(t) < t.len() {
        t.skip(dot_pos(t) + 1)
    } else {
        Seq::empty()
    }
}

/// An unsigned decimal literal: digits around at most one point, at least one
/// digit in all, and at most fourteen digits before the point.
pub open spec fn wf_unsigned(t: Seq<char>) -> bool {
    &&& all_digits(int_digits(t))
    &&& all_digits(frac_digits(t))
    &&& int_digits(t).len() + frac_digits(t).len() >= 1
    &&& int_digits(t).len() <= MAX_INT_DIGITS
}

/// Scaled value of the fraction digits: only the first four places count,
/// anything finer is dropped.
pub open spec fn frac_scaled(f: Seq<char>) -> int {
    if f.len() == 0 {
        0
    } else if f.len() == 1 {
        digits_val(f) * 1000
    } else if f.len() == 2 {
        digits_val(f) * 100
    } else if f.len() == 3 {
        digits_val(f) * 10
    } else {
        digits_val(f.take(4))
    }
}

pub open spec fn unsigned_scaled(t: Seq<char>) -> int {
    digits_val(int_digits(t)) * (AMOUNT_SCALE as int) + frac_scaled(frac_digits(t))
}

/// Scaled magnitude of an unsigned amount text; a malformed text counts as
/// zero.
pub open spec fn magnitude(t: Seq<char>) -> int {
    if wf_unsigned(t) {
        unsigned_scaled(t)
    } else {
        0
    }
}

/// The fixed-point value an amount text denotes: an optional sign, then a
/// decimal literal. A text that is not such a literal counts as zero.
pub open spec fn amount_value(s: Seq<char>) -> int {
    if s.len() > 0 && (s[0] == '-' || s[0] == '+') {
        if s[0] == '-' {
            -magnitude(s.skip(1))
        } else {
            magnitude(s.skip(1))
        }
    } else {
        magnitude(s)
    }
}

pub open spec fn pow10(n: nat) -> int
    decreases n,
{
    if n == 0 {
        1
    } else {
        10 * pow10((n - 1) as nat)
    }
}

pub proof fn lemma_pow10_pos(n: nat)
    ensures
        pow10(n) >= 1,
    decreases n,
{
    if n > 0 {
        lemma_pow10_pos((n - 1) as nat);
    }
}

pub proof fn lemma_digits_val_bound(s: Seq<char>, n: nat)
    requires
        all_digits(s),
        s.len() <= n,
    ensures
        0 <= digits_val(s) < pow10(n),
    decreases n,
{
    if s.len() == 0 {
        lemma_pow10_pos(n);
    } else {
        assert(is_digit(s[s.len() - 1]));
        lemma_digits_val_bound(s.drop_last(), (n - 1) as nat);
    }
}

/// Every amount text denotes a value strictly inside the amount limit.
pub proof fn lemma_amount_value_bound(s: Seq<char>)
    ensures
        -AMOUNT_LIMIT < amount_value(s) < AMOUNT_LIMIT,
{
    lemma_magnitude_bound(s);
    if s.len() > 0 && (s[0] == '-' || s[0] == '+') {
        lemma_magnitude_bound(s.skip(1));
    }
}

pub proof fn lemma_magnitude_bound(t: Seq<char>)
    ensures
        0 <= magnitude(t) < AMOUNT_LIMIT,
{
    if wf_unsigned(t) {
        lemma_digits_val_bound(int_digits(t), 14);
        assert(pow10(14) == 100000000000000) by {
            reveal_with_fuel(pow10, 15);
        }
        lemma_frac_scaled_bound(frac_digits(t));
    }
}

pub proof fn lemma_frac_scaled_bound(f: Seq<char>)
    requires
        all_digits(f),
    ensures
        0 <= frac_scaled(f) < 10000,
{
    assert(pow10(1) == 10 && pow10(2) == 100 && pow10(3) == 1000 && pow10(4) == 10000) by {
        reveal_with_fuel(pow10, 5);
    }
    if f.len() == 0 {
    } else if f.len() == 1 {
        lemma_digits_val_bound(f, 1);
    } else if f.len() == 2 {
        lemma_digits_val_bound(f, 2);
    } else if f.len() == 3 {
        lemma_digits_val_bound(f, 3);
    } else {
        assert(all_digits(f.take(4)));
        lemma_digits_val_bound(f.take(4), 4);
    }
}

/// `dot_pos` is the one position that carries the first point.
proof fn lemma_dot_pos_char(t: Seq<char>, j: int)
    requires
        0 <= j <= t.len(),
        j < t.len() ==> t[j] == '.',
        forall|i: int| 0 <= i < j ==> t[i] != '.',
        j == t.len() ==> forall|i: int| 0 <= i < t.len() ==> t[i] != '.',
    ensures
        dot_pos(t) == j,
    decreases t.len(),
{
    if t.len() == 0 {
    } else if t[0] == '.' {
        assert(j == 0);
    } else {
        lemma_dot_pos_char(t.skip(1), j - 1);
    }
}

/// Pushing one more digit onto a prefix multiplies its value by ten.
proof fn lemma_digits_val_step(t: Seq<char>, k: int)
    requires
        0 <= k < t.len(),
    ensures
        digits_val(t.take(k + 1)) == digits_val(t.take(k)) * 10 + digit_val(t[k]),
{
    assert(t.take(k + 1).drop_last() =~= t.take(k));
    assert(t.take(k + 1).last() == t[k]);
}

fn exec_is_digit(c: char) -> (b: bool)
    ensures
        b == is_digit(c),
{
    let u: u32 = c as u32;
    48 <= u && u <= 57
}

/// Reads the textual amount `s` as a fixed-point number: an optional sign,
/// then digits around at most one point. Any other shape, and any amount with
/// more than fourteen digits before the point, counts as zero, as does an
/// empty text.
pub fn parse_amount(s: &str) -> (v: i128)
    ensures
        v == amount_value(s@),
        -AMOUNT_LIMIT < v < AMOUNT_LIMIT,
{
    proof {
        lemma_amount_value_bound(s@);
    }
    let n: usize = s.unicode_len();
    if n == 0 {
        assert(!wf_unsigned(s@));
        return 0;
    }
    let c0 = s.get_char(0);
    let neg = c0 == '-';
    let signed = neg || c0 == '+';
    let start: usize = if signed {
        1
    } else {
        0
    };
    let m: i128 = parse_unsigned(s, start, n);
    proof {
        if signed {
            assert(s@.skip(1) =~= s@.skip(start as int));
        } else {
            assert(s@.skip(0) =~= s@);
        }
    }
    if neg {
        -m
    } else {
        m
    }
}

/// Scaled value of the unsigned amount text `s[start..]`.
fn parse_unsigned(s: &str, start: usize, n: usize) -> (v: i128)
    requires
        n == s@.len(),
        start <= n,
    ensures
        v == magnitude(s@.skip(start as int)),
        0 <= v < AMOUNT_LIMIT,
{
    let ghost t = s@.skip(start as int);
    proof {
        lemma_magnitude_bound(t);
    }
    // find the first point
    let mut dp: usize = start;
    while dp < n && s.get_char(dp) != '.'
        invariant
            start <= dp <= n,
            n == s@.len(),
            t == s@.skip(start as int),
            forall|i: int| start <= i < dp ==> s@[i] != '.',
        decreases n - dp,
    {
        dp = dp + 1;
    }
    proof {
        assert(forall|i: int| 0 <= i < dp - start ==> t[i] == s@[i + start] && t[i] != '.');
        if dp < n {
            assert(t[dp - start] == '.');
        }
        lemma_dot_pos_char(t, dp - start);
    }
    let int_len: usize = dp - start;
    if int_len > MAX_INT_DIGITS {
        proof {
            assert(int_digits(t).len() > MAX_INT_DIGITS);
            assert(!wf_unsigned(t));
        }
        return 0;
    }
    if int_len == 0 && dp >= n {
        // empty text with no point at all
        proof {
            assert(int_digits(t).len() + frac_digits(t).len() == 0);
            assert(!wf_unsigned(t));
        }
        return 0;
    }
    // integer part
    let ghost ipart = int_digits(t);
    let mut i: usize = start;
    let mut int_val: i128 = 0;
    while i < dp
        invariant
            start <= i <= dp <= n,
            n == s@.len(),
            t == s@.skip(start as int),
            dot_pos(t) == dp - start,
            dp - start <= MAX_INT_DIGITS,
            ipart == int_digits(t),
            all_digits(ipart.take(i - start)),
            int_val == digits_val(ipart.take(i - start)),
            0 <= int_val,
            int_val < AMOUNT_LIMIT,
        decreases dp - i,
    {
        let c = s.get_char(i);
        proof {
            assert(ipart[i - start] == t[i - start] && t[i - start] == s@[i as int]);
        }
        if !exec_is_digit(c) {
            proof {
                assert(!is_digit(int_digits(t)[i - start]));
                assert(!wf_unsigned(t));
            }
            return 0;
        }
        proof {
            lemma_digits_val_step(ipart, i - start);
            lemma_digits_val_bound(ipart.take(i - start + 1), (i - start + 1) as nat);
            assert(pow10(14) == 100000000000000) by {
                reveal_with_fuel(pow10, 15);
            }
            lemma_pow10_bounded_by_14((i - start + 1) as nat);
        }
        int_val = int_val * 10 + (((c as u32) - 48) as i128);
        i = i + 1;
    }
    proof {
        assert(ipart.take(i - start) =~= ipart);
    }
    // fraction part
    let mut frac_val: i128 = 0;
    let ghost fpart = frac_digits(t);
    if dp < n {
        let fstart: usize = dp + 1;
        proof {
            assert(fpart =~= t.skip(dp - start + 1));
            assert(forall|k: int|
                0 <= k < fpart.len() ==> fpart[k] == s@[k + fstart]);
        }
        let mut j: usize = fstart;
        let mut glen: usize = 0;
        while j < n
            invariant
                fstart <= j <= n,
                n == s@.len(),
                t == s@.skip(start as int),
                fpart == frac_digits(t),
                fpart.len() == n - fstart,
                forall|k: int| 0 <= k < fpart.len() ==> fpart[k] == s@[k + fstart],
                all_digits(fpart.take(j - fstart)),
                glen == if j - fstart <= 4 {
                    j - fstart
                } else {
                    4
                },
                frac_val == digits_val(fpart.take(glen as int)),
                0 <= frac_val < 10000,
            decreases n - j,
        {
            let c = s.get_char(j);
            if !exec_is_digit(c) {
                proof {
                    assert(!is_digit(fpart[j - fstart]));
                    assert(!wf_unsigned(t));
                }
                return 0;
            }
            if glen < 4 {
                proof {
                    lemma_digits_val_step(fpart, glen as int);
                    lemma_digits_val_bound(fpart.take(glen + 1), (glen + 1) as nat);
                    assert(pow10(4) == 10000) by {
                        reveal_with_fuel(pow10, 5);
                    }
                    lemma_pow10_bounded_by_4((glen + 1) as nat);
                }
                frac_val = frac_val * 10 + (((c as u32) - 48) as i128);
                glen = glen + 1;
            }
            j = j + 1;
        }
        proof {
            assert(fpart.take(j - fstart) =~= fpart);
        }
        let scaled: i128 = if glen == 0 {
            0
        } else if glen == 1 {
            frac_val * 1000
        } else if glen == 2 {
            frac_val * 100
        } else if glen == 3 {
            frac_val * 10
        } else {
            frac_val
        };
        if int_len == 0 && glen == 0 {
            proof {
                assert(!wf_unsigned(t));
            }
            return 0;
        }
        proof {
            assert(wf_unsigned(t));
            assert(scaled == frac_scaled(fpart));
            lemma_digits_val_bound(ipart, 14);
            assert(pow10(14) == 100000000000000) by {
                reveal_with_fuel(pow10, 15);
            }
            lemma_frac_scaled_bound(fpart);
        }
        int_val * 10000 + scaled
    } else {
        proof {
            assert(fpart =~= Seq::<char>::empty());
            assert(wf_unsigned(t));
            lemma_digits_val_bound(ipart, 14);
            assert(pow10(14) == 100000000000000) by {
                reveal_with_fuel(pow10, 15);
            }
        }
        int_val * 10000
    }
}

pub open spec fn digit_char(d: int) -> char {
    if d == 0 {
        '0'
    } else if d == 1 {
        '1'
    } else if d == 2 {
        '2'
    } else if d == 3 {
        '3'
    } else if d == 4 {
        '4'
    } else if d == 5 {
        '5'
    } else if d == 6 {
        '6'
    } else if d == 7 {
        '7'
    } else if d == 8 {
        '8'
    } else {
        '9'
    }
}

/// Decimal digit string of a whole number, most significant digit first;
/// zero is written as one digit.
pub open spec fn nat_digits(n: int) -> Seq<char>
    decreases n,
{
    if n < 10 {
        seq![digit_char(n)]
    } else {
        nat_digits(n / 10).push(digit_char(n % 10))
    }
}

pub open spec fn frac_digits4(f: int) -> Seq<char> {
    seq![
        digit_char(f / 1000),
        digit_char((f / 100) % 10),
        digit_char((f / 10) % 10),
        digit_char(f % 10),
    ]
}

pub open spec fn trim_zeros(s: Seq<char>) -> Seq<char>
    decreases s.len(),
{
    if s.len() > 0 && s.last() == '0' {
        trim_zeros(s.drop_last())
    } else {
        s
    }
}

/// Display form of a fixed-point amount: sign, whole part, then the fraction
/// digits with trailing zeros dropped, and no point at all when the fraction
/// is zero.
pub open spec fn amount_string(v: int) -> Seq<char> {
    let m = if v < 0 {
        -v
    } else {
        v
    };
    let units = m / (AMOUNT_SCALE as int);
    let frac = m % (AMOUNT_SCALE as int);
    let digits = nat_digits(units) + if frac == 0 {
        Seq::<char>::empty()
    } else {
        seq!['.'] + trim_zeros(frac_digits4(frac))
    };
    if v < 0 {
        seq!['-'] + digits
    } else {
        digits
    }
}

fn append_digit(s: &mut String, d: u8)
    requires
        d < 10,
    ensures
        final(s)@ == old(s)@ + seq![digit_char(d as int)],
{
    if d == 0 {
        s.append("0");
        proof {
            reveal_strlit("0");
            assert("0"@ =~= seq![digit_char(0int)]);
        }
    } else if d == 1 {
        s.append("1");
        proof {
            reveal_strlit("1");
            assert("1"@ =~= seq![digit_char(1int)]);
        }
    } else if d == 2 {
        s.append("2");
        proof {
            reveal_strlit("2");
            assert("2"@ =~= seq![digit_char(2int)]);
        }
    } else if d == 3 {
        s.append("3");
        proof {
            reveal_strlit("3");
            assert("3"@ =~= seq![digit_char(3int)]);
        }
    } else if d == 4 {
        s.append("4");
        proof {
            reveal_strlit("4");
            assert("4"@ =~= seq![digit_char(4int)]);
        }
    } else if d == 5 {
        s.append("5");
        proof {
            reveal_strlit("5");
            assert("5"@ =~= seq![digit_char(5int)]);
        }
    } else if d == 6 {
        s.append("6");
        proof {
            reveal_strlit("6");
            assert("6"@ =~= seq![digit_char(6int)]);
        }
    } else if d == 7 {
        s.append("7");
        proof {
            reveal_strlit("7");
            assert("7"@ =~= seq![digit_char(7int)]);
        }
    } else if d == 8 {
        s.append("8");
        proof {
            reveal_strlit("8");
            assert("8"@ =~= seq![digit_char(8int)]);
        }
    } else {
        s.append("9");
        proof {
            reveal_strlit("9");
            assert("9"@ =~= seq![digit_char(9int)]);
        }
    }
}

fn push_units(s: &mut String, n: u128)
    ensures
        final(s)@ == old(s)@ + nat_digits(n as int),
    decreases n,
{
    if n < 10 {
        append_digit(s, n as u8);
    } else {
        push_units(s, n / 10);
        append_digit(s, (n % 10) as u8);
        proof {
            assert(nat_digits(n as int) =~= nat_digits((n / 10) as int) + seq![
                digit_char((n % 10) as int),
            ]);
        }
    }
}

/// Writes a fixed-point amount the way the feed's records show computed
/// sums: plain decimal notation with trailing fraction zeros dropped.
pub fn format_amount(v: i128) -> (s: String)
    requires
        v > i128::MIN,
    ensures
        s@ == amount_string(v as int),
{
    let neg = v < 0;
    let m: u128 = if neg {
        (-v) as u128
    } else {
        v as u128
    };
    let units: u128 = m / 10000;
    let frac: u128 = m % 10000;
    let mut out = String::new();
    if neg {
        out.append("-");
    }
    let ghost head = out@;
    proof {
        reveal_strlit("-");
        if neg {
            assert(head =~= seq!['-']);
        }
    }
    push_units(&mut out, units);
    if frac > 0 {
        out.append(".");
        proof {
            reveal_strlit(".");
            assert("."@ =~= seq!['.']);
        }
        let d0: u8 = (frac / 1000) as u8;
        let d1: u8 = ((frac / 100) % 10) as u8;
        let d2: u8 = ((frac / 10) % 10) as u8;
        let d3: u8 = (frac % 10) as u8;
        let ghost f4 = frac_digits4(frac as int);
        proof {
            reveal_with_fuel(trim_zeros, 5);
        }
        if d3 != 0 {
            append_digit(&mut out, d0);
            append_digit(&mut out, d1);
            append_digit(&mut out, d2);
            append_digit(&mut out, d3);
            proof {
                assert(trim_zeros(f4) == f4);
                assert(out@ =~= head + nat_digits(units as int) + seq!['.'] + trim_zeros(f4));
            }
        } else if d2 != 0 {
            append_digit(&mut out, d0);
            append_digit(&mut out, d1);
            append_digit(&mut out, d2);
            proof {
                assert(f4.drop_last() =~= seq![
                    digit_char(d0 as int),
                    digit_char(d1 as int),
                    digit_char(d2 as int),
                ]);
                assert(trim_zeros(f4) == f4.drop_last());
                assert(out@ =~= head + nat_digits(units as int) + seq!['.'] + trim_zeros(f4));
            }
        } else if d1 != 0 {
            append_digit(&mut out, d0);
            append_digit(&mut out, d1);
            proof {
                assert(f4.drop_last().drop_last() =~= seq![
                    digit_char(d0 as int),
                    digit_char(d1 as int),
                ]);
                assert(trim_zeros(f4) == f4.drop_last().drop_last());
                assert(out@ =~= head + nat_digits(units as int) + seq!['.'] + trim_zeros(f4));
            }
        } else {
            append_digit(&mut out, d0);
            proof {
                assert(f4.drop_last().drop_last().drop_last() =~= seq![digit_char(d0 as int)]);
                assert(trim_zeros(f4) == f4.drop_last().drop_last().drop_last());
                assert(out@ =~= head + nat_digits(units as int) + seq!['.'] + trim_zeros(f4));
            }
        }
    } else {
        proof {
            assert(out@ =~= head + nat_digits(units as int));
        }
    }
    out
}

proof fn lemma_pow10_bounded_by_14(n: nat)
    requires
        n <= 14,
    ensures
        pow10(n) <= pow10(14),
    decreases 14 - n,
{
    if n < 14 {
        lemma_pow10_bounded_by_14(n + 1);
        lemma_pow10_pos(n);
    }
}

proof fn lemma_pow10_bounded_by_4(n: nat)
    requires
        n <= 4,
    ensures
        pow10(n) <= pow10(4),
    decreases 4 - n,
{
    if n < 4 {
        lemma_pow10_bounded_by_4(n + 1);
        lemma_pow10_pos(n);
    }
}

} // verus!
