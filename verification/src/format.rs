//! The default tick-label formatter.
//!
//! A tick value is measured by the embedding GUI code (magnitude checks,
//! rounding to the digit bound) and handed over as a [`TickMeasure`] of plain
//! integers and booleans; this module turns the measure into the label
//! string. A value whose magnitude exceeds the digit bound is printed as a
//! truncated integer in signed scientific notation; a tiny nonzero value that
//! would round to zero is printed in signed scientific notation as well;
//! everything else is printed as a plain decimal rounded to at most
//! `max_digits` fractional digits.

use vstd::prelude::*;
use vstd::string::*;

verus! {

/// The character for one decimal digit.
pub open spec fn digit_char(d: nat) -> char
    recommends
        d < 10,
{
    if d == 0 {
        '0'
    } else if d == 1 {
        '1'
    } else if d == 2 {
        '2'
    } else if d == 3 {
        '3'
    } else if d == 4 {
        '4'
    } else if d == 5 {
        '5'
    } else if d == 6 {
        '6'
    } else if d == 7 {
        '7'
    } else if d == 8 {
        '8'
    } else {
        '9'
    }
}

/// The decimal digit characters of `n`, most significant first, with no
/// leading zeros (`0` itself is the single character `'0'`).
pub open spec fn spec_digits(n: nat) -> Seq<char>
    decreases n,
{
    if n < 10 {
        seq![digit_char(n)]
    } else {
        spec_digits(n / 10) + seq![digit_char(n % 10)]
    }
}

/// Digit values turned into their characters.
pub open spec fn chars_of(ds: Seq<u64>) -> Seq<char> {
    ds.map_values(|d: u64| digit_char(d as nat))
}

/// `n` zero characters.
pub open spec fn zeros(n: nat) -> Seq<char>
    decreases n,
{
    if n == 0 {
        Seq::<char>::empty()
    } else {
        seq!['0'] + zeros((n - 1) as nat)
    }
}

/// A digit sequence with its trailing zero characters removed.
pub open spec fn strip_trailing_zeros(s: Seq<char>) -> Seq<char>
    decreases s.len(),
{
    if s.len() == 0 {
        s
    } else if s.last() == '0' {
        strip_trailing_zeros(s.drop_last())
    } else {
        s
    }
}

proof fn lemma_zeros(n: nat)
    ensures
        zeros(n).len() == n,
        forall|i: int| 0 <= i < n ==> zeros(n)[i] == '0',
    decreases n,
{
    if n > 0 {
        lemma_zeros((n - 1) as nat);
    }
}

proof fn lemma_zeros_snoc(n: nat)
    ensures
        zeros(n + 1) == zeros(n) + seq!['0'],
{
    lemma_zeros(n);
    lemma_zeros(n + 1);
    assert(zeros(n + 1) =~= zeros(n) + seq!['0']);
}

proof fn lemma_strip_all_zeros(s: Seq<char>)
    requires
        forall|i: int| 0 <= i < s.len() ==> s[i] == '0',
    ensures
        strip_trailing_zeros(s).len() == 0,
    decreases s.len(),
{
    if s.len() > 0 {
        lemma_strip_all_zeros(s.drop_last());
    }
}

proof fn lemma_strip_at(s: Seq<char>, j: int)
    requires
        0 <= j < s.len(),
        s[j] != '0',
        forall|i: int| j < i < s.len() ==> s[i] == '0',
    ensures
        strip_trailing_zeros(s) == s.take(j + 1),
    decreases s.len(),
{
    if j == s.len() - 1 {
        assert(s.take(j + 1) =~= s);
    } else {
        lemma_strip_at(s.drop_last(), j);
        assert(s.drop_last().take(j + 1) =~= s.take(j + 1));
    }
}

proof fn lemma_strip_len(s: Seq<char>)
    ensures
        strip_trailing_zeros(s).len() <= s.len(),
    decreases s.len(),
{
    if s.len() > 0 && s.last() == '0' {
        lemma_strip_len(s.drop_last());
    }
}

proof fn lemma_digit_char_zero(d: nat)
    requires
        d < 10,
    ensures
        (digit_char(d) == '0') <==> (d == 0),
{
}

fn digit_str(d: u64) -> (r: &'static str)
    requires
        d < 10,
    ensures
        r@ == seq![digit_char(d as nat)],
{
    proof {
        reveal_strlit("0");
        reveal_strlit("1");
        reveal_strlit("2");
        reveal_strlit("3");
        reveal_strlit("4");
        reveal_strlit("5");
        reveal_strlit("6");
        reveal_strlit("7");
        reveal_strlit("8");
        reveal_strlit("9");
        assert("0"@ =~= seq![digit_char(0)]);
        assert("1"@ =~= seq![digit_char(1)]);
        assert("2"@ =~= seq![digit_char(2)]);
        assert("3"@ =~= seq![digit_char(3)]);
        assert("4"@ =~= seq![digit_char(4)]);
        assert("5"@ =~= seq![digit_char(5)]);
        assert("6"@ =~= seq![digit_char(6)]);
        assert("7"@ =~= seq![digit_char(7)]);
        assert("8"@ =~= seq![digit_char(8)]);
        assert("9"@ =~= seq![digit_char(9)]);
    }
    if d == 0 {
        "0"
    } else if d == 1 {
        "1"
    } else if d == 2 {
        "2"
    } else if d == 3 {
        "3"
    } else if d == 4 {
        "4"
    } else if d == 5 {
        "5"
    } else if d == 6 {
        "6"
    } else if d == 7 {
        "7"
    } else if d == 8 {
        "8"
    } else {
        "9"
    }
}

fn digits_vec(n: u64) -> (r: Vec<u64>)
    ensures
        r@.len() >= 1,
        forall|i: int| 0 <= i < r@.len() ==> r@[i] < 10,
        chars_of(r@) == spec_digits(n as nat),
    decreases n,
{
    let mut r: Vec<u64>;
    if n >= 10 {
        r = digits_vec(n / 10);
    } else {
        r = Vec::new();
        proof {
            assert(chars_of(r@) =~= Seq::<char>::empty());
        }
    }
    let ghost r0 = r@;
    r.push(n % 10);
    proof {
        assert(chars_of(r@) =~= chars_of(r0) + seq![digit_char((n % 10) as nat)]);
    }
    r
}

fn push_digits(s: &mut String, n: u64)
    ensures
        final(s)@ == old(s)@ + spec_digits(n as nat),
    decreases n,
{
    if n >= 10 {
        push_digits(s, n / 10);
        s.append(digit_str(n % 10));
        proof {
            assert(s@ =~= old(s)@ + spec_digits(n as nat));
        }
    } else {
        s.append(digit_str(n));
    }
}

fn append_digit_range(s: &mut String, ds: &Vec<u64>, from: usize, to: usize)
    requires
        from <= to <= ds@.len(),
        forall|i: int| 0 <= i < ds@.len() ==> ds@[i] < 10,
    ensures
        final(s)@ == old(s)@ + chars_of(ds@.subrange(from as int, to as int)),
{
    let mut j: usize = from;
    proof {
        assert(chars_of(ds@.subrange(from as int, from as int)) =~= Seq::<char>::empty());
        assert(s@ =~= old(s)@ + chars_of(ds@.subrange(from as int, from as int)));
    }
    while j < to
        invariant
            from <= j <= to <= ds@.len(),
            forall|i: int| 0 <= i < ds@.len() ==> ds@[i] < 10,
            s@ == old(s)@ + chars_of(ds@.subrange(from as int, j as int)),
        decreases to - j,
    {
        s.append(digit_str(ds[j]));
        proof {
            assert(chars_of(ds@.subrange(from as int, j + 1 as int)) =~= chars_of(
                ds@.subrange(from as int, j as int),
            ) + seq![digit_char(ds@[j as int] as nat)]);
            assert(s@ =~= old(s)@ + chars_of(ds@.subrange(from as int, j + 1 as int)));
        }
        j += 1;
    }
    proof {
        assert(s@ =~= old(s)@ + chars_of(ds@.subrange(from as int, to as int)));
    }
}

fn append_zeros(s: &mut String, n: usize)
    ensures
        final(s)@ == old(s)@ + zeros(n as nat),
{
    let mut i: usize = 0;
    proof {
        assert(s@ =~= old(s)@ + zeros(0));
    }
    while i < n
        invariant
            i <= n,
            s@ == old(s)@ + zeros(i as nat),
        decreases n - i,
    {
        s.append("0");
        proof {
            reveal_strlit("0");
            lemma_zeros_snoc(i as nat);
            assert("0"@ =~= seq!['0']);
            assert(s@ =~= old(s)@ + zeros((i + 1) as nat));
        }
        i += 1;
    }
}

/// The sign character a signed rendering starts with.
pub open spec fn spec_sign(m: int) -> Seq<char> {
    if m < 0 {
        seq!['-']
    } else {
        seq!['+']
    }
}

/// The magnitude of `m`.
pub open spec fn spec_nat_of(m: int) -> nat {
    if m < 0 {
        (-m) as nat
    } else {
        m as nat
    }
}

/// A signed integer rendered in plain decimal notation.
pub open spec fn spec_signed_int(v: int) -> Seq<char> {
    if v < 0 {
        seq!['-'] + spec_digits((-v) as nat)
    } else {
        spec_digits(v as nat)
    }
}

/// The mantissa of `m` in scientific notation: its leading digit, then a
/// point and the remaining digits with trailing zeros removed, or the
/// leading digit alone when nothing else remains.
pub open spec fn spec_mantissa(m: int) -> Seq<char> {
    let ds = spec_digits(spec_nat_of(m));
    let frac = strip_trailing_zeros(ds.skip(1));
    if frac.len() == 0 {
        ds.take(1)
    } else {
        ds.take(1) + seq!['.'] + frac
    }
}

/// The exponent of `m * 10^(-shift)` in scientific notation. Zero always
/// carries exponent zero.
pub open spec fn spec_exponent(m: int, shift: nat) -> int {
    if m == 0 {
        0
    } else {
        spec_digits(spec_nat_of(m)).len() - 1 - shift
    }
}

/// `m * 10^(-shift)` rendered in signed scientific notation, as the standard
/// formatter renders a number with an explicit sign in exponent style.
pub open spec fn spec_sci(m: int, shift: nat) -> Seq<char> {
    spec_sign(m) + spec_mantissa(m) + seq!['e'] + spec_signed_int(spec_exponent(m, shift))
}

/// Renders `m * 10^(-shift)` in signed scientific notation: a `+` or `-`
/// sign, the mantissa digits of `m` with a decimal point after the first and
/// trailing zeros removed, then `e` and the (possibly negative) exponent.
pub fn format_signed_sci(m: i64, shift: usize) -> (r: String)
    ensures
        r@ == spec_sci(m as int, shift as nat),
{
    let mut s = String::new();
    if m < 0 {
        s.append("-");
    } else {
        s.append("+");
    }
    proof {
        reveal_strlit("-");
        reveal_strlit("+");
        assert(s@ =~= spec_sign(m as int));
    }
    let ghost prefix = s@;
    let a: u64 = if m >= 0 {
        m as u64
    } else {
        let neg: i128 = -(m as i128);
        neg as u64
    };
    proof {
        assert(a as nat == spec_nat_of(m as int));
    }
    let ds = digits_vec(a);
    let nd: usize = ds.len();
    let ghost dchars = spec_digits(a as nat);
    s.append(digit_str(ds[0]));
    proof {
        assert(dchars.take(1) =~= seq![digit_char(ds@[0] as nat)]);
    }
    // find the last nonzero digit after the leading one, if any
    let mut last_nz: usize = 0;
    let mut i: usize = 1;
    while i < nd
        invariant
            1 <= i <= nd == ds@.len(),
            last_nz < i,
            last_nz == 0 ==> forall|k: int| 1 <= k < i ==> ds@[k] == 0,
            last_nz >= 1 ==> ds@[last_nz as int] != 0,
            last_nz >= 1 ==> forall|k: int| last_nz < k < i ==> ds@[k] == 0,
        decreases nd - i,
    {
        if ds[i] != 0 {
            last_nz = i;
        }
        i += 1;
    }
    if last_nz >= 1 {
        s.append(".");
        append_digit_range(&mut s, &ds, 1, last_nz + 1);
        proof {
            reveal_strlit(".");
            let q = dchars.skip(1);
            assert(forall|k: int| 0 <= k < q.len() ==> q[k] == digit_char(ds@[k + 1] as nat));
            lemma_digit_char_zero(ds@[last_nz as int] as nat);
            assert forall|k: int| last_nz - 1 < k < q.len() implies q[k] == '0' by {
                lemma_digit_char_zero(ds@[k + 1] as nat);
            }
            lemma_strip_at(q, last_nz - 1);
            assert(chars_of(ds@.subrange(1, last_nz + 1)) =~= q.take(last_nz as int));
            assert(s@ =~= prefix + spec_mantissa(m as int));
        }
    } else {
        proof {
            let q = dchars.skip(1);
            assert forall|k: int| 0 <= k < q.len() implies q[k] == '0' by {
                lemma_digit_char_zero(ds@[k + 1] as nat);
            }
            lemma_strip_all_zeros(q);
            assert(s@ =~= prefix + spec_mantissa(m as int));
        }
    }
    let ghost with_mantissa = s@;
    s.append("e");
    proof {
        reveal_strlit("e");
        assert(s@ =~= with_mantissa + seq!['e']);
    }
    let ghost with_e = s@;
    if m != 0 && nd - 1 >= shift {
        push_digits(&mut s, (nd - 1 - shift) as u64);
        proof {
            assert(spec_exponent(m as int, shift as nat) == nd - 1 - shift);
            assert(s@ =~= with_e + spec_signed_int(spec_exponent(m as int, shift as nat)));
        }
    } else if m == 0 {
        push_digits(&mut s, 0);
        proof {
            assert(s@ =~= with_e + spec_signed_int(spec_exponent(m as int, shift as nat)));
        }
    } else {
        s.append("-");
        proof {
            reveal_strlit("-");
        }
        push_digits(&mut s, (shift - (nd - 1)) as u64);
        proof {
            assert(spec_exponent(m as int, shift as nat) == nd - 1 - shift);
            assert(spec_exponent(m as int, shift as nat) < 0);
            assert(s@ =~= with_e + spec_signed_int(spec_exponent(m as int, shift as nat)));
        }
    }
    proof {
        assert(s@ =~= spec_sci(m as int, shift as nat));
    }
    s
}

/// The digits of `m`'s magnitude, padded with leading zeros to at least
/// `k + 1` characters, so that a decimal point can sit `k` places from the
/// end.
pub open spec fn spec_padded(m: int, k: nat) -> Seq<char> {
    let ds = spec_digits(spec_nat_of(m));
    if ds.len() >= k + 1 {
        ds
    } else {
        zeros((k + 1 - ds.len()) as nat) + ds
    }
}

/// The characters before the decimal point of `m * 10^(-k)` in plain
/// notation (the sign aside).
pub open spec fn spec_int_part(m: int, k: nat) -> Seq<char> {
    let p = spec_padded(m, k);
    p.take(p.len() - k)
}

/// The characters after the decimal point of `m * 10^(-k)` in plain
/// notation, trailing zeros removed; empty when nothing but zeros would
/// follow the point.
pub open spec fn spec_frac_part(m: int, k: nat) -> Seq<char> {
    let p = spec_padded(m, k);
    strip_trailing_zeros(p.skip(p.len() - k))
}

/// `m * 10^(-k)` rendered in plain decimal notation, as the standard
/// formatter displays the value: an optional minus sign, the integer part,
/// and a fractional part only where a nonzero fractional digit remains.
pub open spec fn spec_decimal(m: int, k: nat) -> Seq<char> {
    let sign = if m < 0 {
        seq!['-']
    } else {
        Seq::<char>::empty()
    };
    let frac = spec_frac_part(m, k);
    sign + spec_int_part(m, k) + (if frac.len() == 0 {
        Seq::<char>::empty()
    } else {
        seq!['.'] + frac
    })
}

proof fn lemma_padded_len(m: int, k: nat)
    ensures
        spec_padded(m, k).len() >= k + 1,
        spec_padded(m, k).len() == vstd::math::max(
            spec_digits(spec_nat_of(m)).len() as int,
            k + 1 as int,
        ),
{
    let ds = spec_digits(spec_nat_of(m));
    if ds.len() < k + 1 {
        lemma_zeros((k + 1 - ds.len()) as nat);
    }
}

/// Renders `m * 10^(-k)` in plain decimal notation: an optional minus sign,
/// the integer part, and the rounded fractional digits with trailing zeros
/// removed; the decimal point is omitted when no fractional digit survives.
fn last_nonzero_from(ds: &Vec<u64>, from: usize) -> (r: (bool, usize))
    requires
        from <= ds@.len(),
    ensures
        !r.0 ==> forall|j: int| from <= j < ds@.len() ==> ds@[j] == 0,
        r.0 ==> from <= r.1 < ds@.len() && ds@[r.1 as int] != 0,
        r.0 ==> forall|j: int| r.1 < j < ds@.len() ==> ds@[j] == 0,
{
    let mut last_nz: usize = 0;
    let mut has_nz: bool = false;
    let mut i: usize = from;
    while i < ds.len()
        invariant
            from <= i <= ds@.len(),
            !has_nz ==> forall|j: int| from <= j < i ==> ds@[j] == 0,
            has_nz ==> from <= last_nz < i && ds@[last_nz as int] != 0,
            has_nz ==> forall|j: int| last_nz < j < i ==> ds@[j] == 0,
        decreases ds@.len() - i,
    {
        if ds[i] != 0 {
            last_nz = i;
            has_nz = true;
        }
        i += 1;
    }
    (has_nz, last_nz)
}

fn append_decimal_wide(s: &mut String, ds: &Vec<u64>, k: usize, Ghost(m): Ghost<int>)
    requires
        chars_of(ds@) == spec_digits(spec_nat_of(m)),
        forall|i: int| 0 <= i < ds@.len() ==> ds@[i] < 10,
        k < ds@.len(),
    ensures
        final(s)@ == old(s)@ + spec_int_part(m, k as nat) + (if spec_frac_part(
            m,
            k as nat,
        ).len() == 0 {
            Seq::<char>::empty()
        } else {
            seq!['.'] + spec_frac_part(m, k as nat)
        }),
{
    let nd: usize = ds.len();
    let ghost padded = spec_padded(m, k as nat);
    append_digit_range(s, ds, 0, nd - k);
    proof {
        assert(padded =~= spec_digits(spec_nat_of(m)));
        assert(chars_of(ds@.subrange(0, nd - k)) =~= spec_int_part(m, k as nat));
    }
    let ghost with_int = s@;
    let (has_nz, last_nz) = last_nonzero_from(ds, nd - k);
    proof {
        let q = padded.skip(nd - k);
        assert(forall|j: int| 0 <= j < q.len() ==> q[j] == digit_char(ds@[j + (nd - k)] as nat));
    }
    if has_nz {
        s.append(".");
        append_digit_range(s, ds, nd - k, last_nz + 1);
        proof {
            reveal_strlit(".");
            let q = padded.skip(nd - k);
            lemma_digit_char_zero(ds@[last_nz as int] as nat);
            assert forall|j: int| last_nz - (nd - k) < j < q.len() implies q[j] == '0' by {
                lemma_digit_char_zero(ds@[j + (nd - k)] as nat);
            }
            lemma_strip_at(q, last_nz - (nd - k));
            assert(chars_of(ds@.subrange(nd - k, last_nz + 1)) =~= q.take(last_nz - (nd - k) + 1));
            assert(s@ =~= with_int + seq!['.'] + spec_frac_part(m, k as nat));
        }
    } else {
        proof {
            let q = padded.skip(nd - k);
            assert forall|j: int| 0 <= j < q.len() implies q[j] == '0' by {
                lemma_digit_char_zero(ds@[j + (nd - k)] as nat);
            }
            lemma_strip_all_zeros(q);
        }
    }
}

fn append_decimal_narrow(s: &mut String, ds: &Vec<u64>, k: usize, Ghost(m): Ghost<int>)
    requires
        chars_of(ds@) == spec_digits(spec_nat_of(m)),
        forall|i: int| 0 <= i < ds@.len() ==> ds@[i] < 10,
        1 <= ds@.len() <= k,
    ensures
        final(s)@ == old(s)@ + spec_int_part(m, k as nat) + (if spec_frac_part(
            m,
            k as nat,
        ).len() == 0 {
            Seq::<char>::empty()
        } else {
            seq!['.'] + spec_frac_part(m, k as nat)
        }),
{
    let nd: usize = ds.len();
    let ghost padded = spec_padded(m, k as nat);
    s.append("0");
    proof {
        reveal_strlit("0");
        lemma_padded_len(m, k as nat);
        lemma_zeros((k + 1 - nd) as nat);
        assert(padded.len() == k + 1);
        assert(padded[0] == '0');
        assert(spec_int_part(m, k as nat) =~= seq!['0']);
        assert(s@ =~= old(s)@ + spec_int_part(m, k as nat));
    }
    let ghost with_int = s@;
    let (has_nz, last_nz) = last_nonzero_from(ds, 0);
    proof {
        lemma_zeros((k + 1 - nd) as nat);
        lemma_zeros((k - nd) as nat);
        let q = padded.skip(1);
        assert(q.len() == k);
        assert(forall|j: int| 0 <= j < k - nd ==> q[j] == '0');
        assert(forall|j: int| k - nd <= j < k ==> q[j] == digit_char(ds@[j - (k - nd)] as nat));
    }
    if has_nz {
        s.append(".");
        append_zeros(s, k - nd);
        append_digit_range(s, ds, 0, last_nz + 1);
        proof {
            reveal_strlit(".");
            let q = padded.skip(1);
            lemma_digit_char_zero(ds@[last_nz as int] as nat);
            assert forall|j: int| (k - nd) + last_nz < j < q.len() implies q[j] == '0' by {
                lemma_digit_char_zero(ds@[j - (k - nd)] as nat);
            }
            lemma_strip_at(q, (k - nd) + last_nz);
            assert(zeros((k - nd) as nat) + chars_of(ds@.subrange(0, last_nz + 1)) =~= q.take(
                (k - nd) + last_nz + 1,
            ));
            assert(s@ =~= with_int + seq!['.'] + spec_frac_part(m, k as nat));
        }
    } else {
        proof {
            let q = padded.skip(1);
            assert forall|j: int| 0 <= j < q.len() implies q[j] == '0' by {
                if k - nd <= j < k {
                    lemma_digit_char_zero(ds@[j - (k - nd)] as nat);
                }
            }
            lemma_strip_all_zeros(q);
        }
    }
}

/// Renders `m * 10^(-k)` in plain decimal notation: an optional minus sign,
/// the integer part, and the rounded fractional digits with trailing zeros
/// removed; the decimal point is omitted when no fractional digit survives.
pub fn format_decimal_scaled(m: i64, k: usize) -> (r: String)
    ensures
        r@ == spec_decimal(m as int, k as nat),
{
    let mut s = String::new();
    if m < 0 {
        s.append("-");
        proof {
            reveal_strlit("-");
        }
    }
    let a: u64 = if m >= 0 {
        m as u64
    } else {
        let neg: i128 = -(m as i128);
        neg as u64
    };
    proof {
        assert(a as nat == spec_nat_of(m as int));
    }
    let ds = digits_vec(a);
    if ds.len() > k {
        append_decimal_wide(&mut s, &ds, k, Ghost(m as int));
    } else {
        append_decimal_narrow(&mut s, &ds, k, Ghost(m as int));
    }
    proof {
        assert(s@ =~= spec_decimal(m as int, k as nat));
    }
    s
}

/// How a tick value measures against the digit bound. The embedding GUI code
/// owns the floating-point tick value; it reports the comparisons and the
/// rounding results here as plain integers and booleans, and the label
/// string is then assembled from those alone.
#[derive(Debug, Clone, Copy, PartialEq, Eq, Structural)]
pub struct TickMeasure {
    /// Whether the tick's magnitude exceeds `10^max_digits`.
    pub magnitude_exceeds_max: bool,
    /// The tick value truncated toward zero to an integer.
    pub truncated: i64,
    /// The tick value rounded to `max_digits` decimal places, scaled by
    /// `10^max_digits` so that it is an integer.
    pub rounded_scaled: i64,
    /// Whether the tick's magnitude is below `10^(-max_digits)`.
    pub below_min_positive: bool,
    /// Whether the tick value is exactly zero.
    pub is_zero: bool,
}

/// The label string for a measured tick: a magnitude beyond the digit bound
/// is printed as a truncated integer in signed scientific notation; a tiny
/// nonzero value that would round away is printed in signed scientific
/// notation of its rounded value; everything else is printed as a plain
/// rounded decimal.
pub open spec fn spec_format_tick(t: TickMeasure, max_digits: nat) -> Seq<char> {
    if t.magnitude_exceeds_max {
        spec_sci(t.truncated as int, 0)
    } else if t.below_min_positive && !t.is_zero {
        spec_sci(t.rounded_scaled as int, max_digits)
    } else {
        spec_decimal(t.rounded_scaled as int, max_digits)
    }
}

/// The default tick formatter's string assembly, applied to a measured tick.
pub fn format_tick_label(t: &TickMeasure, max_digits: usize) -> (r: String)
    ensures
        r@ == spec_format_tick(*t, max_digits as nat),
{
    if t.magnitude_exceeds_max {
        format_signed_sci(t.truncated, 0)
    } else if t.below_min_positive && !t.is_zero {
        format_signed_sci(t.rounded_scaled, max_digits)
    } else {
        format_decimal_scaled(t.rounded_scaled, max_digits)
    }
}

/// A tick that measures as zero is printed as the single character `0`,
/// whatever the digit bound: zero never exceeds the magnitude bound, the
/// tiny-value branch excludes it explicitly, and zero rounds to zero, whose
/// plain decimal rendering keeps no fractional digits and no sign.
pub proof fn lemma_zero_tick_formats_plain(t: TickMeasure, max_digits: nat)
    requires
        t.is_zero,
        !t.magnitude_exceeds_max,
        t.rounded_scaled == 0,
    ensures
        spec_format_tick(t, max_digits) == seq!['0'],
{
    let k = max_digits;
    let padded = spec_padded(0, k);
    lemma_padded_len(0, k);
    lemma_zeros(k);
    assert(spec_digits(spec_nat_of(0)) =~= seq!['0']);
    assert(padded.len() == k + 1);
    assert forall|j: int| 0 <= j < padded.len() implies padded[j] == '0' by {
        lemma_zeros(k);
    }
    assert(spec_int_part(0, k) =~= seq!['0']);
    lemma_strip_all_zeros(padded.skip(padded.len() - k));
    assert(spec_format_tick(t, max_digits) =~= seq!['0']);
}

/// The plain-decimal branch never prints more fractional digits than the
/// digit bound allows: whatever stands after the decimal point of
/// `spec_decimal(m, k)` is at most `k` characters, and the point itself is
/// omitted when nothing survives the rounding. The two scientific-notation
/// branches are exempt by design.
pub proof fn lemma_plain_fraction_bounded(m: int, k: nat)
    ensures
        spec_frac_part(m, k).len() <= k,
        spec_decimal(m, k) == (if m < 0 {
            seq!['-']
        } else {
            Seq::<char>::empty()
        }) + spec_int_part(m, k) + (if spec_frac_part(m, k).len() == 0 {
            Seq::<char>::empty()
        } else {
            seq!['.'] + spec_frac_part(m, k)
        }),
{
    lemma_padded_len(m, k);
    lemma_strip_len(spec_padded(m, k).skip(spec_padded(m, k).len() - k));
}

} // verus!
