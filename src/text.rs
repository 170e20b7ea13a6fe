//! Locale-independent decimal text of integers and fixed-point values, and the
//! lexicographic order of names.
use vstd::prelude::*;

verus! {

/// The decimal digit character for `d` in `0..10`.
pub open spec fn digit_char(d: int) -> char {
    seq!['0', '1', '2', '3', '4', '5', '6', '7', '8', '9'][d]
}

/// The decimal digits of `n`, without leading zeros.
pub open spec fn nat_text(n: nat) -> Seq<char>
    decreases n,
{
    if n < 10 {
        seq![digit_char(n as int)]
    } else {
        nat_text(n / 10) + seq![digit_char((n % 10) as int)]
    }
}

/// The decimal text of an integer, with a leading `-` when it is negative.
pub open spec fn int_text(x: int) -> Seq<char> {
    if x < 0 {
        seq!['-'] + nat_text((-x) as nat)
    } else {
        nat_text(x as nat)
    }
}

/// Ten to the power `d`.
pub open spec fn pow10(d: nat) -> nat
    decreases d,
{
    if d == 0 {
        1
    } else {
        10 * pow10((d - 1) as nat)
    }
}

/// The last `d` decimal digits of `n`, zero-padded to exactly `d` characters.
pub open spec fn padded_digits(n: nat, d: nat) -> Seq<char>
    decreases d,
{
    if d == 0 {
        Seq::empty()
    } else {
        padded_digits(n / 10, (d - 1) as nat) + seq![digit_char((n % 10) as int)]
    }
}

/// The fractional digits of `f / 10^d`, zero-padded on the left and without
/// trailing zeros.
pub open spec fn frac_text(f: nat, d: nat) -> Seq<char>
    decreases d,
{
    if d > 0 && f % 10 == 0 {
        frac_text(f / 10, (d - 1) as nat)
    } else {
        padded_digits(f, d)
    }
}

/// The shortest decimal text of the exact value `x / 10^d`: a `-` for negative
/// values, the integral digits, and a `.` with the fractional digits only when
/// they are not all zero.
pub open spec fn fixed_text(x: int, d: nat) -> Seq<char> {
    let a: nat = if x < 0 { (-x) as nat } else { x as nat };
    let sign = if x < 0 { seq!['-'] } else { Seq::<char>::empty() };
    if a % pow10(d) == 0 {
        sign + nat_text(a / pow10(d))
    } else {
        sign + nat_text(a / pow10(d)) + seq!['.'] + frac_text(a % pow10(d), d)
    }
}

fn digit_str(d: u64) -> (r: &'static str)
    requires
        d < 10,
    ensures
        r@ == seq![digit_char(d as int)],
{
    proof {
        reveal_strlit("0");
        reveal_strlit("1");
        reveal_strlit("2");
        reveal_strlit("3");
        reveal_strlit("4");
        reveal_strlit("5");
        reveal_strlit("6");
        reveal_strlit("7");
        reveal_strlit("8");
        reveal_strlit("9");
    }
    match d {
        0 => "0",
        1 => "1",
        2 => "2",
        3 => "3",
        4 => "4",
        5 => "5",
        6 => "6",
        7 => "7",
        8 => "8",
        _ => "9",
    }
}

/// Appends the decimal digits of `n`.
pub fn push_nat(out: &mut String, n: u64)
    ensures
        final(out)@ == old(out)@ + nat_text(n as nat),
    decreases n,
{
    if n >= 10 {
        push_nat(out, n / 10);
    }
    out.append(digit_str(n % 10));
    assert(final(out)@ =~= old(out)@ + nat_text(n as nat));
}

/// Appends the decimal text of `x`.
pub fn push_int(out: &mut String, x: i64)
    ensures
        final(out)@ == old(out)@ + int_text(x as int),
{
    if x < 0 {
        proof {
            reveal_strlit("-");
        }
        out.append("-");
        let a: u64 = if x == i64::MIN {
            0x8000_0000_0000_0000u64
        } else {
            (-x) as u64
        };
        push_nat(out, a);
        assert(final(out)@ =~= old(out)@ + int_text(x as int));
    } else {
        push_nat(out, x as u64);
    }
}

fn push_padded(out: &mut String, n: u64, d: u64)
    ensures
        final(out)@ == old(out)@ + padded_digits(n as nat, d as nat),
    decreases d,
{
    if d > 0 {
        push_padded(out, n / 10, d - 1);
        out.append(digit_str(n % 10));
        assert(final(out)@ =~= old(out)@ + padded_digits(n as nat, d as nat));
    } else {
        assert(final(out)@ =~= old(out)@ + padded_digits(n as nat, d as nat));
    }
}

fn push_frac(out: &mut String, f: u64, d: u64)
    ensures
        final(out)@ == old(out)@ + frac_text(f as nat, d as nat),
    decreases d,
{
    if d > 0 && f % 10 == 0 {
        push_frac(out, f / 10, d - 1);
    } else {
        push_padded(out, f, d);
    }
}

/// Powers of ten up to the nineteenth are positive and fit in a `u64`.
proof fn lemma_pow10_bound(d: nat)
    requires
        d <= 19,
    ensures
        1 <= pow10(d) <= pow10(19),
        pow10(19) == 10_000_000_000_000_000_000,
    decreases 19 - d,
{
    reveal_with_fuel(pow10, 20);
    if d < 19 {
        lemma_pow10_bound(d + 1);
    }
}

/// Appends the shortest decimal text of `x / 10^d`.
pub fn push_fixed(out: &mut String, x: i64, d: u64)
    requires
        d <= 19,
    ensures
        final(out)@ == old(out)@ + fixed_text(x as int, d as nat),
{
    proof {
        reveal_strlit("-");
        reveal_strlit(".");
    }
    let mut p: u64 = 1;
    let mut i: u64 = 0;
    while i < d
        invariant
            i <= d <= 19,
            p as nat == pow10(i as nat),
        decreases d - i,
    {
        proof {
            lemma_pow10_bound((i + 1) as nat);
        }
        p = p * 10;
        i = i + 1;
    }
    proof {
        lemma_pow10_bound(d as nat);
    }
    let a: u64 = if x == i64::MIN {
        0x8000_0000_0000_0000u64
    } else if x < 0 {
        (-x) as u64
    } else {
        x as u64
    };
    let ghost start = out@;
    if x < 0 {
        out.append("-");
    }
    push_nat(out, a / p);
    if a % p != 0 {
        out.append(".");
        push_frac(out, a % p, d);
    }
    assert(out@ =~= start + fixed_text(x as int, d as nat));
}

/// `a` comes strictly before `b` in lexicographic order of code points, a
/// proper prefix first.
pub open spec fn name_lt(a: Seq<char>, b: Seq<char>) -> bool
    decreases a.len(),
{
    if a.len() == 0 {
        b.len() > 0
    } else if b.len() == 0 {
        false
    } else if a[0] != b[0] {
        a[0] < b[0]
    } else {
        name_lt(a.drop_first(), b.drop_first())
    }
}

/// The order of names is transitive.
pub proof fn lemma_name_lt_transitive(a: Seq<char>, b: Seq<char>, c: Seq<char>)
    requires
        name_lt(a, b),
        name_lt(b, c),
    ensures
        name_lt(a, c),
    decreases a.len(),
{
    if a.len() > 0 && b.len() > 0 && c.len() > 0 && a[0] == b[0] && b[0] == c[0] {
        lemma_name_lt_transitive(a.drop_first(), b.drop_first(), c.drop_first());
    }
}

/// Of two distinct names, one comes before the other, and never both.
pub proof fn lemma_name_lt_total(a: Seq<char>, b: Seq<char>)
    ensures
        a != b ==> (name_lt(a, b) || name_lt(b, a)),
        !(name_lt(a, b) && name_lt(b, a)),
        !name_lt(a, a),
    decreases a.len(),
{
    if a.len() > 0 && b.len() > 0 && a[0] == b[0] {
        lemma_name_lt_total(a.drop_first(), b.drop_first());
        if a.drop_first() == b.drop_first() {
            assert(a =~= seq![a[0]] + a.drop_first());
            assert(b =~= seq![b[0]] + b.drop_first());
        }
    }
    if a.len() > 0 {
        lemma_name_lt_total(a.drop_first(), a.drop_first());
    }
    if a.len() == 0 && b.len() == 0 {
        assert(a =~= b);
    }
}

/// Whether `a` comes strictly before `b` by [`name_lt`].
pub fn name_before(a: &str, b: &str) -> (r: bool)
    ensures
        r == name_lt(a@, b@),
{
    let la = a.unicode_len();
    let lb = b.unicode_len();
    let mut i: usize = 0;
    assert(a@.skip(0) =~= a@);
    assert(b@.skip(0) =~= b@);
    while i < la && i < lb
        invariant
            la == a@.len(),
            lb == b@.len(),
            i <= la,
            i <= lb,
            name_lt(a@, b@) == name_lt(a@.skip(i as int), b@.skip(i as int)),
        decreases la - i,
    {
        let ca = a.get_char(i);
        let cb = b.get_char(i);
        if ca != cb {
            return ca < cb;
        }
        assert(a@.skip(i as int).drop_first() =~= a@.skip(i + 1));
        assert(b@.skip(i as int).drop_first() =~= b@.skip(i + 1));
        i = i + 1;
    }
    i < lb
}

} // verus!
