use vstd::prelude::*;

verus! {

/// `s` begins with `prefix`.
pub open spec fn spec_starts_with(s: Seq<char>, prefix: Seq<char>) -> bool {
    s.len() >= prefix.len() && s.subrange(0, prefix.len() as int) == prefix
}

/// Character-wise prefix test.
pub fn str_starts_with(s: &str, prefix: &str) -> (r: bool)
    ensures
        r == spec_starts_with(s@, prefix@),
{
    let n = prefix.unicode_len();
    let m = s.unicode_len();
    if m < n {
        return false;
    }
    let mut i: usize = 0;
    while i < n
        invariant
            0 <= i <= n,
            n == prefix@.len(),
            m == s@.len(),
            n <= m,
            forall|j: int| 0 <= j < i ==> s@[j] == prefix@[j],
        decreases n - i,
    {
        if s.get_char(i) != prefix.get_char(i) {
            assert(s@.subrange(0, n as int)[i as int] != prefix@[i as int]);
            return false;
        }
        i += 1;
    }
    assert(s@.subrange(0, n as int) =~= prefix@);
    true
}

/// The decimal digit character of `d`.
pub open spec fn digit_char(d: nat) -> char {
    if d == 0 {
        '0'
    } else if d == 1 {
        '1'
    } else if d == 2 {
        '2'
    } else if d == 3 {
        '3'
    } else if d == 4 {
        '4'
    } else if d == 5 {
        '5'
    } else if d == 6 {
        '6'
    } else if d == 7 {
        '7'
    } else if d == 8 {
        '8'
    } else {
        '9'
    }
}

/// The decimal rendering of `n`, most significant digit first.
pub open spec fn spec_decimal(n: nat) -> Seq<char>
    decreases n,
{
    if n < 10 {
        seq![digit_char(n)]
    } else {
        spec_decimal(n / 10) + seq![digit_char(n % 10)]
    }
}

/// One decimal digit as a string.
fn digit_str(d: u64) -> (r: &'static str)
    requires
        d < 10,
    ensures
        r@ == seq![digit_char(d as nat)],
{
    proof {
        reveal_strlit("0");
        reveal_strlit("1");
        reveal_strlit("2");
        reveal_strlit("3");
        reveal_strlit("4");
        reveal_strlit("5");
        reveal_strlit("6");
        reveal_strlit("7");
        reveal_strlit("8");
        reveal_strlit("9");
    }
    if d == 0 {
        "0"
    } else if d == 1 {
        "1"
    } else if d == 2 {
        "2"
    } else if d == 3 {
        "3"
    } else if d == 4 {
        "4"
    } else if d == 5 {
        "5"
    } else if d == 6 {
        "6"
    } else if d == 7 {
        "7"
    } else if d == 8 {
        "8"
    } else {
        "9"
    }
}

/// Renders `n` in decimal, per `spec_decimal`.
pub fn u64_to_decimal(n: u64) -> (r: String)
    ensures
        r@ == spec_decimal(n as nat),
    decreases n,
{
    if n < 10 {
        let r = String::from_str(digit_str(n));
        r
    } else {
        let prefix = u64_to_decimal(n / 10);
        prefix.concat(digit_str(n % 10))
    }
}

/// 1024 to the `e`.
pub open spec fn pow1024(e: nat) -> nat
    decreases e,
{
    if e == 0 {
        1
    } else {
        1024 * pow1024((e - 1) as nat)
    }
}

pub proof fn lemma_pow1024_increases(a: nat, b: nat)
    requires
        a <= b,
    ensures
        pow1024(a) <= pow1024(b),
        1 <= pow1024(a),
    decreases b,
{
    if b == 0 {
    } else if a == b {
        lemma_pow1024_increases((a - 1) as nat, (b - 1) as nat);
    } else {
        lemma_pow1024_increases(a, (b - 1) as nat);
    }
}

/// The unit exponent of a size: how many times it can be divided by 1024
/// before falling below 1024.
pub open spec fn spec_unit_index(size: nat) -> nat
    decreases size,
{
    if size < 1024 {
        0
    } else {
        1 + spec_unit_index(size / 1024)
    }
}

pub proof fn lemma_unit_index_is(size: nat, e: nat)
    requires
        pow1024(e) <= size,
        size < pow1024(e + 1),
    ensures
        spec_unit_index(size) == e,
    decreases e,
{
    if e == 0 {
        assert(size < 1024);
    } else {
        lemma_pow1024_increases(1, e);
        assert(size >= 1024);
        let p = pow1024((e - 1) as nat);
        assert(pow1024(e) == 1024 * p);
        assert(size / 1024 >= p && size / 1024 < pow1024(e)) by (nonlinear_arith)
            requires
                1024 * p <= size,
                size < 1024 * pow1024(e),
                p >= 1,
                pow1024(e) == 1024 * p,
        ;
        lemma_unit_index_is(size / 1024, (e - 1) as nat);
    }
}

/// The unit symbol of a unit exponent.
pub open spec fn spec_unit_symbol(e: nat) -> Seq<char> {
    if e == 0 {
        "B"@
    } else if e == 1 {
        "KB"@
    } else if e == 2 {
        "MB"@
    } else if e == 3 {
        "GB"@
    } else if e == 4 {
        "TB"@
    } else {
        "PB"@
    }
}

/// `size / d`, rounded to the nearest integer with ties to even.
pub open spec fn round_half_even(size: nat, d: nat) -> nat {
    let q = size / d;
    let r = size % d;
    if 2 * r > d {
        q + 1
    } else if 2 * r < d {
        q
    } else if q % 2 == 0 {
        q
    } else {
        q + 1
    }
}

/// The human-readable rendering of a byte count: the count scaled to the
/// largest unit not above it, rounded to the nearest integer (ties to
/// even), a space, and the unit symbol.
pub open spec fn spec_readable_size(size: nat) -> Seq<char> {
    let e = spec_unit_index(size);
    spec_decimal(round_half_even(size, pow1024(e))) + " "@ + spec_unit_symbol(e)
}

/// Renders a byte count human-readably, per `spec_readable_size`. Counts
/// of a full binary exabyte and beyond have no unit symbol here and are
/// left out.
pub fn to_readable_size(size: u64) -> (r: String)
    requires
        size < 0x1000000000000000u64,
    ensures
        r@ == spec_readable_size(size as nat),
{
    let mut e: u64 = 0;
    let mut d: u64 = 1;
    while size / d >= 1024
        invariant
            d == pow1024(e as nat),
            size < 0x1000000000000000u64,
            1 <= d <= 0x1000000000000000u64,
            size > 0 ==> d <= size,
            size == 0 ==> e == 0,
            e <= 6,
        decreases 6 - e,
    {
        proof {
            assert(size >= 1024 * d && 1024 * d > d) by (nonlinear_arith)
                requires
                    size / d >= 1024,
                    d >= 1,
                    d == pow1024(e as nat),
            ;
            lemma_pow1024_increases(0, e as nat);
            assert(pow1024((e + 1) as nat) == 1024 * d);
            if e + 1 > 6 {
                lemma_pow1024_increases(7, (e + 1) as nat);
                lemma_pow1024_increases(6, 6);
                assert(pow1024(7nat) == 1024 * pow1024(6nat));
                assert(pow1024(6nat) == 1024 * pow1024(5nat));
                assert(pow1024(5nat) == 1024 * pow1024(4nat));
                assert(pow1024(4nat) == 1024 * pow1024(3nat));
                assert(pow1024(3nat) == 1024 * pow1024(2nat));
                assert(pow1024(2nat) == 1024 * pow1024(1nat));
                assert(pow1024(1nat) == 1024 * pow1024(0nat));
                assert(false);
            }
        }
        d = d * 1024;
        e = e + 1;
    }
    proof {
        lemma_pow1024_increases(0, e as nat);
        if size > 0 {
            assert(size < 1024 * d) by (nonlinear_arith)
                requires
                    size / d < 1024,
                    d >= 1,
            ;
            assert(pow1024((e + 1) as nat) == 1024 * d);
            lemma_unit_index_is(size as nat, e as nat);
        } else {
            assert(spec_unit_index(0) == 0);
        }
        assert(spec_unit_index(size as nat) == e as nat);
    }
    let q = size / d;
    let rem = size % d;
    proof {
        assert(q <= size && rem < d) by (nonlinear_arith)
            requires
                q == size / d,
                rem == size % d,
                d >= 1,
        ;
    }
    let doubled = 2 * rem;
    let rounded = if doubled > d {
        q + 1
    } else if doubled < d {
        q
    } else if q % 2 == 0 {
        q
    } else {
        q + 1
    };
    assert(rounded == round_half_even(size as nat, pow1024(e as nat)));
    let digits = u64_to_decimal(rounded);
    let unit: &'static str = if e == 0 {
        "B"
    } else if e == 1 {
        "KB"
    } else if e == 2 {
        "MB"
    } else if e == 3 {
        "GB"
    } else if e == 4 {
        "TB"
    } else {
        "PB"
    };
    let r = digits.concat(" ").concat(unit);
    assert(r@ =~= spec_readable_size(size as nat));
    r
}

/// Relies on console::style and the Display of the styled value: the
/// rendering always writes the given text verbatim, wrapping escape
/// sequences around it — color and attribute codes before, a reset after —
/// when the terminal environment has colors active, and nothing otherwise.
#[verifier::external_body]
fn style_error_prefix(text: &str) -> (r: String)
    ensures
        exists|a: Seq<char>, b: Seq<char>| r@ == a + text@ + b,
{
    format!("{}", console::style(text).red().bold())
}

/// A user-facing error line: the error prefix — styled bold red where the
/// terminal supports it, but always embedded verbatim — then a space, then
/// the message, unaltered.
pub fn format_error_message(message: &str) -> (r: String)
    ensures
        exists|a: Seq<char>, b: Seq<char>| r@ == a + "Error: "@ + b + " "@ + message@,
{
    let prefix = style_error_prefix("Error: ");
    let r = prefix.concat(" ").concat(message);
    proof {
        let (a, b) = choose|a: Seq<char>, b: Seq<char>| prefix@ == a + "Error: "@ + b;
        assert(r@ =~= a + "Error: "@ + b + " "@ + message@);
    }
    r
}

} // verus!
