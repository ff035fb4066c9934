//! Decimal rendering of integers and the duration texts shown in the timer.
use vstd::prelude::*;

verus! {

/// The character of a decimal digit `d` (`0 <= d < 10`).
pub open spec fn digit_char(d: nat) -> char {
    ((48 + d) as u32) as char
}

/// The decimal digits of `n`, most significant first, without leading zeros
/// (`"0"` for zero).
pub open spec fn digits(n: nat) -> Seq<char>
    decreases n,
{
    if n < 10 {
        seq![digit_char(n)]
    } else {
        digits(n / 10) + seq![digit_char(n % 10)]
    }
}

/// What `{}` prints for the integer `n`.
pub open spec fn int_text(n: int) -> Seq<char> {
    if n < 0 {
        seq!['-'] + digits((-n) as nat)
    } else {
        digits(n as nat)
    }
}

/// What `{:02}` prints for the integer `n`: zero-padded to two characters,
/// the sign counting towards the width.
pub open spec fn pad2_text(n: int) -> Seq<char> {
    if 0 <= n < 10 {
        seq!['0'] + digits(n as nat)
    } else {
        int_text(n)
    }
}

fn digit_text(d: u128) -> (s: &'static str)
    requires
        d < 10,
    ensures
        s@ == seq![digit_char(d as nat)],
{
    proof {
        reveal_strlit("0");
        reveal_strlit("1");
        reveal_strlit("2");
        reveal_strlit("3");
        reveal_strlit("4");
        reveal_strlit("5");
        reveal_strlit("6");
        reveal_strlit("7");
        reveal_strlit("8");
        reveal_strlit("9");
    }
    if d == 0 {
        "0"
    } else if d == 1 {
        "1"
    } else if d == 2 {
        "2"
    } else if d == 3 {
        "3"
    } else if d == 4 {
        "4"
    } else if d == 5 {
        "5"
    } else if d == 6 {
        "6"
    } else if d == 7 {
        "7"
    } else if d == 8 {
        "8"
    } else {
        "9"
    }
}

/// The decimal digits of `n`.
pub fn nat_to_text(n: u128) -> (s: String)
    ensures
        s@ == digits(n as nat),
{
    let mut m: u128 = n;
    let mut res = String::new();
    loop
        invariant
            digits(n as nat) == digits(m as nat) + res@,
        decreases m,
    {
        let d: u128 = m % 10;
        res = String::from_str(digit_text(d)).concat(res.as_str());
        if m < 10 {
            assert(digits(m as nat) == seq![digit_char(d as nat)]);
            assert(digits(n as nat) == res@);
            return res;
        }
        assert(digits(m as nat) == digits((m / 10) as nat) + seq![digit_char(d as nat)]);
        m = m / 10;
    }
}


/// The decimal text of `n`, as `{}` prints it.
pub fn int_to_text(n: i128) -> (s: String)
    ensures
        s@ == int_text(n as int),
{
    if n < 0 {
        let magnitude: u128 = ((-(n + 1)) as u128) + 1;
        let digits_text = nat_to_text(magnitude);
        proof {
            reveal_strlit("-");
        }
        String::from_str("-").concat(digits_text.as_str())
    } else {
        nat_to_text(n as u128)
    }
}

/// The text of `n` as `{:02}` prints it.
pub fn pad2(n: i128) -> (s: String)
    ensures
        s@ == pad2_text(n as int),
{
    if 0 <= n && n < 10 {
        let d = nat_to_text(n as u128);
        proof {
            reveal_strlit("0");
        }
        String::from_str("0").concat(d.as_str())
    } else {
        int_to_text(n)
    }
}

/// Division that rounds towards zero, as Rust's `/` on signed integers does.
pub open spec fn tdiv(a: int, b: int) -> int
    recommends
        b > 0,
{
    if a >= 0 {
        a / b
    } else {
        -((-a) / b)
    }
}

/// The remainder that goes with `tdiv`, as Rust's `%` on signed integers.
pub open spec fn trem(a: int, b: int) -> int
    recommends
        b > 0,
{
    a - b * tdiv(a, b)
}

/// Whole hours in `secs` seconds, rounded towards zero.
pub open spec fn whole_hours(secs: int) -> int {
    tdiv(secs, 3600)
}

/// Whole minutes in what remains of `secs` after the whole hours.
pub open spec fn rest_minutes(secs: int) -> int {
    tdiv(trem(secs, 3600), 60)
}

/// The length of one entry as the entry list shows it: `"{h}h {m:02}m"` when
/// there is at least one whole hour, `"{m}m"` otherwise.
pub open spec fn entry_duration_text(secs: int) -> Seq<char> {
    if whole_hours(secs) > 0 {
        int_text(whole_hours(secs)) + seq!['h', ' '] + pad2_text(rest_minutes(secs)) + seq!['m']
    } else {
        int_text(rest_minutes(secs)) + seq!['m']
    }
}

/// The day's total as the total label shows it: always `"{h}h {m:02}m"`.
pub open spec fn total_duration_text(secs: int) -> Seq<char> {
    int_text(whole_hours(secs)) + seq!['h', ' '] + pad2_text(rest_minutes(secs)) + seq!['m']
}

/// The running clock, `"{h:02}:{m:02}:{s:02}"`.
pub open spec fn clock_text(secs: int) -> Seq<char> {
    pad2_text(tdiv(secs, 3600)) + seq![':'] + pad2_text(tdiv(trem(secs, 3600), 60)) + seq![':']
        + pad2_text(trem(secs, 60))
}

fn trunc_div(a: i128, b: i128) -> (q: i128)
    requires
        b > 0,
    ensures
        q == tdiv(a as int, b as int),
        a >= 0 ==> 0 <= q * b <= a,
        a < 0 ==> a <= q * b <= 0,
{
    let ghost ai = a as int;
    let ghost bi = b as int;
    if a >= 0 {
        let q = a / b;
        assert(0 <= q * b <= a) by (nonlinear_arith)
            requires
                q == ai / bi,
                ai >= 0,
                bi > 0,
                a == ai,
                b == bi,
        ;
        q
    } else {
        // `-(a + 1)` never overflows, and `-a == -(a + 1) + 1`.
        let m: i128 = -(a + 1);
        let q0 = m / b;
        let r0 = m % b;
        let q = if r0 == b - 1 { -q0 - 1 } else { -q0 };
        assert(q == -((-ai) / bi)) by (nonlinear_arith)
            requires
                m == -ai - 1,
                q0 == (m as int) / bi,
                r0 == (m as int) % bi,
                m >= 0,
                bi > 0,
                q == (if r0 == bi - 1 { -q0 - 1 } else { -q0 }),
        ;
        assert(ai <= q * bi <= 0) by (nonlinear_arith)
            requires
                q == -((-ai) / bi),
                ai < 0,
                bi > 0,
        ;
        q
    }
}

fn trunc_rem(a: i128, b: i128) -> (r: i128)
    requires
        b > 0,
    ensures
        r == trem(a as int, b as int),
{
    let q = trunc_div(a, b);
    a - q * b
}

/// The length of one entry of `secs` seconds as the entry list shows it.
pub fn entry_duration(secs: i64) -> (s: String)
    ensures
        s@ == entry_duration_text(secs as int),
{
    let h = trunc_div(secs as i128, 3600);
    let m = trunc_div(trunc_rem(secs as i128, 3600), 60);
    if h > 0 {
        let mut s = int_to_text(h);
        s.append("h ");
        let mm = pad2(m);
        s.append(mm.as_str());
        s.append("m");
        proof {
            reveal_strlit("h ");
            reveal_strlit("m");
        }
        s
    } else {
        let mut s = int_to_text(m);
        s.append("m");
        proof {
            reveal_strlit("m");
        }
        s
    }
}

/// A total of `secs` seconds as the total label shows it.
pub fn total_duration(secs: i128) -> (s: String)
    ensures
        s@ == total_duration_text(secs as int),
{
    let h = trunc_div(secs, 3600);
    let m = trunc_div(trunc_rem(secs, 3600), 60);
    let mut s = int_to_text(h);
    s.append("h ");
    let mm = pad2(m);
    s.append(mm.as_str());
    s.append("m");
    proof {
        reveal_strlit("h ");
        reveal_strlit("m");
    }
    s
}

/// `secs` seconds on the running clock, `HH:MM:SS`.
pub fn clock(secs: i128) -> (s: String)
    ensures
        s@ == clock_text(secs as int),
{
    let h = trunc_div(secs, 3600);
    let m = trunc_div(trunc_rem(secs, 3600), 60);
    let sec = trunc_rem(secs, 60);
    let mut s = pad2(h);
    s.append(":");
    let mm = pad2(m);
    s.append(mm.as_str());
    s.append(":");
    let ss = pad2(sec);
    s.append(ss.as_str());
    proof {
        reveal_strlit(":");
    }
    s
}

/// For a clock reading that is not negative, the three fields are hours,
/// minutes below 60 and seconds below 60, and they add back up to the reading.
pub proof fn law_clock_fields_add_up(secs: int)
    requires
        secs >= 0,
    ensures
        0 <= tdiv(trem(secs, 3600), 60) < 60,
        0 <= trem(secs, 60) < 60,
        tdiv(secs, 3600) * 3600 + tdiv(trem(secs, 3600), 60) * 60 + trem(secs, 60) == secs,
{
    let h = secs / 3600;
    let r = secs % 3600;
    assert(secs == h * 3600 + r && 0 <= r < 3600) by (nonlinear_arith)
        requires
            h == secs / 3600,
            r == secs % 3600,
            secs >= 0,
    ;
    assert(trem(secs, 3600) == r);
    let m = r / 60;
    let s = r % 60;
    assert(r == m * 60 + s && 0 <= s < 60 && 0 <= m < 60) by (nonlinear_arith)
        requires
            m == r / 60,
            s == r % 60,
            0 <= r < 3600,
    ;
    assert(secs == (h * 60 + m) * 60 + s) by (nonlinear_arith)
        requires
            secs == h * 3600 + r,
            r == m * 60 + s,
    ;
    assert(secs / 60 == h * 60 + m && secs % 60 == s) by (nonlinear_arith)
        requires
            secs == (h * 60 + m) * 60 + s,
            0 <= s < 60,
            h >= 0,
            m >= 0,
    ;
}

} // verus!
