//! Decimal text of integers and fixed-point values.
use vstd::prelude::*;
use vstd::string::StringExecFns;

verus! {

pub open spec fn digit_char(d: int) -> char {
    if d == 0 {
        '0'
    } else if d == 1 {
        '1'
    } else if d == 2 {
        '2'
    } else if d == 3 {
        '3'
    } else if d == 4 {
        '4'
    } else if d == 5 {
        '5'
    } else if d == 6 {
        '6'
    } else if d == 7 {
        '7'
    } else if d == 8 {
        '8'
    } else {
        '9'
    }
}

/// The decimal digits of `n`, without leading zeros.
pub open spec fn nat_text(n: nat) -> Seq<char>
    decreases n,
{
    if n < 10 {
        seq![digit_char(n as int)]
    } else {
        nat_text(n / 10) + seq![digit_char((n % 10) as int)]
    }
}

/// The last `places` decimal digits of `n`, zero-padded.
pub open spec fn padded_text(n: nat, places: nat) -> Seq<char>
    decreases places,
{
    if places == 0 {
        Seq::empty()
    } else {
        padded_text(n / 10, (places - 1) as nat) + seq![digit_char((n % 10) as int)]
    }
}

pub open spec fn pow10(p: nat) -> nat
    decreases p,
{
    if p == 0 {
        1
    } else {
        10 * pow10((p - 1) as nat)
    }
}

/// `v / 10^places` written with `places` decimals (at least one), as
/// `{:.N}` prints it: a
/// minus sign for negative values, the whole part, a point and the
/// fraction.
pub open spec fn fixed_text(v: int, places: nat) -> Seq<char> {
    let a = if v < 0 {
        -v
    } else {
        v
    };
    let sign = if v < 0 {
        seq!['-']
    } else {
        Seq::empty()
    };
    sign + nat_text((a / pow10(places) as int) as nat) + seq!['.'] + padded_text(
        (a % pow10(places) as int) as nat,
        places,
    )
}

/// The characters of `s`, one by one.
pub fn chars_of_str(s: &str) -> (r: Vec<char>)
    ensures
        r@ == s@,
{
    let mut v: Vec<char> = Vec::new();
    for ch in it: s.chars()
        invariant
            it.seq() == s@,
            v@ == s@.take(it.index() as int),
    {
        let ghost k = it.index() as int;
        assert(k < s@.len() && s@[k] == ch);
        v.push(ch);
        assert(s@.take(k + 1) =~= s@.take(k).push(ch));
    }
    assert(s@.take(s@.len() as int) =~= s@);
    v
}

/// Whether two texts hold the same characters.
pub fn same_text(a: &str, b: &str) -> (r: bool)
    ensures
        r == (a@ == b@),
{
    let x = chars_of_str(a);
    let y = chars_of_str(b);
    if x.len() != y.len() {
        return false;
    }
    let mut i: usize = 0;
    while i < x.len()
        invariant
            x@ == a@,
            y@ == b@,
            x@.len() == y@.len(),
            i <= x@.len(),
            forall|k: int| 0 <= k < i ==> x@[k] == y@[k],
        decreases x@.len() - i,
    {
        if x[i] != y[i] {
            return false;
        }
        i = i + 1;
    }
    assert(x@ =~= y@);
    true
}

fn digit_str(d: u64) -> (r: &'static str)
    requires
        d < 10,
    ensures
        r@ == seq![digit_char(d as int)],
{
    proof {
        reveal_strlit("0");
        reveal_strlit("1");
        reveal_strlit("2");
        reveal_strlit("3");
        reveal_strlit("4");
        reveal_strlit("5");
        reveal_strlit("6");
        reveal_strlit("7");
        reveal_strlit("8");
        reveal_strlit("9");
    }
    let r = if d == 0 {
        "0"
    } else if d == 1 {
        "1"
    } else if d == 2 {
        "2"
    } else if d == 3 {
        "3"
    } else if d == 4 {
        "4"
    } else if d == 5 {
        "5"
    } else if d == 6 {
        "6"
    } else if d == 7 {
        "7"
    } else if d == 8 {
        "8"
    } else {
        "9"
    };
    assert(r@ =~= seq![digit_char(d as int)]);
    r
}

/// Appends the decimal digits of `n`.
pub fn push_nat(s: &mut String, n: u64)
    ensures
        final(s)@ == old(s)@ + nat_text(n as nat),
    decreases n,
{
    if n >= 10 {
        push_nat(s, n / 10);
    }
    s.append(digit_str(n % 10));
    proof {
        if n >= 10 {
            assert(old(s)@ + nat_text(n as nat) =~= old(s)@ + nat_text((n / 10) as nat) + seq![
                digit_char((n % 10) as int),
            ]);
        } else {
            assert(old(s)@ + nat_text(n as nat) =~= old(s)@ + seq![digit_char((n % 10) as int)]);
        }
    }
}

/// Appends the last `places` digits of `n`, zero-padded.
fn push_padded(s: &mut String, n: u64, places: u32)
    ensures
        final(s)@ == old(s)@ + padded_text(n as nat, places as nat),
    decreases places,
{
    if places > 0 {
        push_padded(s, n / 10, places - 1);
        s.append(digit_str(n % 10));
        assert(old(s)@ + padded_text(n as nat, places as nat) =~= old(s)@ + padded_text(
            (n / 10) as nat,
            (places - 1) as nat,
        ) + seq![digit_char((n % 10) as int)]);
    } else {
        assert(old(s)@ + padded_text(n as nat, places as nat) =~= old(s)@);
    }
}

/// Appends `v / 10^places` with `places` decimals.
pub fn push_fixed(s: &mut String, v: i32, places: u32)
    requires
        1 <= places <= 4,
    ensures
        final(s)@ == old(s)@ + fixed_text(v as int, places as nat),
{
    let a: u64 = if v < 0 {
        (-(v as i64)) as u64
    } else {
        v as u64
    };
    let mut scale: u64 = 1;
    let mut k: u32 = 0;
    while k < places
        invariant
            k <= places,
            places <= 4,
            scale == pow10(k as nat),
            scale <= 10000,
            scale >= 1,
        decreases places - k,
    {
        proof {
            assert(pow10((k + 1) as nat) == 10 * pow10(k as nat));
        }
        scale = scale * 10;
        k = k + 1;
        assert(scale <= 10000) by {
            assert(k <= 4);
            if k == 1 {
                assert(pow10(1) == 10 * pow10(0));
            } else if k == 2 {
                assert(pow10(2) == 10 * pow10(1));
                assert(pow10(1) == 10 * pow10(0));
            } else if k == 3 {
                assert(pow10(3) == 10 * pow10(2));
                assert(pow10(2) == 10 * pow10(1));
                assert(pow10(1) == 10 * pow10(0));
            } else {
                assert(pow10(4) == 10 * pow10(3));
                assert(pow10(3) == 10 * pow10(2));
                assert(pow10(2) == 10 * pow10(1));
                assert(pow10(1) == 10 * pow10(0));
            }
        }
    }
    let ghost s0 = s@;
    if v < 0 {
        s.append("-");
        proof {
            reveal_strlit("-");
        }
    }
    let ghost s1 = s@;
    push_nat(s, a / scale);
    s.append(".");
    proof {
        reveal_strlit(".");
    }
    let ghost s2 = s@;
    push_padded(s, a % scale, places);
    proof {
        let sign = if v < 0 {
            seq!['-']
        } else {
            Seq::<char>::empty()
        };
        assert(s1 =~= s0 + sign);
        assert(s@ =~= s0 + (sign + nat_text((a / scale) as nat) + seq!['.'] + padded_text(
            (a % scale) as nat,
            places as nat,
        )));
    }
}

} // verus!
