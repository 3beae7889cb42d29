//! Reading a JSON number's decimal text as a count of whole units, the way a
//! cast of the number to an unsigned integer truncates it: negative numbers
//! read as zero, fractions are dropped, and values past `u64::MAX` stop there.
use crate::utils::chars_of;
use vstd::prelude::*;

verus! {

/// Whether `c` is a decimal digit.
pub open spec fn is_digit(c: char) -> bool {
    '0' <= c && c <= '9'
}

/// The number of decimal digits at the start of `t`.
pub open spec fn leading_digits(t: Seq<char>) -> nat
    decreases t.len(),
{
    if t.len() > 0 && is_digit(t[0]) {
        1 + leading_digits(t.drop_first())
    } else {
        0
    }
}

/// The value of the digits `s`, most significant first.
pub open spec fn digits_value(s: Seq<char>) -> nat
    decreases s.len(),
{
    if s.len() == 0 {
        0
    } else {
        digits_value(s.drop_last()) * 10 + (s.last() as nat - '0' as nat) as nat
    }
}

/// `n`, or `u64::MAX` when `n` is larger.
pub open spec fn cap(n: nat) -> nat {
    if n >= u64::MAX {
        u64::MAX as nat
    } else {
        n
    }
}

/// `k` zero digits.
pub open spec fn zeros(k: nat) -> Seq<char> {
    Seq::new(k, |i: int| '0')
}

/// The length of the run of digits that starts at `from` in `t`.
pub open spec fn run_from(t: Seq<char>, from: nat) -> nat {
    leading_digits(t.subrange(from as int, t.len() as int))
}

/// The parts of a number's text `t` (`123.45e-6`): the end of the integer
/// digits, the start and end of the fraction digits, whether the exponent is
/// negative, and the exponent's size, capped at `u64::MAX`.
pub open spec fn number_parts(t: Seq<char>) -> (nat, nat, nat, bool, nat) {
    let a = leading_digits(t);
    let fs = if a < t.len() && t[a as int] == '.' {
        a + 1
    } else {
        a
    };
    let fe = fs + run_from(t, fs);
    let has_e = fe < t.len() && (t[fe as int] == 'e' || t[fe as int] == 'E');
    let sign_at = fe + 1;
    let signed = has_e && sign_at < t.len() && (t[sign_at as int] == '-' || t[sign_at as int] == '+');
    let negative = signed && t[sign_at as int] == '-';
    let es: nat = if !has_e {
        fe
    } else if signed {
        sign_at + 1
    } else {
        sign_at
    };
    let exponent = if has_e {
        cap(digits_value(t.subrange(es as int, (es + run_from(t, es)) as int)))
    } else {
        0
    };
    (a, fs, fe, negative, exponent)
}

/// The integer digits of `t` once its decimal point is moved by its exponent:
/// to the right, taking fraction digits and then zeros; to the left, dropping
/// integer digits.
pub open spec fn shifted_digits(t: Seq<char>) -> Seq<char> {
    let (a, fs, fe, negative, e) = number_parts(t);
    let int_digits = t.subrange(0, a as int);
    let frac = t.subrange(fs as int, fe as int);
    if negative {
        int_digits.subrange(0, a - if e <= a { e } else { a })
    } else {
        let taken: nat = if e <= frac.len() { e } else { frac.len() };
        int_digits + frac.subrange(0, taken as int) + zeros((e - taken) as nat)
    }
}

/// A number's text truncated to whole units: zero for a negative number, the
/// integer part after the exponent is applied (capped at `u64::MAX`) for a
/// number that starts with a digit, `None` for anything else.
pub open spec fn whole_of_text(t: Seq<char>) -> Option<u64> {
    if t.len() > 0 && t[0] == '-' {
        Some(0)
    } else if leading_digits(t) == 0 {
        None
    } else {
        Some(cap(digits_value(shifted_digits(t))) as u64)
    }
}

proof fn lemma_push_digit(s: Seq<char>, c: char)
    requires
        is_digit(c),
    ensures
        digits_value(s.push(c)) == digits_value(s) * 10 + (c as nat - '0' as nat) as nat,
        cap(digits_value(s.push(c))) == cap(cap(digits_value(s)) * 10 + (c as nat - '0' as nat) as nat),
{
    assert(s.push(c).drop_last() =~= s);
    let d = (c as nat - '0' as nat) as nat;
    if digits_value(s) >= u64::MAX {
        assert(digits_value(s) * 10 + d >= u64::MAX) by (nonlinear_arith)
            requires
                digits_value(s) >= u64::MAX,
        ;
    }
}

/// The digits of `t` from `from` up to `to` appended to a capped value `acc`.
fn append_digits(acc: u128, Ghost(s): Ghost<Seq<char>>, t: &Vec<char>, from: usize, to: usize) -> (r:
    u128)
    requires
        acc == cap(digits_value(s)),
        from <= to <= t@.len(),
        forall|k: int| from <= k < to ==> is_digit(#[trigger] t@[k]),
    ensures
        r == cap(digits_value(s + t@.subrange(from as int, to as int))),
{
    let mut r = acc;
    let mut i = from;
    while i < to
        invariant
            from <= i <= to <= t@.len(),
            forall|k: int| from <= k < to ==> is_digit(#[trigger] t@[k]),
            r == cap(digits_value(s + t@.subrange(from as int, i as int))),
        decreases to - i,
    {
        let ghost before = s + t@.subrange(from as int, i as int);
        proof {
            assert(is_digit(t@[i as int]));
            lemma_push_digit(before, t@[i as int]);
            assert(before.push(t@[i as int]) =~= s + t@.subrange(from as int, i + 1));
        }
        let d = (t[i] as u32 - '0' as u32) as u128;
        let next = r * 10 + d;
        r = if next >= u64::MAX as u128 {
            u64::MAX as u128
        } else {
            next
        };
        i += 1;
    }
    r
}

/// `z` zero digits appended to a capped value `acc`.
fn append_zeros(acc: u128, Ghost(s): Ghost<Seq<char>>, z: u64) -> (r: u128)
    requires
        acc == cap(digits_value(s)),
    ensures
        r == cap(digits_value(s + zeros(z as nat))),
{
    let mut r = acc;
    let mut j: u64 = 0;
    while j < z
        invariant
            j <= z,
            r == cap(digits_value(s + zeros(j as nat))),
        decreases z - j,
    {
        if r == 0 || r == u64::MAX as u128 {
            proof {
                lemma_zeros_stable(s + zeros(j as nat), (z - j) as nat);
                assert(s + zeros(j as nat) + zeros((z - j) as nat) =~= s + zeros(z as nat));
            }
            return r;
        }
        proof {
            lemma_push_digit(s + zeros(j as nat), '0');
            assert((s + zeros(j as nat)).push('0') =~= s + zeros((j + 1) as nat));
        }
        r = if r * 10 >= u64::MAX as u128 {
            u64::MAX as u128
        } else {
            r * 10
        };
        j += 1;
    }
    r
}

/// Appending zeros keeps a value of zero at zero and a capped value at the cap.
proof fn lemma_zeros_stable(s: Seq<char>, k: nat)
    requires
        cap(digits_value(s)) == 0 || cap(digits_value(s)) == u64::MAX,
    ensures
        cap(digits_value(s + zeros(k))) == cap(digits_value(s)),
    decreases k,
{
    if k == 0 {
        assert(s + zeros(0) =~= s);
    } else {
        lemma_zeros_stable(s, (k - 1) as nat);
        lemma_push_digit(s + zeros((k - 1) as nat), '0');
        assert((s + zeros((k - 1) as nat)).push('0') =~= s + zeros(k));
    }
}

/// The count of leading digits is the first position that holds no digit.
proof fn lemma_leading_digits(t: Seq<char>, i: nat)
    requires
        i <= t.len(),
        forall|k: int| 0 <= k < i ==> is_digit(#[trigger] t[k]),
        i == t.len() || !is_digit(t[i as int]),
    ensures
        leading_digits(t) == i,
    decreases i,
{
    if i > 0 {
        assert forall|k: int| 0 <= k < i - 1 implies is_digit(#[trigger] t.drop_first()[k]) by {
            assert(t.drop_first()[k] == t[k + 1]);
        }
        if i < t.len() {
            assert(t.drop_first()[i - 1] == t[i as int]);
        }
        lemma_leading_digits(t.drop_first(), (i - 1) as nat);
    } else if t.len() > 0 {
        assert(!is_digit(t[0]));
    }
}

/// The end of the run of digits that starts at `from`.
fn digit_run(t: &Vec<char>, from: usize) -> (end: usize)
    requires
        from <= t@.len(),
    ensures
        from <= end <= t@.len(),
        end == from + run_from(t@, from as nat),
        forall|k: int| from <= k < end ==> is_digit(#[trigger] t@[k]),
{
    let mut i = from;
    while i < t.len() && '0' <= t[i] && t[i] <= '9'
        invariant
            from <= i <= t@.len(),
            forall|k: int| from <= k < i ==> is_digit(#[trigger] t@[k]),
        decreases t@.len() - i,
    {
        i += 1;
    }
    proof {
        let sub = t@.subrange(from as int, t@.len() as int);
        assert forall|k: int| 0 <= k < i - from implies is_digit(#[trigger] sub[k]) by {
            assert(sub[k] == t@[from + k]);
        }
        if i < t@.len() {
            assert(sub[i - from] == t@[i as int]);
        }
        lemma_leading_digits(sub, (i - from) as nat);
    }
    i
}

/// The parts of the number's text `t`, as `number_parts` gives them.
fn read_parts(t: &Vec<char>) -> (r: (usize, usize, usize, bool, u64))
    ensures
        (r.0 as nat, r.1 as nat, r.2 as nat, r.3, r.4 as nat) == number_parts(t@),
        r.0 <= r.1 <= r.2 <= t@.len(),
        forall|k: int| 0 <= k < r.0 ==> is_digit(#[trigger] t@[k]),
        forall|k: int| r.1 <= k < r.2 ==> is_digit(#[trigger] t@[k]),
{
    let n = t.len();
    let a = digit_run(t, 0);
    assert(t@.subrange(0, n as int) =~= t@);
    let fs = if a < n && t[a] == '.' {
        a + 1
    } else {
        a
    };
    let fe = digit_run(t, fs);
    let has_e = fe < n && (t[fe] == 'e' || t[fe] == 'E');
    if !has_e {
        return (a, fs, fe, false, 0);
    }
    let sign_at = fe + 1;
    let signed = sign_at < n && (t[sign_at] == '-' || t[sign_at] == '+');
    let negative = signed && t[sign_at] == '-';
    let es = if signed {
        sign_at + 1
    } else {
        sign_at
    };
    let ee = digit_run(t, es);
    let e = append_digits(0, Ghost(Seq::empty()), t, es, ee);
    assert(Seq::<char>::empty() + t@.subrange(es as int, ee as int) =~= t@.subrange(
        es as int,
        ee as int,
    ));
    (a, fs, fe, negative, e as u64)
}

/// The capped value of the shifted digits, from the parts of the text.
fn shifted_value(t: &Vec<char>, parts: (usize, usize, usize, bool, u64)) -> (r: u128)
    requires
        (parts.0 as nat, parts.1 as nat, parts.2 as nat, parts.3, parts.4 as nat) == number_parts(t@),
        parts.0 <= parts.1 <= parts.2 <= t@.len(),
        forall|k: int| 0 <= k < parts.0 ==> is_digit(#[trigger] t@[k]),
        forall|k: int| parts.1 <= k < parts.2 ==> is_digit(#[trigger] t@[k]),
    ensures
        r == cap(digits_value(shifted_digits(t@))),
{
    let (a, fs, fe, negative, exponent) = parts;
    let ghost int_digits = t@.subrange(0, a as int);
    if negative {
        let keep = a - if exponent <= a as u64 {
            exponent as usize
        } else {
            a
        };
        let r = append_digits(0, Ghost(Seq::empty()), t, 0, keep);
        assert(Seq::<char>::empty() + t@.subrange(0, keep as int) =~= int_digits.subrange(
            0,
            keep as int,
        ));
        r
    } else {
        let flen = fe - fs;
        let taken: usize = if exponent <= flen as u64 {
            exponent as usize
        } else {
            flen
        };
        let whole = append_digits(0, Ghost(Seq::empty()), t, 0, a);
        assert(Seq::<char>::empty() + t@.subrange(0, a as int) =~= int_digits);
        let with_frac = append_digits(whole, Ghost(int_digits), t, fs, fs + taken);
        let ghost frac = t@.subrange(fs as int, fe as int);
        assert(t@.subrange(fs as int, fs + taken) =~= frac.subrange(0, taken as int));
        append_zeros(
            with_frac,
            Ghost(int_digits + frac.subrange(0, taken as int)),
            exponent - taken as u64,
        )
    }
}

/// A number's text truncated to whole units.
pub fn whole_of(text: &str) -> (r: Option<u64>)
    ensures
        r == whole_of_text(text@),
{
    let t = chars_of(text);
    if t.len() > 0 && t[0] == '-' {
        return Some(0);
    }
    let parts = read_parts(&t);
    if parts.0 == 0 {
        return None;
    }
    let v = shifted_value(&t, parts);
    Some(v as u64)
}

} // verus!
