//! Character and string building blocks: decimal digits, two-digit padding,
//! full decimal rendering, boolean rendering, and substitution of the `xx`
//! placeholder inside template strings.

use vstd::prelude::*;

verus! {

use vstd::string::StrSliceExecFns;
use vstd::string::StringExecFns;

/// The decimal digit character for `d` (meaningful for `0 <= d <= 9`).
pub open spec fn digit_char(d: int) -> char {
    if d == 0 {
        '0'
    } else if d == 1 {
        '1'
    } else if d == 2 {
        '2'
    } else if d == 3 {
        '3'
    } else if d == 4 {
        '4'
    } else if d == 5 {
        '5'
    } else if d == 6 {
        '6'
    } else if d == 7 {
        '7'
    } else if d == 8 {
        '8'
    } else {
        '9'
    }
}

/// A node identity rendered as exactly two decimal digits (`5` -> `05`).
pub open spec fn pad2(n: int) -> Seq<char> {
    seq![digit_char(n / 10), digit_char(n % 10)]
}

/// The decimal character for one digit value.
pub fn digit_char_of(d: u8) -> (c: char)
    requires
        d <= 9,
    ensures
        c == digit_char(d as int),
{
    match d {
        0 => '0',
        1 => '1',
        2 => '2',
        3 => '3',
        4 => '4',
        5 => '5',
        6 => '6',
        7 => '7',
        8 => '8',
        _ => '9',
    }
}

/// Relies on std's `String::push`: appends the given character to the end of
/// the string.
pub assume_specification[ String::push ](s: &mut String, c: char)
    ensures
        final(s)@ == old(s)@.push(c),
;

/// Appends the two-digit decimal form of `n` to `out`.
pub fn push_pad2(out: &mut String, n: u8)
    requires
        n <= 99,
    ensures
        final(out)@ == old(out)@ + pad2(n as int),
{
    let d1 = n / 10;
    let d2 = n % 10;
    out.push(digit_char_of(d1));
    out.push(digit_char_of(d2));
    proof {
        assert(out@ =~= old(out)@ + pad2(n as int));
    }
}

/// The full decimal rendering of `n`, without padding or sign.
pub open spec fn dec_rep(n: nat) -> Seq<char>
    decreases n,
{
    if n < 10 {
        seq![digit_char(n as int)]
    } else {
        dec_rep(n / 10).push(digit_char((n % 10) as int))
    }
}

/// Renders `n` in decimal.
pub fn dec_u64(n: u64) -> (r: String)
    ensures
        r@ == dec_rep(n as nat),
    decreases n,
{
    if n < 10 {
        let mut s = String::new();
        s.push(digit_char_of(n as u8));
        s
    } else {
        let mut s = dec_u64(n / 10);
        s.push(digit_char_of((n % 10) as u8));
        s
    }
}

/// The rendering of a boolean as `true` or `false`.
pub open spec fn bool_str(b: bool) -> Seq<char> {
    if b {
        "true"@
    } else {
        "false"@
    }
}

/// Renders a boolean as `true` or `false`.
pub fn bool_to_str(b: bool) -> (r: &'static str)
    ensures
        r@ == bool_str(b),
{
    if b {
        "true"
    } else {
        "false"
    }
}

/// Concatenates two string slices.
pub fn concat2(a: &str, b: &str) -> (r: String)
    ensures
        r@ == a@ + b@,
{
    let mut s = a.to_owned();
    s.append(b);
    s
}

/// Concatenates three string slices.
pub fn concat3(a: &str, b: &str, c: &str) -> (r: String)
    ensures
        r@ == a@ + b@ + c@,
{
    let mut s = a.to_owned();
    s.append(b);
    s.append(c);
    s
}

/// The result of replacing every non-overlapping occurrence of the
/// placeholder `xx` in `s` by `r`, scanning left to right.
pub open spec fn subst_xx(s: Seq<char>, r: Seq<char>) -> Seq<char>
    decreases s.len(),
{
    if s.len() >= 2 && s[0] == 'x' && s[1] == 'x' {
        r + subst_xx(s.skip(2), r)
    } else if s.len() >= 1 {
        seq![s[0]] + subst_xx(s.skip(1), r)
    } else {
        Seq::<char>::empty()
    }
}

/// Replaces every non-overlapping occurrence of `xx` in `s` by `r`,
/// scanning left to right.
pub fn replace_xx(s: &str, r: &str) -> (out: String)
    ensures
        out@ == subst_xx(s@, r@),
{
    let len = s.unicode_len();
    let mut out = String::new();
    let mut i: usize = 0;
    proof {
        assert(s@.skip(0) =~= s@);
        assert(out@ + subst_xx(s@, r@) =~= subst_xx(s@, r@));
    }
    while i < len
        invariant
            i <= len,
            len == s@.len(),
            out@ + subst_xx(s@.skip(i as int), r@) == subst_xx(s@, r@),
        decreases len - i,
    {
        let c = s.get_char(i);
        let ghost prev = out@;
        if c == 'x' && i + 1 < len && s.get_char(i + 1) == 'x' {
            out.append(r);
            proof {
                assert(s@.skip(i as int).skip(2) =~= s@.skip(i as int + 2));
            }
            i = i + 2;
        } else {
            out.push(c);
            proof {
                assert(s@.skip(i as int).skip(1) =~= s@.skip(i as int + 1));
                assert(out@ =~= prev + seq![c]);
            }
            i = i + 1;
        }
    }
    proof {
        assert(s@.skip(len as int) =~= Seq::<char>::empty());
        assert(out@ + Seq::<char>::empty() =~= out@);
    }
    out
}

/// Two-digit padding is injective on the identity domain: distinct values
/// render as distinct digit pairs.
pub proof fn lemma_pad2_injective(a: int, b: int)
    requires
        0 <= a <= 99,
        0 <= b <= 99,
        a != b,
    ensures
        pad2(a) != pad2(b),
{
    if pad2(a) == pad2(b) {
        assert(pad2(a)[0] == pad2(b)[0]);
        assert(pad2(a)[1] == pad2(b)[1]);
        assert(a / 10 == b / 10);
        assert(a % 10 == b % 10);
        vstd::arithmetic::div_mod::lemma_fundamental_div_mod(a, 10);
        vstd::arithmetic::div_mod::lemma_fundamental_div_mod(b, 10);
        assert(false);
    }
}

/// When `s` ends with `xx` and no `x` occurs before that ending — the form a
/// validated port template takes — substitution keeps the prefix and replaces
/// only the two-character tail.
pub proof fn lemma_subst_pure_prefix(s: Seq<char>, r: Seq<char>)
    requires
        s.len() >= 2,
        s[s.len() - 2] == 'x',
        s[s.len() - 1] == 'x',
        forall|i: int| 0 <= i < s.len() - 2 ==> s[i] != 'x',
    ensures
        subst_xx(s, r) == s.take(s.len() - 2) + r,
    decreases s.len(),
{
    if s.len() == 2 {
        assert(s.skip(2) =~= Seq::<char>::empty());
        assert(subst_xx(s, r) == r + subst_xx(s.skip(2), r));
        assert(subst_xx(Seq::<char>::empty(), r) =~= Seq::<char>::empty());
        assert(r + Seq::<char>::empty() =~= s.take(0) + r);
        assert(subst_xx(s, r) =~= s.take(0) + r);
    } else {
        let tail = s.skip(1);
        assert(tail[tail.len() - 2] == 'x' && tail[tail.len() - 1] == 'x');
        assert(forall|i: int| 0 <= i < tail.len() - 2 ==> tail[i] != 'x');
        lemma_subst_pure_prefix(tail, r);
        assert(subst_xx(s, r) == seq![s[0]] + (tail.take(tail.len() - 2) + r));
        assert(seq![s[0]] + tail.take(tail.len() - 2) =~= s.take(s.len() - 2));
        assert(subst_xx(s, r) =~= s.take(s.len() - 2) + r);
    }
}

} // verus!
