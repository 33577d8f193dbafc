//! Rendering of integers and joining of text pieces.
use vstd::prelude::*;
use vstd::string::StrSliceExecFns;
use vstd::string::StringExecFns;

verus! {

/// The sixteen digit characters, in value order.
pub open spec fn digit_table() -> Seq<char> {
    "0123456789abcdef"@
}

/// The digits of `n` written in `base`, most significant first, no sign and
/// no leading zeros (zero is written as one digit).
pub open spec fn radix_digits(n: nat, base: nat) -> Seq<char>
    decreases n,
    via radix_digits_decreases
{
    if base < 2 || n < base {
        seq![digit_table()[n as int]]
    } else {
        radix_digits(n / base, base).push(digit_table()[(n % base) as int])
    }
}

#[via_fn]
proof fn radix_digits_decreases(n: nat, base: nat) {
    if !(base < 2 || n < base) {
        assert(n / base < n) by (nonlinear_arith)
            requires
                base >= 2,
                n >= base,
        ;
    }
}

/// Decimal text of `n`.
pub open spec fn decimal(n: nat) -> Seq<char> {
    radix_digits(n, 10)
}

/// Lower-case hexadecimal text of `n`.
pub open spec fn hex(n: nat) -> Seq<char> {
    radix_digits(n, 16)
}

proof fn lemma_radix_digits_nonempty(n: nat, base: nat)
    ensures
        radix_digits(n, base).len() >= 1,
    decreases n,
{
    if !(base < 2 || n < base) {
        assert(n / base < n) by (nonlinear_arith)
            requires
                base >= 2,
                n >= base,
        ;
        lemma_radix_digits_nonempty(n / base, base);
    }
}

/// Distinct numbers have distinct digits in any base from 2 to 16.
pub proof fn lemma_radix_digits_injective(a: nat, b: nat, base: nat)
    requires
        2 <= base <= 16,
        radix_digits(a, base) == radix_digits(b, base),
    ensures
        a == b,
    decreases a + b,
{
    reveal_strlit("0123456789abcdef");
    if a < base && b < base {
        assert(radix_digits(a, base)[0] == digit_table()[a as int]);
    } else if a < base {
        assert(b / base < b) by (nonlinear_arith)
            requires
                base >= 2,
                b >= base,
        ;
        lemma_radix_digits_nonempty(b / base, base);
        assert(radix_digits(b, base).len() >= 2);
    } else if b < base {
        assert(a / base < a) by (nonlinear_arith)
            requires
                base >= 2,
                a >= base,
        ;
        lemma_radix_digits_nonempty(a / base, base);
        assert(radix_digits(a, base).len() >= 2);
    } else {
        let da = radix_digits(a, base);
        let db = radix_digits(b, base);
        assert(da.drop_last() =~= radix_digits(a / base, base));
        assert(db.drop_last() =~= radix_digits(b / base, base));
        assert(a / base < a && b / base < b) by (nonlinear_arith)
            requires
                base >= 2,
                a >= base,
                b >= base,
        ;
        lemma_radix_digits_injective(a / base, b / base, base);
        assert(da.last() == digit_table()[(a % base) as int]);
        assert(db.last() == digit_table()[(b % base) as int]);
        assert(a % base < base && b % base < base) by (nonlinear_arith)
            requires
                base >= 2,
        ;
        assert(a % base == b % base);
        assert(a == base * (a / base) + a % base) by (nonlinear_arith)
            requires
                base >= 2,
        ;
        assert(b == base * (b / base) + b % base) by (nonlinear_arith)
            requires
                base >= 2,
        ;
    }
}

/// A copy of `s` as an owned string.
pub fn owned(s: &str) -> (r: String)
    ensures
        r@ == s@,
{
    String::from_str(s)
}

/// `s` followed by the digits of `n` in `base`.
pub fn append_radix(s: &mut String, n: u128, base: u128)
    requires
        2 <= base <= 16,
    ensures
        final(s)@ == old(s)@ + radix_digits(n as nat, base as nat),
    decreases n,
{
    let table = "0123456789abcdef";
    proof {
        reveal_strlit("0123456789abcdef");
    }
    if n >= base {
        append_radix(s, n / base, base);
    }
    let d = (n % base) as usize;
    let digit = table.substring_char(d, d + 1);
    assert(digit@ =~= seq![digit_table()[d as int]]);
    s.append(digit);
    assert(s@ =~= old(s)@ + radix_digits(n as nat, base as nat));
}

/// `a` followed by `b`.
pub fn join2(a: &str, b: &str) -> (r: String)
    ensures
        r@ == a@ + b@,
{
    let mut r = owned(a);
    r.append(b);
    r
}

/// A copy of each string of `v`, in order.
pub fn copy_texts(v: &Vec<String>) -> (r: Vec<String>)
    ensures
        r@ == v@,
{
    let mut r: Vec<String> = Vec::new();
    let mut i: usize = 0;
    while i < v.len()
        invariant
            i <= v@.len(),
            r@ == v@.take(i as int),
        decreases v@.len() - i,
    {
        r.push(v[i].clone());
        i = i + 1;
        assert(r@ =~= v@.take(i as int));
    }
    assert(v@.take(v@.len() as int) =~= v@);
    r
}

/// Whether `k` is the position of the first `@` in `s`, or the length of
/// `s` when it has none.
pub open spec fn is_local_len(s: Seq<char>, k: int) -> bool {
    &&& 0 <= k <= s.len()
    &&& forall|j: int| 0 <= j < k ==> s[j] != '@'
    &&& k < s.len() ==> s[k] == '@'
}

/// The part of `s` before its first `@`, or all of `s` if it has none.
pub open spec fn local_part(s: Seq<char>) -> Seq<char> {
    s.take(choose|k: int| is_local_len(s, k))
}

/// The part of `s` before its first `@`.
pub fn before_at(s: &str) -> (r: String)
    ensures
        r@ == local_part(s@),
{
    let n = s.unicode_len();
    let mut i: usize = 0;
    while i < n && s.get_char(i) != '@'
        invariant
            n == s@.len(),
            i <= n,
            forall|j: int| 0 <= j < i ==> s@[j] != '@',
        decreases n - i,
    {
        i = i + 1;
    }
    assert(is_local_len(s@, i as int));
    proof {
        let k = choose|k: int| is_local_len(s@, k);
        if k < i as int {
            assert(s@[k] == '@');
        } else if k > i as int {
            assert(s@[i as int] == '@');
        }
        assert(k == i as int);
    }
    owned(s.substring_char(0, i))
}

/// Whether `c` occurs in `s`.
pub fn contains_char(s: &str, c: char) -> (r: bool)
    ensures
        r == s@.contains(c),
{
    let n = s.unicode_len();
    let mut i: usize = 0;
    while i < n
        invariant
            n == s@.len(),
            i <= n,
            forall|j: int| 0 <= j < i ==> s@[j] != c,
        decreases n - i,
    {
        if s.get_char(i) == c {
            return true;
        }
        i = i + 1;
    }
    false
}

/// Whether `a` and `b` hold the same characters.
pub fn same_text(a: &str, b: &str) -> (r: bool)
    ensures
        r == (a@ == b@),
{
    let n = a.unicode_len();
    let m = b.unicode_len();
    if n != m {
        return false;
    }
    let mut i: usize = 0;
    while i < n
        invariant
            n == a@.len(),
            m == b@.len(),
            n == m,
            i <= n,
            forall|j: int| 0 <= j < i ==> a@[j] == b@[j],
        decreases n - i,
    {
        if a.get_char(i) != b.get_char(i) {
            return false;
        }
        i = i + 1;
    }
    assert(a@ =~= b@);
    true
}

} // verus!
