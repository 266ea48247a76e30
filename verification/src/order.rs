//! Line numbers in ascending order, and numbers written in decimal.

use vstd::prelude::*;
use vstd::relations::{sorted_by, total_ordering};
use vstd::seq_lib::{lemma_sorted_unique, to_multiset_build, to_multiset_insert};

verus! {

/// The order of line numbers.
pub open spec fn at_most() -> spec_fn(usize, usize) -> bool {
    |a: usize, b: usize| a <= b
}

/// The numbers of `s` in ascending order, each as often as in `s`.
pub open spec fn ascending(s: Seq<usize>) -> Seq<usize> {
    s.sort_by(at_most())
}

/// Sorts line numbers in ascending order.
pub fn sorted(lines: &Vec<usize>) -> (r: Vec<usize>)
    ensures
        r@ == ascending(lines@),
        r@.to_multiset() == lines@.to_multiset(),
        forall|i: int, j: int| 0 <= i < j < r@.len() ==> r@[i] <= r@[j],
{
    let mut out: Vec<usize> = Vec::new();
    let mut i: usize = 0;
    assert(lines@.take(0) == Seq::<usize>::empty());
    while i < lines.len()
        invariant
            i <= lines.len(),
            sorted_by(out@, at_most()),
            out@.to_multiset() == lines@.take(i as int).to_multiset(),
        decreases lines.len() - i,
    {
        let x = lines[i];
        let mut p: usize = 0;
        while p < out.len() && out[p] <= x
            invariant
                p <= out.len(),
                forall|k: int| 0 <= k < p ==> out@[k] <= x,
            decreases out.len() - p,
        {
            p += 1;
        }
        proof {
            to_multiset_insert(out@, p as int, x);
            to_multiset_build(lines@.take(i as int), x);
            assert(lines@.take(i + 1) == lines@.take(i as int).push(x));
            let next = out@.insert(p as int, x);
            assert forall|a: int, b: int| 0 <= a < b < next.len() implies #[trigger] at_most()(
                next[a],
                next[b],
            ) by {
                if b == p {
                } else if a == p {
                    if p < out@.len() {
                        assert(at_most()(out@[p as int], out@[b - 1]) || b - 1 == p);
                    }
                } else {
                    let a0 = if a < p { a } else { a - 1 };
                    let b0 = if b < p { b } else { b - 1 };
                    assert(at_most()(out@[a0], out@[b0]));
                }
            }
        }
        out.insert(p, x);
        i += 1;
    }
    proof {
        assert(lines@.take(i as int) == lines@);
        assert(total_ordering(at_most()));
        lines@.lemma_sort_by_ensures(at_most());
        lemma_sorted_unique(out@, ascending(lines@), at_most());
        assert forall|i: int, j: int| 0 <= i < j < out@.len() implies out@[i] <= out@[j] by {
            assert(at_most()(out@[i], out@[j]));
        }
    }
    out
}

/// The character that writes the digit `d`.
pub open spec fn digit_char(d: nat) -> char {
    (('0' as u8 + d) as u8) as char
}

/// The decimal digits that write `n`, without leading zeros.
pub open spec fn digits_of(n: nat) -> Seq<char>
    decreases n,
{
    if n < 10 {
        seq![digit_char(n)]
    } else {
        digits_of(n / 10).push(digit_char(n % 10))
    }
}

/// `text` with spaces in front of it where it is shorter than `width`.
pub open spec fn pad_left(text: Seq<char>, width: nat) -> Seq<char> {
    if text.len() >= width {
        text
    } else {
        Seq::new((width - text.len()) as nat, |i: int| ' ') + text
    }
}

/// Appends the decimal digits of `n` to `out`.
pub fn push_digits(n: u128, out: &mut Vec<char>)
    ensures
        final(out)@ == old(out)@ + digits_of(n as nat),
    decreases n,
{
    if n >= 10 {
        push_digits(n / 10, out);
    }
    let d = (n % 10) as u8;
    out.push((48u8 + d) as char);
    proof {
        if n >= 10 {
            assert(old(out)@ + digits_of(n as nat) == (old(out)@ + digits_of((n / 10) as nat)).push(
                digit_char((n % 10) as nat),
            ));
        } else {
            assert(old(out)@ + digits_of(n as nat) == old(out)@.push(digit_char(n as nat)));
        }
    }
}

/// Writes `n` in decimal, with spaces in front up to the given width.
pub fn padded_number(n: usize, width: usize) -> (r: Vec<char>)
    ensures
        r@ == pad_left(digits_of(n as nat), width as nat),
{
    let mut digits: Vec<char> = Vec::new();
    push_digits(n as u128, &mut digits);
    assert(digits@ == digits_of(n as nat));
    let mut out: Vec<char> = Vec::new();
    if digits.len() < width {
        let fill = width - digits.len();
        let mut i: usize = 0;
        while i < fill
            invariant
                i <= fill,
                out@ == Seq::new(i as nat, |k: int| ' '),
            decreases fill - i,
        {
            out.push(' ');
            i += 1;
            assert(out@ == Seq::new(i as nat, |k: int| ' '));
        }
    }
    let ghost front = out@;
    let mut k: usize = 0;
    while k < digits.len()
        invariant
            k <= digits.len(),
            out@ == front + digits@.take(k as int),
        decreases digits.len() - k,
    {
        out.push(digits[k]);
        k += 1;
        assert(digits@.take(k as int) == digits@.take(k - 1).push(digits@[k - 1]));
    }
    assert(digits@.take(k as int) == digits@);
    out
}

} // verus!
