//! Sequences of characters: concatenation of mapped items, decimal numerals,
//! and the few operations on `String` that the rest of the crate builds on.

use vstd::prelude::*;
use vstd::string::StringExecFns;

verus! {

/// `String::push` appends one character to the string.
pub assume_specification[ String::push ](s: &mut String, c: char)
    ensures
        final(s)@ == old(s)@.push(c),
;

/// What `str::to_lowercase` returns for a string of these characters.
pub uninterp spec fn lowercase_of(s: Seq<char>) -> Seq<char>;

/// `str::to_lowercase`: the result is a function of the characters alone, and
/// is known here only by the name `lowercase_of`.
#[verifier::external_body]
pub(crate) fn to_lowercase(s: &str) -> (r: String)
    ensures
        r@ == lowercase_of(s@),
{
    s.to_lowercase()
}

/// The concatenation, in order, of `f` applied to each of `items`.
pub open spec fn flat_map<A>(items: Seq<A>, f: spec_fn(A) -> Seq<char>) -> Seq<char>
    decreases items.len(),
{
    if items.len() == 0 {
        Seq::empty()
    } else {
        flat_map(items.drop_last(), f) + f(items.last())
    }
}

/// Mapping one more item appends its image.
pub proof fn lemma_flat_map_push<A>(items: Seq<A>, x: A, f: spec_fn(A) -> Seq<char>)
    ensures
        flat_map(items.push(x), f) == flat_map(items, f) + f(x),
{
    assert(items.push(x).drop_last() == items);
}

/// Mapping the first `i + 1` items is mapping the first `i` and appending the
/// image of the item at `i`.
pub proof fn lemma_flat_map_step<A>(items: Seq<A>, i: int, f: spec_fn(A) -> Seq<char>)
    requires
        0 <= i < items.len(),
    ensures
        flat_map(items.take(i + 1), f) == flat_map(items.take(i), f) + f(items[i]),
{
    assert(items.take(i + 1).drop_last() == items.take(i));
}

/// Mapping distributes over concatenation.
pub proof fn lemma_flat_map_concat<A>(a: Seq<A>, b: Seq<A>, f: spec_fn(A) -> Seq<char>)
    ensures
        flat_map(a + b, f) == flat_map(a, f) + flat_map(b, f),
    decreases b.len(),
{
    if b.len() == 0 {
        assert(a + b == a);
        assert(flat_map(a, f) + Seq::<char>::empty() == flat_map(a, f));
    } else {
        lemma_flat_map_concat(a, b.drop_last(), f);
        assert((a + b).drop_last() == a + b.drop_last());
        assert((a + b).last() == b.last());
        assert(flat_map(a, f) + (flat_map(b.drop_last(), f) + f(b.last())) == (flat_map(a, f)
            + flat_map(b.drop_last(), f)) + f(b.last()));
    }
}

/// Items whose image is empty contribute nothing.
pub proof fn lemma_flat_map_all_empty<A>(items: Seq<A>, f: spec_fn(A) -> Seq<char>)
    requires
        forall|i: int| 0 <= i < items.len() ==> (#[trigger] f(items[i])).len() == 0,
    ensures
        flat_map(items, f) == Seq::<char>::empty(),
    decreases items.len(),
{
    if items.len() > 0 {
        lemma_flat_map_all_empty(items.drop_last(), f);
        assert(f(items[items.len() - 1]).len() == 0);
        assert(flat_map(items, f) =~= Seq::<char>::empty());
    }
}

/// The character of the decimal digit `d`.
pub open spec fn digit_char(d: nat) -> char
    recommends
        d < 10,
{
    ('0' as nat + d) as char
}

/// The decimal numeral of `n`, without leading zeros.
pub open spec fn decimal(n: nat) -> Seq<char>
    decreases n,
{
    if n < 10 {
        seq![digit_char(n)]
    } else {
        decimal(n / 10).push(digit_char(n % 10))
    }
}

fn digit(d: u8) -> (c: char)
    requires
        d < 10,
    ensures
        c == digit_char(d as nat),
{
    (48u8 + d) as char
}

/// Appends the decimal numeral of `n` to `out`.
pub fn push_decimal(out: &mut String, n: u8)
    ensures
        final(out)@ == old(out)@ + decimal(n as nat),
{
    let ghost before = out@;
    if n >= 100 {
        out.push(digit(n / 100));
        out.push(digit((n / 10) % 10));
        out.push(digit(n % 10));
        proof {
            let m = n as nat;
            reveal_with_fuel(decimal, 3);
            assert(decimal(m) == seq![digit_char(m / 100), digit_char((m / 10) % 10), digit_char(m % 10)]);
            assert(out@ =~= before + decimal(m));
        }
    } else if n >= 10 {
        out.push(digit(n / 10));
        out.push(digit(n % 10));
        proof {
            let m = n as nat;
            reveal_with_fuel(decimal, 2);
            assert(decimal(m) == seq![digit_char(m / 10), digit_char(m % 10)]);
            assert(out@ =~= before + decimal(m));
        }
    } else {
        out.push(digit(n));
        proof {
            assert(out@ =~= before + decimal(n as nat));
        }
    }
}

/// Whether two strings hold the same characters.
pub fn str_equals(a: &str, b: &str) -> (r: bool)
    ensures
        r == (a@ == b@),
{
    let x = String::from_str(a);
    let y = String::from_str(b);
    x == y
}

} // verus!
