//! Rendering of the elapsed time since the formatter was constructed, as
//! seconds with exactly two decimal digits.
use vstd::prelude::*;

verus! {

/// The decimal digits of `n`, most significant first, as ASCII bytes.
pub open spec fn spec_digits(n: nat) -> Seq<u8>
    decreases n,
{
    if n < 10 {
        seq![(n + 48) as u8]
    } else {
        spec_digits(n / 10).push((n % 10 + 48) as u8)
    }
}

/// The elapsed time `secs` seconds plus `millis` milliseconds rendered as
/// the seconds in decimal, a dot, and exactly two decimal digits (the
/// milliseconds truncated to hundredths).
pub open spec fn spec_elapsed(secs: u64, millis: u32) -> Seq<u8> {
    spec_digits(secs as nat) + seq![
        46u8,
        ((millis / 100) % 10 + 48) as u8,
        ((millis / 10) % 10 + 48) as u8,
    ]
}

proof fn lemma_reverse_push(s: Seq<u8>, x: u8)
    ensures
        s.push(x).reverse() == seq![x] + s.reverse(),
{
    assert(s.push(x).reverse() =~= seq![x] + s.reverse());
}

/// The decimal rendering of `n`, most significant digit first.
pub fn u64_digits(n: u64) -> (r: Vec<u8>)
    ensures
        r@ == spec_digits(n as nat),
{
    if n == 0 {
        let mut r: Vec<u8> = Vec::new();
        r.push(48);
        proof {
            assert(r@ =~= spec_digits(0));
        }
        return r;
    }
    let mut rev: Vec<u8> = Vec::new();
    let mut m: u64 = n;
    while m > 0
        invariant
            m > 0 ==> spec_digits(n as nat) == spec_digits(m as nat) + rev@.reverse(),
            m == 0 ==> spec_digits(n as nat) == rev@.reverse(),
        decreases m,
    {
        let d: u8 = (m % 10) as u8 + 48;
        proof {
            let mv = m as nat;
            lemma_reverse_push(rev@, d);
            if mv < 10 {
                assert(spec_digits(mv) =~= seq![d]);
            } else {
                assert(spec_digits(mv) == spec_digits(mv / 10).push(d));
                assert(spec_digits(mv / 10).push(d) + rev@.reverse() =~= spec_digits(mv / 10)
                    + (seq![d] + rev@.reverse()));
            }
        }
        rev.push(d);
        m = m / 10;
    }
    let mut r: Vec<u8> = Vec::new();
    let mut k: usize = rev.len();
    while k > 0
        invariant
            k <= rev@.len(),
            r@ == rev@.reverse().take(rev@.len() - k),
        decreases k,
    {
        k = k - 1;
        let b: u8 = rev[k];
        proof {
            assert(rev@.reverse()[rev@.len() - k - 1] == b);
            assert(rev@.reverse().take(rev@.len() - k) =~= rev@.reverse().take(
                rev@.len() - k - 1,
            ).push(b));
        }
        r.push(b);
    }
    proof {
        assert(r@ =~= rev@.reverse());
    }
    r
}

/// The elapsed time rendered with exactly two decimal digits.
pub fn format_elapsed(secs: u64, millis: u32) -> (r: Vec<u8>)
    requires
        millis < 1000,
    ensures
        r@ == spec_elapsed(secs, millis),
{
    let mut r = u64_digits(secs);
    r.push(46);
    r.push((millis / 100 % 10) as u8 + 48);
    r.push((millis / 10 % 10) as u8 + 48);
    proof {
        assert(r@ =~= spec_elapsed(secs, millis));
    }
    r
}

/// Rendering a fixed elapsed duration is deterministic: any two renderings
/// of the same seconds and milliseconds are byte-identical.
pub proof fn lemma_elapsed_deterministic(secs: u64, millis: u32, a: Seq<u8>, b: Seq<u8>)
    requires
        a == spec_elapsed(secs, millis),
        b == spec_elapsed(secs, millis),
    ensures
        a == b,
{
}

} // verus!
