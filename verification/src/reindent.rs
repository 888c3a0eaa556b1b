//! Re-indentation of multi-line messages: every embedded line break is
//! followed by a repeated (re-styled) level tag and a space, so every
//! continuation line stays attributable to its level.
use vstd::prelude::*;

verus! {

/// What one message byte contributes to the rendered message: a line break
/// becomes a line break, the continuation prefix and a space; every other
/// byte stands unchanged.
pub open spec fn spec_reindent_byte(b: u8, cont: Seq<u8>) -> Seq<u8> {
    if b == 10 {
        seq![10u8] + cont + seq![32u8]
    } else {
        seq![b]
    }
}

/// The message with every embedded line break replaced by a line break, the
/// continuation prefix `cont`, and a single space.
pub open spec fn spec_reindent(msg: Seq<u8>, cont: Seq<u8>) -> Seq<u8>
    decreases msg.len(),
{
    if msg.len() == 0 {
        Seq::empty()
    } else {
        spec_reindent_byte(msg[0], cont) + spec_reindent(msg.drop_first(), cont)
    }
}

proof fn lemma_reindent_snoc(a: Seq<u8>, x: u8, cont: Seq<u8>)
    ensures
        spec_reindent(a.push(x), cont) == spec_reindent(a, cont) + spec_reindent_byte(x, cont),
    decreases a.len(),
{
    if a.len() == 0 {
        reveal_with_fuel(spec_reindent, 2);
        assert(a.push(x).drop_first() =~= Seq::<u8>::empty());
        assert(spec_reindent(a.push(x), cont) =~= spec_reindent_byte(x, cont));
        assert(spec_reindent(a, cont) + spec_reindent_byte(x, cont) =~= spec_reindent_byte(
            x,
            cont,
        ));
    } else {
        assert(a.push(x).drop_first() =~= a.drop_first().push(x));
        lemma_reindent_snoc(a.drop_first(), x, cont);
        assert(spec_reindent_byte(a[0], cont) + (spec_reindent(a.drop_first(), cont)
            + spec_reindent_byte(x, cont)) =~= spec_reindent(a, cont) + spec_reindent_byte(
            x,
            cont,
        ));
    }
}

/// The message with every line break re-indented under `cont`.
pub fn reindent_message(msg: &[u8], cont: &[u8]) -> (out: Vec<u8>)
    ensures
        out@ == spec_reindent(msg@, cont@),
{
    let n: usize = msg.len();
    let m: usize = cont.len();
    let mut out: Vec<u8> = Vec::new();
    proof {
        assert(spec_reindent(msg@.take(0), cont@) =~= Seq::<u8>::empty());
    }
    let mut k: usize = 0;
    while k < n
        invariant
            k <= n,
            n == msg@.len(),
            m == cont@.len(),
            out@ == spec_reindent(msg@.take(k as int), cont@),
        decreases n - k,
    {
        let b: u8 = msg[k];
        if b == 10 {
            out.push(10);
            let ghost mid: Seq<u8> = out@;
            let mut j: usize = 0;
            while j < m
                invariant
                    j <= m,
                    m == cont@.len(),
                    out@ == mid + cont@.take(j as int),
                decreases m - j,
            {
                proof {
                    assert(cont@.take(j as int).push(cont@[j as int]) =~= cont@.take(
                        j as int + 1,
                    ));
                }
                out.push(cont[j]);
                j = j + 1;
            }
            out.push(32);
            proof {
                assert(cont@.take(m as int) =~= cont@);
                assert(out@ =~= spec_reindent(msg@.take(k as int), cont@)
                    + spec_reindent_byte(b, cont@));
            }
        } else {
            out.push(b);
            proof {
                assert(out@ =~= spec_reindent(msg@.take(k as int), cont@)
                    + spec_reindent_byte(b, cont@));
            }
        }
        proof {
            lemma_reindent_snoc(msg@.take(k as int), b, cont@);
            assert(msg@.take(k as int).push(b) =~= msg@.take(k as int + 1));
        }
        k = k + 1;
    }
    proof {
        assert(msg@.take(n as int) =~= msg@);
    }
    out
}

/// A message with an embedded line break renders as two visual lines: the
/// text before the break, then the break, the continuation prefix and one
/// space, then the rendering of the rest. No byte of the rest is lost and
/// the two lines are never merged.
pub proof fn lemma_reindent_line_break(a: Seq<u8>, b: Seq<u8>, cont: Seq<u8>)
    requires
        forall|i: int| 0 <= i < a.len() ==> a[i] != 10,
    ensures
        spec_reindent(a + seq![10u8] + b, cont) == a + seq![10u8] + cont + seq![32u8]
            + spec_reindent(b, cont),
    decreases a.len(),
{
    if a.len() == 0 {
        reveal_with_fuel(spec_reindent, 2);
        let whole = a + seq![10u8] + b;
        assert(whole[0] == 10);
        assert(whole.drop_first() =~= b);
        assert(spec_reindent_byte(10u8, cont) + spec_reindent(b, cont) =~= a + seq![10u8]
            + cont + seq![32u8] + spec_reindent(b, cont));
    } else {
        let whole = a + seq![10u8] + b;
        assert(whole[0] == a[0]);
        assert(whole.drop_first() =~= a.drop_first() + seq![10u8] + b);
        lemma_reindent_line_break(a.drop_first(), b, cont);
        assert(spec_reindent_byte(a[0], cont) + (a.drop_first() + seq![10u8] + cont
            + seq![32u8] + spec_reindent(b, cont)) =~= a + seq![10u8] + cont + seq![32u8]
            + spec_reindent(b, cont));
    }
}

/// A message without line breaks is rendered unchanged.
pub proof fn lemma_reindent_no_line_break(msg: Seq<u8>, cont: Seq<u8>)
    requires
        forall|i: int| 0 <= i < msg.len() ==> msg[i] != 10,
    ensures
        spec_reindent(msg, cont) == msg,
    decreases msg.len(),
{
    if msg.len() == 0 {
        assert(spec_reindent(msg, cont) =~= msg);
    } else {
        lemma_reindent_no_line_break(msg.drop_first(), cont);
        assert(seq![msg[0]] + msg.drop_first() =~= msg);
    }
}

} // verus!
