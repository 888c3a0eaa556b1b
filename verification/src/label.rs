//! Derivation of the shortened display label from a record's target path.
use vstd::prelude::*;

verus! {

/// The position of the first `::` separator at or after `start`, scanning
/// left to right, or `None` when no separator follows.
pub open spec fn spec_first_sep_from(s: Seq<u8>, start: int) -> Option<int>
    decreases s.len() - start,
{
    if start + 1 >= s.len() {
        None
    } else if s[start] == 58 && s[start + 1] == 58 {
        Some(start)
    } else {
        spec_first_sep_from(s, start + 1)
    }
}

/// A found separator lies at or after the scan start and leaves room for
/// both of its bytes.
proof fn lemma_first_sep_bounds(s: Seq<u8>, start: int)
    ensures
        spec_first_sep_from(s, start) matches Some(j) ==> start <= j && j + 1 < s.len()
            && s[j] == 58 && s[j + 1] == 58,
    decreases s.len() - start,
{
    if start + 1 >= s.len() {
    } else if s[start] == 58 && s[start + 1] == 58 {
    } else {
        lemma_first_sep_bounds(s, start + 1);
    }
}

#[via_fn]
proof fn spec_last_segment_from_decreases(s: Seq<u8>, start: int) {
    lemma_first_sep_bounds(s, start);
}

/// The last path segment of `s` when scanning from `start`: the suffix
/// after the final left-to-right, non-overlapping `::` separator.
pub open spec fn spec_last_segment_from(s: Seq<u8>, start: int) -> Seq<u8>
    decreases s.len() - start,
        via spec_last_segment_from_decreases
{
    match spec_first_sep_from(s, start) {
        None => s.skip(start),
        Some(j) => spec_last_segment_from(s, j + 2),
    }
}

/// The shortened display label of a target path: a leading space, the first
/// path segment, then — only when the path has a `::` separator — a colon
/// and the last segment, then a trailing space. Intermediate segments are
/// discarded.
pub open spec fn spec_label(target: Seq<u8>) -> Seq<u8> {
    match spec_first_sep_from(target, 0) {
        None => seq![32u8] + target + seq![32u8],
        Some(i) => seq![32u8] + target.take(i) + seq![58u8] + spec_last_segment_from(
            target,
            i + 2,
        ) + seq![32u8],
    }
}

/// The least index at or after `from` where a `::` separator starts.
fn find_sep(s: &[u8], from: usize) -> (r: Option<usize>)
    requires
        from <= s@.len(),
    ensures
        r matches Some(j) ==> spec_first_sep_from(s@, from as int) == Some(j as int),
        r is None ==> spec_first_sep_from(s@, from as int) is None,
{
    let n: usize = s.len();
    let mut i: usize = from;
    loop
        invariant
            from <= i <= n,
            n == s@.len(),
            spec_first_sep_from(s@, from as int) == spec_first_sep_from(s@, i as int),
        decreases n - i,
    {
        if i >= n || n - i <= 1 {
            return None;
        }
        if s[i] == 58 && s[i + 1] == 58 {
            return Some(i);
        }
        i = i + 1;
    }
}

/// The shortened display label of a target path, as the formatter renders
/// it before padding.
pub fn derive_label(target: &[u8]) -> (label: Vec<u8>)
    ensures
        label@ == spec_label(target@),
{
    let n: usize = target.len();
    let mut label: Vec<u8> = Vec::new();
    label.push(32);
    proof {
        assert(label@ =~= seq![32u8] + target@.take(0));
    }
    match find_sep(target, 0) {
        None => {
            let mut k: usize = 0;
            while k < n
                invariant
                    k <= n,
                    n == target@.len(),
                    label@ == seq![32u8] + target@.take(k as int),
                decreases n - k,
            {
                proof {
                    assert(target@.take(k as int).push(target@[k as int]) =~= target@.take(
                        k as int + 1,
                    ));
                }
                label.push(target[k]);
                k = k + 1;
            }
            label.push(32);
            proof {
                assert(target@.take(n as int) =~= target@);
                assert(label@ =~= spec_label(target@));
            }
        },
        Some(i) => {
            proof {
                lemma_first_sep_bounds(target@, 0);
            }
            let mut k: usize = 0;
            while k < i
                invariant
                    k <= i,
                    i + 1 < n,
                    n == target@.len(),
                    label@ == seq![32u8] + target@.take(k as int),
                decreases i - k,
            {
                proof {
                    assert(target@.take(k as int).push(target@[k as int]) =~= target@.take(
                        k as int + 1,
                    ));
                }
                label.push(target[k]);
                k = k + 1;
            }
            label.push(58);
            let mut pos: usize = i + 2;
            loop
                invariant
                    i + 2 <= pos <= n,
                    n == target@.len(),
                    spec_last_segment_from(target@, i as int + 2) == spec_last_segment_from(
                        target@,
                        pos as int,
                    ),
                ensures
                    i + 2 <= pos <= n,
                    spec_last_segment_from(target@, i as int + 2) == target@.skip(pos as int),
                decreases n - pos,
            {
                match find_sep(target, pos) {
                    Some(j) => {
                        proof {
                            lemma_first_sep_bounds(target@, pos as int);
                        }
                        pos = j + 2;
                    },
                    None => {
                        break;
                    },
                }
            }
            let ghost prefix: Seq<u8> = seq![32u8] + target@.take(i as int) + seq![58u8];
            proof {
                assert(label@ =~= prefix + target@.subrange(pos as int, pos as int));
            }
            let mut k2: usize = pos;
            while k2 < n
                invariant
                    pos <= k2 <= n,
                    n == target@.len(),
                    label@ == prefix + target@.subrange(pos as int, k2 as int),
                decreases n - k2,
            {
                proof {
                    assert(target@.subrange(pos as int, k2 as int).push(target@[k2 as int])
                        =~= target@.subrange(pos as int, k2 as int + 1));
                }
                label.push(target[k2]);
                k2 = k2 + 1;
            }
            label.push(32);
            proof {
                assert(target@.subrange(pos as int, n as int) =~= target@.skip(pos as int));
                assert(label@ =~= spec_label(target@));
            }
        },
    }
    label
}

} // verus!
