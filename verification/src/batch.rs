//! Deterministic ordering of nonce-keyed messages.
//!
//! Every orchestrator that sees the same candidates must submit the same
//! messages in the same order. The batch is therefore defined by the
//! candidates alone: ascending by nonce, lowest nonces first when the cap cuts
//! it short, whatever order the candidates arrived in.

use vstd::prelude::*;

verus! {

/// The most oracle messages that go into one transaction.
pub const MAX_ORACLE_MESSAGES: usize = 1000;

/// No two candidates carry the same nonce.
pub open spec fn distinct_nonces<M>(candidates: Seq<(u64, M)>) -> bool {
    forall|i: int, j: int|
        0 <= i < j < candidates.len() ==> (#[trigger] candidates[i]).0 != (#[trigger] candidates[j]).0
}

/// Nonces grow strictly from each entry to the next.
pub open spec fn ascending_nonces<M>(batch: Seq<(u64, M)>) -> bool {
    forall|i: int, j: int|
        0 <= i < j < batch.len() ==> (#[trigger] batch[i]).0 < (#[trigger] batch[j]).0
}

/// The candidate at `j` repeats the nonce of a candidate before it.
pub open spec fn repeats_earlier_nonce<M>(candidates: Seq<(u64, M)>, j: int) -> bool {
    exists|i: int| 0 <= i < j && (#[trigger] candidates[i]).0 == candidates[j].0
}

/// `nonce` belongs to the first candidate, in arrival order, that repeats the
/// nonce of an earlier one.
pub open spec fn is_first_repeated_nonce<M>(candidates: Seq<(u64, M)>, nonce: u64) -> bool {
    exists|j: int|
        0 <= j < candidates.len() && candidates[j].0 == nonce && #[trigger] repeats_earlier_nonce(
            candidates,
            j,
        ) && forall|k: int| 0 <= k < j ==> !#[trigger] repeats_earlier_nonce(candidates, k)
}

/// Only one nonce is that of the first candidate that repeats an earlier one.
pub proof fn lemma_first_repeated_nonce_unique<M>(candidates: Seq<(u64, M)>, a: u64, b: u64)
    requires
        is_first_repeated_nonce(candidates, a),
        is_first_repeated_nonce(candidates, b),
    ensures
        a == b,
{
    let i = choose|j: int|
        0 <= j < candidates.len() && candidates[j].0 == a && #[trigger] repeats_earlier_nonce(
            candidates,
            j,
        ) && forall|k: int| 0 <= k < j ==> !#[trigger] repeats_earlier_nonce(candidates, k);
    let j = choose|j: int|
        0 <= j < candidates.len() && candidates[j].0 == b && #[trigger] repeats_earlier_nonce(
            candidates,
            j,
        ) && forall|k: int| 0 <= k < j ==> !#[trigger] repeats_earlier_nonce(candidates, k);
    if i < j {
        assert(!repeats_earlier_nonce(candidates, i));
    } else if j < i {
        assert(!repeats_earlier_nonce(candidates, j));
    }
}

/// `batch` is what `candidates` yield under the cap `cap`: as many entries as
/// the cap allows, each one a candidate, in strictly ascending nonce order,
/// and every candidate left out has a higher nonce than every entry kept.
pub open spec fn is_ordered_batch<M>(
    candidates: Seq<(u64, M)>,
    batch: Seq<(u64, M)>,
    cap: nat,
) -> bool {
    &&& batch.len() == if candidates.len() <= cap {
        candidates.len()
    } else {
        cap
    }
    &&& ascending_nonces(batch)
    &&& forall|i: int| 0 <= i < batch.len() ==> candidates.contains(#[trigger] batch[i])
    &&& forall|x: (u64, M), i: int|
        #![trigger candidates.contains(x), batch[i]]
        candidates.contains(x) && !batch.contains(x) && 0 <= i < batch.len() ==> batch[i].0 < x.0
}

/// The batch that `candidates` yield under the cap `cap`. Where the nonces
/// never differ there is at most one, by `lemma_ordered_batch_unique`, and
/// `assemble` computes it.
pub open spec fn ordered_batch<M>(candidates: Seq<(u64, M)>, cap: nat) -> Seq<(u64, M)> {
    choose|batch: Seq<(u64, M)>| is_ordered_batch(candidates, batch, cap)
}

/// The messages of a batch, without their nonces.
pub open spec fn messages_of<M>(batch: Seq<(u64, M)>) -> Seq<M> {
    batch.map_values(|entry: (u64, M)| entry.1)
}

/// Two batches that the same candidates yield agree entry by entry.
proof fn lemma_batches_agree_upto<M>(
    candidates: Seq<(u64, M)>,
    a: Seq<(u64, M)>,
    b: Seq<(u64, M)>,
    cap: nat,
    n: int,
)
    requires
        is_ordered_batch(candidates, a, cap),
        is_ordered_batch(candidates, b, cap),
        0 <= n <= a.len(),
    ensures
        forall|i: int| 0 <= i < n ==> a[i] == b[i],
    decreases n,
{
    if n > 0 {
        lemma_batches_agree_upto(candidates, a, b, cap, n - 1);
        let i = n - 1;
        assert(candidates.contains(a[i]));
        assert(candidates.contains(b[i]));
        if a[i] != b[i] {
            // Where does a[i] sit in b, and b[i] in a? Every answer contradicts the order.
            if b.contains(a[i]) {
                let k = choose|k: int| 0 <= k < b.len() && b[k] == a[i];
                if k < i {
                    assert(a[k] == b[k]);
                    assert(a[k].0 < a[i].0);
                } else {
                    assert(k > i);
                    assert(b[i].0 < b[k].0);
                    if a.contains(b[i]) {
                        let m = choose|m: int| 0 <= m < a.len() && a[m] == b[i];
                        if m < i {
                            assert(a[m] == b[m]);
                            assert(b[m].0 < b[i].0);
                        } else {
                            assert(m > i);
                            assert(a[i].0 < a[m].0);
                        }
                    } else {
                        assert(a[i].0 < b[i].0);
                    }
                }
            } else {
                assert(b[i].0 < a[i].0);
                if a.contains(b[i]) {
                    let m = choose|m: int| 0 <= m < a.len() && a[m] == b[i];
                    if m < i {
                        assert(a[m] == b[m]);
                        assert(b[m].0 < b[i].0);
                    } else {
                        assert(m > i);
                        assert(a[i].0 < a[m].0);
                    }
                } else {
                    assert(a[i].0 < b[i].0);
                }
            }
        }
    }
}

/// Candidates yield at most one batch: the contract of `assemble` leaves no
/// choice to the implementation.
pub proof fn lemma_ordered_batch_unique<M>(
    candidates: Seq<(u64, M)>,
    a: Seq<(u64, M)>,
    b: Seq<(u64, M)>,
    cap: nat,
)
    requires
        is_ordered_batch(candidates, a, cap),
        is_ordered_batch(candidates, b, cap),
    ensures
        a == b,
{
    lemma_batches_agree_upto(candidates, a, b, cap, a.len() as int);
    assert(a =~= b);
}

/// The batch depends on which candidates there are, not on the order in which
/// they arrive: two runs over the same candidates, however arranged, end with
/// identical batches.
pub proof fn lemma_batch_ignores_arrival_order<M>(
    first: Seq<(u64, M)>,
    second: Seq<(u64, M)>,
    a: Seq<(u64, M)>,
    b: Seq<(u64, M)>,
    cap: nat,
)
    requires
        first.to_multiset() == second.to_multiset(),
        is_ordered_batch(first, a, cap),
        is_ordered_batch(second, b, cap),
    ensures
        a == b,
{
    first.to_multiset_ensures();
    second.to_multiset_ensures();
    assert forall|x: (u64, M)| first.contains(x) == second.contains(x) by {
        assert(first.contains(x) <==> first.to_multiset().count(x) > 0);
        assert(second.contains(x) <==> second.to_multiset().count(x) > 0);
    }
    assert(first.len() == second.len());
    assert(is_ordered_batch(first, b, cap));
    lemma_ordered_batch_unique(first, a, b, cap);
}

/// Where the cap cuts the batch short it is the highest nonces that go: a
/// candidate whose nonce does not exceed that of some entry is itself an entry.
pub proof fn lemma_cut_keeps_lowest_nonces<M>(
    candidates: Seq<(u64, M)>,
    batch: Seq<(u64, M)>,
    cap: nat,
)
    requires
        is_ordered_batch(candidates, batch, cap),
    ensures
        candidates.len() > cap ==> batch.len() == cap,
        forall|x: (u64, M), i: int|
            #![trigger candidates.contains(x), batch[i]]
            candidates.contains(x) && 0 <= i < batch.len() && x.0 <= batch[i].0 ==> batch.contains(
                x,
            ),
{
}

/// A batch is in strictly ascending nonce order, so no nonce occurs twice in it.
pub proof fn lemma_batch_has_no_duplicates<M>(
    candidates: Seq<(u64, M)>,
    batch: Seq<(u64, M)>,
    cap: nat,
)
    requires
        is_ordered_batch(candidates, batch, cap),
    ensures
        distinct_nonces(batch),
        forall|i: int| 0 <= i < batch.len() - 1 ==> (#[trigger] batch[i]).0 < batch[i + 1].0,
{
}

/// Orders `candidates` by nonce and keeps the `MAX_ORACLE_MESSAGES` lowest.
///
/// A nonce that occurs twice is an error of whoever produced the candidates:
/// the nonce of the first candidate that repeats an earlier one is returned.
pub fn assemble<M>(candidates: Vec<(u64, M)>) -> (result: Result<Vec<(u64, M)>, u64>)
    ensures
        match result {
            Ok(batch) => {
                &&& distinct_nonces(candidates@)
                &&& is_ordered_batch(candidates@, batch@, MAX_ORACLE_MESSAGES as nat)
                &&& batch@ == ordered_batch(candidates@, MAX_ORACLE_MESSAGES as nat)
            },
            Err(nonce) => is_first_repeated_nonce(candidates@, nonce),
        },
        result is Err <==> !distinct_nonces(candidates@),
{
    let ghost all = candidates@;
    let mut sorted: Vec<(u64, M)> = Vec::new();
    for candidate in it: candidates.into_iter()
        invariant
            it.seq() == all,
            sorted@.len() == it.index(),
            ascending_nonces(sorted@),
            distinct_nonces(all.take(it.index() as int)),
            forall|x: (u64, M)| sorted@.contains(x) <==> all.take(it.index() as int).contains(x),
    {
        let ghost k = it.index() as int;
        let ghost seen = all.take(k);
        assert(candidate == all[k]);
        let mut at: usize = 0;
        while at < sorted.len() && sorted[at].0 < candidate.0
            invariant
                at <= sorted.len(),
                ascending_nonces(sorted@),
                forall|i: int| 0 <= i < at ==> (#[trigger] sorted@[i]).0 < candidate.0,
            decreases sorted.len() - at,
        {
            at += 1;
        }
        if at < sorted.len() && sorted[at].0 == candidate.0 {
            proof {
                let twin = sorted@[at as int];
                assert(sorted@.contains(twin));
                assert(seen.contains(twin));
                let i = choose|i: int| 0 <= i < seen.len() && seen[i] == twin;
                assert(all[i].0 == all[k].0);
                assert(repeats_earlier_nonce(all, k));
                assert forall|j: int| 0 <= j < k implies !#[trigger] repeats_earlier_nonce(
                    all,
                    j,
                ) by {
                    if repeats_earlier_nonce(all, j) {
                        let e = choose|e: int| 0 <= e < j && (#[trigger] all[e]).0 == all[j].0;
                        assert(seen[e].0 == seen[j].0);
                    }
                }
                assert(!distinct_nonces(all));
            }
            return Err(candidate.0);
        }
        let ghost before = sorted@;
        sorted.insert(at, candidate);
        proof {
            let grown = all.take(k + 1);
            assert(sorted@ == before.insert(at as int, candidate));
            assert forall|i: int, j: int| 0 <= i < j < sorted@.len() implies (#[trigger] sorted@[i]).0
                < (#[trigger] sorted@[j]).0 by {
                let bi = if i < at { i } else { i - 1 };
                let bj = if j < at { j } else { j - 1 };
                if i != at && j != at {
                    assert(before[bi].0 < before[bj].0);
                } else if i == at {
                    assert(sorted@[j] == before[bj]);
                    if bj > at {
                        assert(before[at as int].0 < before[bj].0);
                    }
                } else {
                    assert(sorted@[i] == before[bi]);
                }
            }
            assert forall|x: (u64, M)| sorted@.contains(x) <==> grown.contains(x) by {
                if sorted@.contains(x) {
                    let i = choose|i: int| 0 <= i < sorted@.len() && sorted@[i] == x;
                    if i == at {
                        assert(grown[k] == x);
                    } else {
                        let bi = if i < at { i } else { i - 1 };
                        assert(before[bi] == x);
                        assert(before.contains(x));
                        assert(seen.contains(x));
                        let s = choose|s: int| 0 <= s < seen.len() && seen[s] == x;
                        assert(grown[s] == x);
                    }
                }
                if grown.contains(x) {
                    let g = choose|g: int| 0 <= g < grown.len() && grown[g] == x;
                    if g == k {
                        assert(sorted@[at as int] == x);
                    } else {
                        assert(seen[g] == x);
                        assert(seen.contains(x));
                        assert(before.contains(x));
                        let bi = choose|bi: int| 0 <= bi < before.len() && before[bi] == x;
                        let i = if bi < at { bi } else { bi + 1 };
                        assert(sorted@[i] == x);
                    }
                }
            }
            assert forall|i: int, j: int| 0 <= i < j < grown.len() implies (#[trigger] grown[i]).0 != (
            #[trigger] grown[j]).0 by {
                if j < k {
                    assert(seen[i].0 != seen[j].0);
                } else {
                    assert(seen[i] == grown[i]);
                    assert(seen.contains(grown[i]));
                    assert(before.contains(grown[i]));
                    let bi = choose|bi: int| 0 <= bi < before.len() && before[bi] == grown[i];
                    if bi < at {
                        assert(before[bi].0 < candidate.0);
                    } else {
                        assert(before[at as int].0 <= before[bi].0);
                    }
                }
            }
        }
    }
    proof {
        assert(all.take(all.len() as int) =~= all);
    }
    let ghost full = sorted@;
    sorted.truncate(MAX_ORACLE_MESSAGES);
    proof {
        let cap = MAX_ORACLE_MESSAGES as nat;
        assert forall|i: int| 0 <= i < sorted@.len() implies all.contains(#[trigger] sorted@[i]) by {
            assert(full[i] == sorted@[i]);
            assert(full.contains(sorted@[i]));
        }
        assert forall|x: (u64, M), i: int|
            #![trigger all.contains(x), sorted@[i]]
            all.contains(x) && !sorted@.contains(x) && 0 <= i < sorted@.len() implies sorted@[i].0
                < x.0 by {
            assert(full.contains(x));
            let f = choose|f: int| 0 <= f < full.len() && full[f] == x;
            if f < sorted@.len() {
                assert(sorted@[f] == x);
            }
            assert(full[i].0 < full[f].0);
        }
        assert(ascending_nonces(sorted@)) by {
            assert forall|i: int, j: int| 0 <= i < j < sorted@.len() implies (#[trigger] sorted@[i]).0
                < (#[trigger] sorted@[j]).0 by {
                assert(full[i].0 < full[j].0);
            }
        }
        assert(is_ordered_batch(all, sorted@, cap));
        lemma_ordered_batch_unique(all, sorted@, ordered_batch(all, cap), cap);
    }
    Ok(sorted)
}

/// Drops the nonces of a batch and keeps its messages, in order.
pub fn into_messages<M>(batch: Vec<(u64, M)>) -> (messages: Vec<M>)
    ensures
        messages@ == messages_of(batch@),
{
    let ghost all = batch@;
    let mut messages: Vec<M> = Vec::new();
    for entry in it: batch.into_iter()
        invariant
            it.seq() == all,
            messages@ == messages_of(all.take(it.index() as int)),
    {
        messages.push(entry.1);
        assert(messages@ =~= messages_of(all.take(it.index() + 1)));
    }
    assert(all.take(all.len() as int) =~= all);
    messages
}

} // verus!
