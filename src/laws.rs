//! What holds of every batch's message sequence.
use vstd::prelude::*;
use crate::protocol::{batch_trace, item_trace, trace_upto, ItemOutcome, MessageView};

verus! {

/// The messages that end an item's work.
pub open spec fn is_terminal(m: MessageView) -> bool {
    m is Done || m is Error
}

pub open spec fn is_all_done(m: MessageView) -> bool {
    m is AllDone
}

/// The number of messages in `s` that satisfy `f`.
pub open spec fn count_matching(s: Seq<MessageView>, f: spec_fn(MessageView) -> bool) -> nat
    decreases s.len(),
{
    if s.len() == 0 {
        0
    } else {
        count_matching(s.drop_last(), f) + if f(s.last()) {
            1nat
        } else {
            0nat
        }
    }
}

pub proof fn lemma_count_concat(a: Seq<MessageView>, b: Seq<MessageView>, f: spec_fn(MessageView) -> bool)
    ensures
        count_matching(a + b, f) == count_matching(a, f) + count_matching(b, f),
    decreases b.len(),
{
    if b.len() == 0 {
        assert(a + b =~= a);
    } else {
        assert((a + b).drop_last() =~= a + b.drop_last());
        lemma_count_concat(a, b.drop_last(), f);
    }
}

proof fn lemma_item_counts(index: nat, total: nat, path: Seq<char>, outcome: ItemOutcome)
    ensures
        count_matching(item_trace(index, total, path, outcome), |m: MessageView| is_terminal(m)) == 1,
        count_matching(item_trace(index, total, path, outcome), |m: MessageView| is_all_done(m)) == 0,
{
    reveal_with_fuel(count_matching, 4);
    let s = item_trace(index, total, path, outcome);
    assert(s.drop_last() =~= s.subrange(0, s.len() - 1));
    assert(s.drop_last().drop_last() =~= s.subrange(0, s.len() - 2));
    if s.len() == 3 {
        assert(s.drop_last().drop_last().drop_last() =~= Seq::<MessageView>::empty());
    } else {
        assert(s.drop_last().drop_last() =~= Seq::<MessageView>::empty());
    }
}

proof fn lemma_trace_upto_counts(paths: Seq<Seq<char>>, outcomes: Seq<ItemOutcome>, k: nat)
    requires
        k <= paths.len(),
        k <= outcomes.len(),
    ensures
        count_matching(trace_upto(paths, outcomes, k), |m: MessageView| is_terminal(m)) == k,
        count_matching(trace_upto(paths, outcomes, k), |m: MessageView| is_all_done(m)) == 0,
    decreases k,
{
    if k > 0 {
        let j = (k - 1) as nat;
        lemma_trace_upto_counts(paths, outcomes, j);
        lemma_item_counts(j, paths.len(), paths[j as int], outcomes[j as int]);
        let a = trace_upto(paths, outcomes, j);
        let b = item_trace(j, paths.len(), paths[j as int], outcomes[j as int]);
        lemma_count_concat(a, b, |m: MessageView| is_terminal(m));
        lemma_count_concat(a, b, |m: MessageView| is_all_done(m));
    }
}

/// Every batch gets exactly one `Done` or `Error` per input file, and exactly
/// one `AllDone`, which is its last message and so comes after all of them.
pub proof fn law_one_terminal_per_item(paths: Seq<Seq<char>>, outcomes: Seq<ItemOutcome>)
    requires
        outcomes.len() == paths.len(),
    ensures
        count_matching(batch_trace(paths, outcomes), |m: MessageView| is_terminal(m)) == paths.len(),
        count_matching(batch_trace(paths, outcomes), |m: MessageView| is_all_done(m)) == 1,
        batch_trace(paths, outcomes).last() is AllDone,
{
    let a = trace_upto(paths, outcomes, paths.len());
    let b = seq![MessageView::AllDone];
    lemma_trace_upto_counts(paths, outcomes, paths.len());
    reveal_with_fuel(count_matching, 2);
    assert(b.drop_last() =~= Seq::<MessageView>::empty());
    lemma_count_concat(a, b, |m: MessageView| is_terminal(m));
    lemma_count_concat(a, b, |m: MessageView| is_all_done(m));
}

/// The messages of the first `k` items open the messages of the first `m`.
pub proof fn lemma_trace_upto_grows(paths: Seq<Seq<char>>, outcomes: Seq<ItemOutcome>, k: nat, m: nat)
    requires
        k <= m,
    ensures
        trace_upto(paths, outcomes, k).len() <= trace_upto(paths, outcomes, m).len(),
        trace_upto(paths, outcomes, m).subrange(0, trace_upto(paths, outcomes, k).len() as int)
            == trace_upto(paths, outcomes, k),
    decreases m,
{
    if k < m {
        lemma_trace_upto_grows(paths, outcomes, k, (m - 1) as nat);
        let p = trace_upto(paths, outcomes, (m - 1) as nat);
        let q = trace_upto(paths, outcomes, m);
        let r = trace_upto(paths, outcomes, k);
        assert(q.subrange(0, r.len() as int) =~= p.subrange(0, r.len() as int));
    } else {
        assert(trace_upto(paths, outcomes, m).subrange(0, trace_upto(paths, outcomes, m).len() as int)
            =~= trace_upto(paths, outcomes, m));
    }
}

/// The messages of item `j` form one block, at the place of that item in
/// input order: `UpdateProgress(j + 1, n)` first, then `Processing` where the
/// size was read, and last the item's `Done` or `Error`.
pub proof fn law_item_message_order(paths: Seq<Seq<char>>, outcomes: Seq<ItemOutcome>, j: nat)
    requires
        outcomes.len() == paths.len(),
        j < paths.len(),
    ensures
        ({
            let n = paths.len();
            let start = trace_upto(paths, outcomes, j).len();
            let block = item_trace(j, n, paths[j as int], outcomes[j as int]);
            let all = batch_trace(paths, outcomes);
            &&& start + block.len() < all.len()
            &&& all.subrange(start as int, (start + block.len()) as int) == block
            &&& block[0] == MessageView::UpdateProgress(j + 1, n)
            &&& block.len() == 2 || block.len() == 3
            &&& block.len() == 3 ==> (block[1] is Processing && block[1]->Processing_0.index == j)
            &&& is_terminal(block.last())
            &&& (block.last() is Done ==> block.last()->Done_0.index == j)
            &&& (block.last() is Error ==> block.last()->Error_0.index == j)
            &&& forall|i: int| 0 <= i < block.len() - 1 ==> !is_terminal(#[trigger] block[i])
        }),
{
    let n = paths.len();
    lemma_trace_upto_grows(paths, outcomes, j + 1, n);
    let pre = trace_upto(paths, outcomes, j);
    let block = item_trace(j, n, paths[j as int], outcomes[j as int]);
    let upto = trace_upto(paths, outcomes, j + 1);
    assert(upto == pre + block);
    let all = batch_trace(paths, outcomes);
    assert(all.subrange(0, upto.len() as int) == upto);
    assert forall|i: int| 0 <= i < block.len() implies all[pre.len() + i] == block[i] by {
        assert(all[pre.len() + i] == all.subrange(0, upto.len() as int)[pre.len() + i]);
        assert(upto[pre.len() + i] == block[i]);
    }
    assert(all.subrange(pre.len() as int, (pre.len() + block.len()) as int) =~= block);
}

} // verus!
