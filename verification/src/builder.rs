//! Assembling one snapshot from fetched data.
//!
//! A refresh cycle first retrieves the list of pending identifiers and
//! keeps at most the first `MAX_SNAPSHOT_LEN` of them (`plan_details`);
//! a failed list retrieval plans nothing, so the cycle yields an empty
//! snapshot.  The caller then fetches detail for each planned
//! identifier and hands the outcomes back in order; `assemble_snapshot`
//! derives one record per successful detail, skips each failed one, and
//! keeps the retrieval order.

use vstd::prelude::*;
use crate::MAX_SNAPSHOT_LEN;
use crate::record::{MempoolTransaction, TxDetail, spec_derive, derive_record};

verus! {

/// The identifiers a cycle will fetch detail for: none when the list
/// retrieval failed, else the first `MAX_SNAPSHOT_LEN` of the list.
pub open spec fn spec_plan(list: Option<Vec<String>>) -> Seq<String> {
    match list {
        Some(ids) => {
            if ids@.len() <= MAX_SNAPSHOT_LEN {
                ids@
            } else {
                ids@.subrange(0, MAX_SNAPSHOT_LEN as int)
            }
        },
        None => Seq::<String>::empty(),
    }
}

/// Bounds a retrieved identifier list to the per-cycle maximum; a
/// failed retrieval (`None`) plans an empty cycle rather than an error.
pub fn plan_details(list: Option<Vec<String>>) -> (r: Vec<String>)
    ensures
        r@ == spec_plan(list),
        r@.len() <= MAX_SNAPSHOT_LEN,
{
    match list {
        Some(mut ids) => {
            ids.truncate(MAX_SNAPSHOT_LEN);
            ids
        },
        None => Vec::new(),
    }
}

/// The records derived from detail outcomes, in order: one per
/// successful detail, none for a failed one.
pub open spec fn spec_assemble(
    items: Seq<(String, Option<TxDetail>)>,
    now: int,
) -> Seq<MempoolTransaction>
    decreases items.len(),
{
    if items.len() == 0 {
        Seq::<MempoolTransaction>::empty()
    } else {
        let rest = spec_assemble(items.drop_first(), now);
        match items[0].1 {
            Some(d) => seq![spec_derive(items[0].0, d, now)] + rest,
            None => rest,
        }
    }
}

/// The identifiers of the records a detail sequence yields, in order.
pub open spec fn spec_kept_ids(items: Seq<(String, Option<TxDetail>)>) -> Seq<String>
    decreases items.len(),
{
    if items.len() == 0 {
        Seq::<String>::empty()
    } else {
        let rest = spec_kept_ids(items.drop_first());
        match items[0].1 {
            Some(d) => seq![items[0].0] + rest,
            None => rest,
        }
    }
}

/// The identifiers of a snapshot, in order.
pub open spec fn spec_ids_of(snap: Seq<MempoolTransaction>) -> Seq<String>
    decreases snap.len(),
{
    if snap.len() == 0 {
        Seq::<String>::empty()
    } else {
        seq![snap[0].txid] + spec_ids_of(snap.drop_first())
    }
}

/// Appending one detail outcome appends its record, or nothing.
proof fn lemma_assemble_push(
    items: Seq<(String, Option<TxDetail>)>,
    x: (String, Option<TxDetail>),
    now: int,
)
    ensures
        spec_assemble(items.push(x), now) == spec_assemble(items, now) + (match x.1 {
            Some(d) => seq![spec_derive(x.0, d, now)],
            None => Seq::<MempoolTransaction>::empty(),
        }),
    decreases items.len(),
{
    let tail = (match x.1 {
        Some(d) => seq![spec_derive(x.0, d, now)],
        None => Seq::<MempoolTransaction>::empty(),
    });
    if items.len() == 0 {
        assert(items.push(x).drop_first() =~= items);
        assert(items.push(x)[0] == x);
        assert(spec_assemble(items.push(x), now) =~= spec_assemble(items, now) + tail);
    } else {
        assert(items.push(x).drop_first() =~= items.drop_first().push(x));
        assert(items.push(x)[0] == items[0]);
        lemma_assemble_push(items.drop_first(), x, now);
        assert(spec_assemble(items.push(x), now) =~= spec_assemble(items, now) + tail);
    }
}

/// A snapshot never holds more records than detail outcomes went in.
pub proof fn lemma_assemble_len(items: Seq<(String, Option<TxDetail>)>, now: int)
    ensures
        spec_assemble(items, now).len() <= items.len(),
    decreases items.len(),
{
    if items.len() > 0 {
        lemma_assemble_len(items.drop_first(), now);
    }
}

/// Law: a snapshot lists the identifiers of exactly the successful
/// detail outcomes, in the order they were retrieved.
pub proof fn lemma_assemble_order(items: Seq<(String, Option<TxDetail>)>, now: int)
    ensures
        spec_ids_of(spec_assemble(items, now)) == spec_kept_ids(items),
    decreases items.len(),
{
    if items.len() > 0 {
        lemma_assemble_order(items.drop_first(), now);
        match items[0].1 {
            Some(d) => {
                let rec = spec_derive(items[0].0, d, now);
                let rest = spec_assemble(items.drop_first(), now);
                assert((seq![rec] + rest).drop_first() =~= rest);
                assert(spec_ids_of(spec_assemble(items, now)) =~= spec_kept_ids(items));
            },
            None => (),
        }
    }
}

/// Law: when every detail call succeeds, the snapshot holds one record
/// per identifier, in order, each derived from its own detail.
pub proof fn lemma_assemble_all_ok(items: Seq<(String, Option<TxDetail>)>, now: int)
    requires
        forall|j: int| 0 <= j < items.len() ==> items[j].1 is Some,
    ensures
        spec_assemble(items, now).len() == items.len(),
        forall|j: int|
            0 <= j < items.len() ==> spec_assemble(items, now)[j] == spec_derive(
                items[j].0,
                items[j].1.unwrap(),
                now,
            ),
    decreases items.len(),
{
    if items.len() > 0 {
        lemma_assemble_all_ok(items.drop_first(), now);
        let rec = spec_derive(items[0].0, items[0].1.unwrap(), now);
        let rest = spec_assemble(items.drop_first(), now);
        assert(spec_assemble(items, now) =~= seq![rec] + rest);
        assert forall|j: int| 0 <= j < items.len() implies spec_assemble(items, now)[j]
            == spec_derive(items[j].0, items[j].1.unwrap(), now) by {
            if j > 0 {
                assert(items.drop_first()[j - 1] == items[j]);
            }
        }
    }
}

/// Law: one failed detail call among otherwise successful ones costs
/// exactly that one record; every other identifier keeps its record,
/// in the original relative order.
pub proof fn lemma_assemble_one_failure(
    items: Seq<(String, Option<TxDetail>)>,
    now: int,
    k: int,
)
    requires
        0 <= k < items.len(),
        items[k].1 is None,
        forall|j: int| 0 <= j < items.len() && j != k ==> items[j].1 is Some,
    ensures
        spec_assemble(items, now).len() == items.len() - 1,
        forall|j: int|
            0 <= j < k ==> spec_assemble(items, now)[j] == spec_derive(
                items[j].0,
                items[j].1.unwrap(),
                now,
            ),
        forall|j: int|
            k < j < items.len() ==> spec_assemble(items, now)[j - 1] == spec_derive(
                items[j].0,
                items[j].1.unwrap(),
                now,
            ),
    decreases items.len(),
{
    let r = spec_assemble(items, now);
    if k == 0 {
        assert(forall|j: int|
            0 <= j < items.drop_first().len() ==> items.drop_first()[j] == items[j + 1]);
        lemma_assemble_all_ok(items.drop_first(), now);
    } else {
        let rec = spec_derive(items[0].0, items[0].1.unwrap(), now);
        let rest = spec_assemble(items.drop_first(), now);
        assert(forall|j: int|
            0 <= j < items.drop_first().len() ==> items.drop_first()[j] == items[j + 1]);
        lemma_assemble_one_failure(items.drop_first(), now, k - 1);
        assert(r =~= seq![rec] + rest);
        assert forall|j: int| 0 <= j < k implies r[j] == spec_derive(
            items[j].0,
            items[j].1.unwrap(),
            now,
        ) by {
            if j > 0 {
                assert(rest[j - 1] == spec_derive(items[j].0, items[j].1.unwrap(), now));
            }
        }
        assert forall|j: int| k < j < items.len() implies r[j - 1] == spec_derive(
            items[j].0,
            items[j].1.unwrap(),
            now,
        ) by {
            assert(items.drop_first()[j - 1] == items[j]);
            assert(rest[(j - 1) - 1] == spec_derive(
                items.drop_first()[j - 1].0,
                items.drop_first()[j - 1].1.unwrap(),
                now,
            ));
        }
    }
}

/// Law: a cycle whose list retrieval failed plans no detail fetches
/// and yields the empty snapshot — an empty value, not an error.
pub proof fn lemma_failed_list_yields_empty(now: int)
    ensures
        spec_plan(None) == Seq::<String>::empty(),
        spec_assemble(Seq::<(String, Option<TxDetail>)>::empty(), now)
            == Seq::<MempoolTransaction>::empty(),
{
}

/// Law: a snapshot built from a planned cycle never exceeds the
/// per-cycle maximum of `MAX_SNAPSHOT_LEN` records.
pub proof fn lemma_snapshot_bounded(items: Seq<(String, Option<TxDetail>)>, now: int)
    requires
        items.len() <= MAX_SNAPSHOT_LEN,
    ensures
        spec_assemble(items, now).len() <= MAX_SNAPSHOT_LEN,
{
    lemma_assemble_len(items, now);
}

/// Derives one record per successful detail outcome, in retrieval
/// order; a failed outcome is skipped, never an error.
pub fn assemble_snapshot(
    items: Vec<(String, Option<TxDetail>)>,
    now: i64,
) -> (r: Vec<MempoolTransaction>)
    ensures
        r@ == spec_assemble(items@, now as int),
        r@.len() <= items@.len(),
{
    let ghost all = items@;
    let mut r: Vec<MempoolTransaction> = Vec::new();
    let mut i: usize = 0;
    while i < items.len()
        invariant
            i <= items@.len(),
            items@ == all,
            r@ == spec_assemble(all.take(i as int), now as int),
            r@.len() <= i,
        decreases items@.len() - i,
    {
        let pair = &items[i];
        let txid = pair.0.clone();
        let detail = pair.1;
        proof {
            assert(all.take(i as int).push(all[i as int]) =~= all.take(i + 1));
            lemma_assemble_push(all.take(i as int), all[i as int], now as int);
        }
        match detail {
            Some(d) => {
                let rec = derive_record(txid, &d, now);
                r.push(rec);
            },
            None => (),
        }
        i = i + 1;
    }
    proof {
        assert(all.take(items@.len() as int) =~= all);
        lemma_assemble_len(all, now as int);
    }
    r
}

} // verus!
