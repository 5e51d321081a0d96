//! What holds of every delta: applied to the document it starts from, its
//! steps lead to the document it was made for, and there are no steps where
//! there is nothing to change.

use vstd::prelude::*;
use crate::delta::{
    apply_ops, diff_ops, lemma_apply_push, remove_ops, same_text, upsert_ops, Operation,
};
use crate::json::{encodable, json_text};
use crate::state::{
    doc_read, doc_remove, doc_wf, doc_write, has_key, keys_distinct, lemma_key_index,
    lemma_read_after_remove, lemma_read_after_write, lemma_remove_wf, lemma_write_wf, Document,
};

verus! {

/// The JSON text under `key` in `doc`, or `None` where the document has no
/// member under it.
pub open spec fn doc_text(doc: Document, key: Seq<char>) -> Option<Seq<u8>> {
    match doc_read(doc, key) {
        Some(value) => json_text(value),
        None => None,
    }
}

/// Whether two documents are the same mapping: the same keys, and under
/// each key values with the same JSON text.
pub open spec fn same_content(a: Document, b: Document) -> bool {
    forall|key: Seq<char>|
        #![trigger has_key(a, key)]
        #![trigger has_key(b, key)]
        has_key(a, key) == has_key(b, key) && doc_text(a, key) == doc_text(b, key)
}

/// Whether two documents are alike member by member: the same keys in the
/// same order, under each a value with the same JSON text.
pub open spec fn same_members(a: Document, b: Document) -> bool {
    &&& a.len() == b.len()
    &&& forall|i: int|
        0 <= i < a.len() ==> (#[trigger] a[i]).0 == b[i].0 && same_text(a[i].1, b[i].1)
}

/// Whether `after` has the members of `before` in their places, with
/// whatever values, and its further members behind them: what writing to a
/// document, key by key, makes of it.
pub open spec fn extends(before: Document, after: Document) -> bool {
    &&& before.len() <= after.len()
    &&& forall|i: int| 0 <= i < before.len() ==> (#[trigger] after[i]).0 == before[i].0
}

/// The keys of a document, in order.
pub open spec fn doc_keys(doc: Document) -> Seq<Seq<char>> {
    Seq::new(doc.len(), |i: int| doc[i].0)
}

/// The keys of the first `n` members of `doc` that `other` has too, in
/// the order of `doc`.
pub open spec fn keys_kept(doc: Document, other: Document, n: nat) -> Seq<Seq<char>>
    decreases n,
{
    if n == 0 {
        Seq::empty()
    } else {
        let sooner = keys_kept(doc, other, (n - 1) as nat);
        if has_key(other, doc[n - 1].0) {
            sooner.push(doc[n - 1].0)
        } else {
            sooner
        }
    }
}

/// The keys of the first `n` members of `doc` that `other` lacks, in the
/// order of `doc`.
pub open spec fn keys_new(doc: Document, other: Document, n: nat) -> Seq<Seq<char>>
    decreases n,
{
    if n == 0 {
        Seq::empty()
    } else {
        let sooner = keys_new(doc, other, (n - 1) as nat);
        if has_key(other, doc[n - 1].0) {
            sooner
        } else {
            sooner.push(doc[n - 1].0)
        }
    }
}

/// Whether `after` keeps the order of `before`: the keys that it has from
/// `before` stand in the order of `before`, and in front of the keys that
/// it adds. So it is with a document that came of `before` by changing
/// values, removing members and adding new ones, and with none in which a
/// member has changed places.
pub open spec fn order_kept(before: Document, after: Document) -> bool {
    doc_keys(after) == keys_kept(before, after, before.len()) + keys_new(
        after,
        before,
        after.len(),
    )
}

/// Whether `key` is the key of one of the first `n` members of `doc`.
spec fn key_among(doc: Document, n: nat, key: Seq<char>) -> bool {
    exists|i: int| 0 <= i < n && i < doc.len() && (#[trigger] doc[i]).0 == key
}

/// What holds of `key` in the document `mid` that the steps for the first
/// `n` members of `after` lead to.
spec fn upserted(before: Document, after: Document, n: nat, mid: Document, key: Seq<char>) -> bool {
    if key_among(after, n, key) {
        doc_text(mid, key) == doc_text(after, key) && has_key(mid, key)
    } else {
        doc_read(mid, key) == doc_read(before, key)
    }
}

/// What holds of `key` in the document `mid` that all the adding and
/// replacing steps, and the removing steps for the first `n` members of
/// `before`, lead to.
spec fn removed(before: Document, after: Document, n: nat, mid: Document, key: Seq<char>) -> bool {
    if has_key(after, key) {
        doc_text(mid, key) == doc_text(after, key) && has_key(mid, key)
    } else if key_among(before, n, key) {
        !has_key(mid, key)
    } else {
        doc_read(mid, key) == doc_read(before, key)
    }
}

/// A key is among the first `n` members exactly if it is among the first
/// `n - 1` or is the key of the last of them.
proof fn lemma_key_among_step(doc: Document, n: nat, key: Seq<char>)
    requires
        0 < n <= doc.len(),
    ensures
        key_among(doc, n, key) <==> key_among(doc, (n - 1) as nat, key) || doc[n - 1].0 == key,
{
}

/// The key of a member is not among the members in front of it.
proof fn lemma_key_is_new(doc: Document, n: nat)
    requires
        keys_distinct(doc),
        0 < n <= doc.len(),
    ensures
        !key_among(doc, (n - 1) as nat, doc[n - 1].0),
{
}

/// The adding and replacing steps for the first `n` members of `after` all
/// fit, and lead to a document that agrees with `after` on the keys of those
/// members and with `before` on all others.
proof fn lemma_upserts(before: Document, after: Document, n: nat) -> (mid: Document)
    requires
        doc_wf(before),
        doc_wf(after),
        n <= after.len(),
    ensures
        apply_ops(before, upsert_ops(before, after, n)) == Some(mid),
        doc_wf(mid),
        forall|key: Seq<char>| #[trigger] upserted(before, after, n, mid, key),
        doc_keys(mid) == doc_keys(before) + keys_new(after, before, n),
    decreases n,
{
    if n == 0 {
        before
    } else {
        let prev = (n - 1) as nat;
        let sooner = lemma_upserts(before, after, prev);
        let steps = upsert_ops(before, after, prev);
        let (k, v) = after[n - 1];
        lemma_key_index(after, n - 1);
        lemma_key_is_new(after, n);
        assert(upserted(before, after, prev, sooner, k));
        let changes = match doc_read(before, k) {
            None => true,
            Some(old) => !same_text(old, v),
        };
        let mid = if changes {
            doc_write(sooner, k, v)
        } else {
            sooner
        };
        if changes {
            let op = if doc_read(before, k) is None {
                Operation::Add { key: k, value: v }
            } else {
                Operation::Replace { key: k, value: v }
            };
            lemma_apply_push(before, steps, op);
            lemma_write_wf(sooner, k, v);
        }
        assert forall|key: Seq<char>| #[trigger] upserted(before, after, n, mid, key) by {
            assert(upserted(before, after, prev, sooner, key));
            lemma_read_after_write(sooner, k, v, key);
            lemma_key_among_step(after, n, key);
        }
        assert(doc_keys(mid) =~= doc_keys(before) + keys_new(after, before, n)) by {
            if !has_key(before, k) {
                assert(doc_keys(mid) =~= doc_keys(sooner).push(k));
            }
        }
        mid
    }
}

/// All the adding and replacing steps, and then the removing steps for the
/// first `n` members of `before`, all fit, and lead to a document that
/// agrees with `after` on its keys, lacks the other keys of those members,
/// and agrees with `before` on the rest.
proof fn lemma_removes(before: Document, after: Document, n: nat) -> (mid: Document)
    requires
        doc_wf(before),
        doc_wf(after),
        n <= before.len(),
    ensures
        apply_ops(
            before,
            upsert_ops(before, after, after.len()) + remove_ops(before, after, n),
        ) == Some(mid),
        doc_wf(mid),
        forall|key: Seq<char>| #[trigger] removed(before, after, n, mid, key),
        doc_keys(mid) == keys_kept(before, after, n) + doc_keys(before).skip(n as int) + keys_new(
            after,
            before,
            after.len(),
        ),
    decreases n,
{
    let upserts = upsert_ops(before, after, after.len());
    let added = keys_new(after, before, after.len());
    if n == 0 {
        let mid = lemma_upserts(before, after, after.len());
        assert(doc_keys(mid) =~= keys_kept(before, after, n) + doc_keys(before).skip(n as int)
            + added);
        assert forall|key: Seq<char>| #[trigger] removed(before, after, n, mid, key) by {
            assert(upserted(before, after, after.len(), mid, key));
        }
        mid
    } else {
        let prev = (n - 1) as nat;
        let sooner = lemma_removes(before, after, prev);
        let steps = remove_ops(before, after, prev);
        let k = before[n - 1].0;
        lemma_key_index(before, n - 1);
        lemma_key_is_new(before, n);
        let mid = if has_key(after, k) {
            sooner
        } else {
            doc_remove(sooner, k)
        };
        if !has_key(after, k) {
            let op = Operation::Remove { key: k };
            lemma_apply_push(before, upserts + steps, op);
            lemma_remove_wf(sooner, k);
        }
        assert forall|key: Seq<char>| #[trigger] removed(before, after, n, mid, key) by {
            assert(removed(before, after, prev, sooner, key));
            lemma_read_after_remove(sooner, k, key);
            lemma_key_among_step(before, n, key);
        }
        assert(doc_keys(mid) =~= keys_kept(before, after, n) + doc_keys(before).skip(n as int)
            + added) by {
            let kept = keys_kept(before, after, prev);
            let rest = doc_keys(before).skip(prev as int);
            if !has_key(after, k) {
                let at = kept.len() as int;
                assert(doc_keys(sooner).len() == sooner.len());
                assert((kept + rest + added)[at] == rest[0]);
                lemma_key_index(sooner, at);
                assert(doc_keys(mid) =~= doc_keys(sooner).remove(at));
            }
        }
        mid
    }
}

/// The round trip of a delta: the steps that `diff_ops` gives for two
/// well-formed documents all fit the first, and applied to it in order they
/// give a well-formed document with the content of the second.
pub proof fn lemma_delta_round_trip(before: Document, after: Document)
    requires
        doc_wf(before),
        doc_wf(after),
    ensures
        apply_ops(before, diff_ops(before, after)) is Some,
        doc_wf(apply_ops(before, diff_ops(before, after))->Some_0),
        same_content(apply_ops(before, diff_ops(before, after))->Some_0, after),
{
    let out = lemma_removes(before, after, before.len());
    assert forall|key: Seq<char>|
        has_key(out, key) == has_key(after, key) && doc_text(out, key) == doc_text(
            after,
            key,
        ) by {
        assert(removed(before, after, before.len(), out, key));
    }
}

/// The order that the round trip of a delta leaves: first the keys of
/// `before` that `after` has too, in the order of `before`, then the keys
/// that `after` adds, in the order of `after`.
pub proof fn lemma_delta_round_trip_order(before: Document, after: Document)
    requires
        doc_wf(before),
        doc_wf(after),
    ensures
        apply_ops(before, diff_ops(before, after)) is Some,
        doc_keys(apply_ops(before, diff_ops(before, after))->Some_0) == keys_kept(
            before,
            after,
            before.len(),
        ) + keys_new(after, before, after.len()),
{
    let out = lemma_removes(before, after, before.len());
    assert(doc_keys(out) =~= keys_kept(before, after, before.len()) + keys_new(
        after,
        before,
        after.len(),
    ));
}

/// A document extends itself, and writing to the later of two documents
/// keeps it an extension of the earlier.
pub proof fn lemma_write_extends(
    before: Document,
    after: Document,
    key: Seq<char>,
    value: serde_json::Value,
)
    requires
        extends(before, after),
    ensures
        extends(before, before),
        extends(before, doc_write(after, key, value)),
{
}

/// The keys that are kept and the keys that are new, for a document that
/// extends `before`: all keys of `before` are kept, and the keys behind them
/// are new.
proof fn lemma_keys_of_extension(before: Document, after: Document, n: nat)
    requires
        keys_distinct(after),
        extends(before, after),
        n <= after.len(),
    ensures
        n <= before.len() ==> keys_kept(before, after, n) == doc_keys(before).take(n as int),
        keys_new(after, before, n) == if n <= before.len() {
            Seq::<Seq<char>>::empty()
        } else {
            doc_keys(after).subrange(before.len() as int, n as int)
        },
    decreases n,
{
    if n > 0 {
        lemma_keys_of_extension(before, after, (n - 1) as nat);
        if n > before.len() {
            let k = after[n - 1].0;
            if has_key(before, k) {
                let i = choose|i: int| 0 <= i < before.len() && (#[trigger] before[i]).0 == k;
                assert(after[i].0 == before[i].0);
            }
            assert(keys_new(after, before, n) =~= doc_keys(after).subrange(
                before.len() as int,
                n as int,
            ));
        }
    }
}

/// A document that extends `before` keeps the order of `before`.
pub proof fn lemma_extension_keeps_order(before: Document, after: Document)
    requires
        keys_distinct(after),
        extends(before, after),
    ensures
        order_kept(before, after),
{
    lemma_keys_of_extension(before, after, before.len());
    lemma_keys_of_extension(before, after, after.len());
    assert(doc_keys(after) =~= keys_kept(before, after, before.len()) + keys_new(
        after,
        before,
        after.len(),
    ));
}

/// The round trip of a delta, member by member: where `after` keeps the
/// order of `before`, the steps that `diff_ops` gives lead from `before` to
/// a document with the keys of `after` in the order of `after`, and under
/// each key a value with the same JSON text.
pub proof fn lemma_delta_round_trip_in_order(before: Document, after: Document)
    requires
        doc_wf(before),
        doc_wf(after),
        order_kept(before, after),
    ensures
        apply_ops(before, diff_ops(before, after)) is Some,
        same_members(apply_ops(before, diff_ops(before, after))->Some_0, after),
{
    lemma_delta_round_trip(before, after);
    lemma_delta_round_trip_order(before, after);
    let out = apply_ops(before, diff_ops(before, after))->Some_0;
    assert(out.len() == doc_keys(out).len());
    assert forall|i: int| 0 <= i < out.len() implies (#[trigger] out[i]).0 == after[i].0
        && same_text(out[i].1, after[i].1) by {
        assert(out[i].0 == doc_keys(out)[i]);
        lemma_key_index(out, i);
        lemma_key_index(after, i);
    }
}

/// Neither kind of step arises between two documents that are the same
/// mapping.
proof fn lemma_no_steps(before: Document, after: Document, n: nat, m: nat)
    requires
        keys_distinct(before),
        keys_distinct(after),
        same_content(before, after),
        n <= after.len(),
        m <= before.len(),
    ensures
        upsert_ops(before, after, n) == Seq::<Operation>::empty(),
        remove_ops(before, after, m) == Seq::<Operation>::empty(),
    decreases n + m,
{
    if n > 0 {
        lemma_no_steps(before, after, (n - 1) as nat, 0);
        lemma_key_index(after, n - 1);
    }
    if m > 0 {
        lemma_no_steps(before, after, 0, (m - 1) as nat);
        lemma_key_index(before, m - 1);
    }
}

/// A delta has no steps exactly where the two documents are the same
/// mapping.
pub proof fn lemma_delta_is_empty_iff_same_content(before: Document, after: Document)
    requires
        doc_wf(before),
        doc_wf(after),
    ensures
        diff_ops(before, after).len() == 0 <==> same_content(before, after),
{
    if diff_ops(before, after).len() == 0 {
        lemma_delta_round_trip(before, after);
    }
    if same_content(before, after) {
        lemma_no_steps(before, after, after.len(), before.len());
    }
}

/// Between a document and itself there is nothing to do: the delta has no
/// steps.
pub proof fn lemma_delta_of_same_is_empty(doc: Document)
    requires
        keys_distinct(doc),
    ensures
        diff_ops(doc, doc) == Seq::<Operation>::empty(),
{
    lemma_no_steps(doc, doc, doc.len(), doc.len());
}

} // verus!
