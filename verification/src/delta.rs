//! The delta between two state documents: what to add, replace and remove to
//! get from the one before an invocation to the one after it.

use vstd::prelude::*;
use crate::errors::RuntimeError;
use crate::json::{encodable, json_text, value_to_vec};
use crate::state::{
    doc_read, doc_remove, doc_wf, doc_write, has_key, members_view, ContractState, Document,
};

verus! {

/// The model of one step of a delta.
pub enum Operation {
    /// Puts a new member at the end of the document.
    Add { key: Seq<char>, value: serde_json::Value },
    /// Gives a member a new value.
    Replace { key: Seq<char>, value: serde_json::Value },
    /// Takes a member out.
    Remove { key: Seq<char> },
}

/// One step of a delta.
#[derive(Debug, PartialEq)]
pub enum PatchOp {
    /// Puts a new member at the end of the document.
    Add { key: String, value: serde_json::Value },
    /// Gives a member a new value.
    Replace { key: String, value: serde_json::Value },
    /// Takes a member out.
    Remove { key: String },
}

impl View for PatchOp {
    type V = Operation;

    open spec fn view(&self) -> Operation {
        match *self {
            PatchOp::Add { key, value } => Operation::Add { key: key@, value },
            PatchOp::Replace { key, value } => Operation::Replace { key: key@, value },
            PatchOp::Remove { key } => Operation::Remove { key: key@ },
        }
    }
}

impl Clone for PatchOp {
    fn clone(&self) -> (r: PatchOp)
        ensures
            r == *self,
    {
        match self {
            PatchOp::Add { key, value } => PatchOp::Add { key: key.clone(), value: value.clone() },
            PatchOp::Replace { key, value } => PatchOp::Replace {
                key: key.clone(),
                value: value.clone(),
            },
            PatchOp::Remove { key } => PatchOp::Remove { key: key.clone() },
        }
    }
}

/// The delta of one invocation: the contract it is for, its place in the
/// sequence of that contract's deltas (the first delta of a contract has
/// index 1), and the steps in the order in which they apply.
#[derive(Debug, Clone, PartialEq)]
pub struct StatePatch {
    pub contract_id: [u8; 32],
    pub index: u32,
    pub ops: Vec<PatchOp>,
}

/// The steps that a list of operations stands for.
pub open spec fn ops_view(ops: Seq<PatchOp>) -> Seq<Operation> {
    Seq::new(ops.len(), |i: int| ops[i]@)
}

impl StatePatch {
    /// The steps of the delta, in order.
    pub open spec fn operations(&self) -> Seq<Operation> {
        ops_view(self.ops@)
    }
}

/// Whether two values have the same JSON text.
pub open spec fn same_text(a: serde_json::Value, b: serde_json::Value) -> bool {
    json_text(a) == json_text(b)
}

/// The steps for the first `n` members of `after`, in their order: an
/// `Add` for a key that `before` lacks, a `Replace` for one whose value has
/// another text there, nothing for the others.
pub open spec fn upsert_ops(before: Document, after: Document, n: nat) -> Seq<Operation>
    decreases n,
{
    if n == 0 {
        Seq::empty()
    } else {
        let sooner = upsert_ops(before, after, (n - 1) as nat);
        let (key, value) = after[n - 1];
        match doc_read(before, key) {
            None => sooner.push(Operation::Add { key, value }),
            Some(old) => if same_text(old, value) {
                sooner
            } else {
                sooner.push(Operation::Replace { key, value })
            },
        }
    }
}

/// The steps for the first `n` members of `before`, in their order: a
/// `Remove` for each key that `after` lacks.
pub open spec fn remove_ops(before: Document, after: Document, n: nat) -> Seq<Operation>
    decreases n,
{
    if n == 0 {
        Seq::empty()
    } else {
        let sooner = remove_ops(before, after, (n - 1) as nat);
        let key = before[n - 1].0;
        if has_key(after, key) {
            sooner
        } else {
            sooner.push(Operation::Remove { key })
        }
    }
}

/// The steps that lead from `before` to `after`: what is added or replaced,
/// in the order of `after`, then what is removed, in the order of `before`.
/// A member that is in both with the same JSON text gets no step.
pub open spec fn diff_ops(before: Document, after: Document) -> Seq<Operation> {
    upsert_ops(before, after, after.len()) + remove_ops(before, after, before.len())
}

/// `doc` after one step, or `None` where the step does not fit: a value
/// without a JSON text, or a `Replace` or `Remove` of a key that is not
/// there. An `Add` of a key that is there replaces its value.
pub open spec fn apply_op(doc: Document, op: Operation) -> Option<Document> {
    match op {
        Operation::Add { key, value } => if encodable(value) {
            Some(doc_write(doc, key, value))
        } else {
            None
        },
        Operation::Replace { key, value } => if encodable(value) && has_key(doc, key) {
            Some(doc_write(doc, key, value))
        } else {
            None
        },
        Operation::Remove { key } => if has_key(doc, key) {
            Some(doc_remove(doc, key))
        } else {
            None
        },
    }
}

/// `doc` after the steps `ops`, one after the other, or `None` where one of
/// them does not fit.
pub open spec fn apply_ops(doc: Document, ops: Seq<Operation>) -> Option<Document>
    decreases ops.len(),
{
    if ops.len() == 0 {
        Some(doc)
    } else {
        match apply_ops(doc, ops.drop_last()) {
            Some(sooner) => apply_op(sooner, ops.last()),
            None => None,
        }
    }
}

/// Whether `delta` is the next delta of the contract at `address` whose
/// state holds `doc` at sequence index `index`, and all its steps fit.
pub open spec fn delta_fits(
    address: Seq<u8>,
    index: nat,
    doc: Document,
    delta: StatePatch,
) -> bool {
    &&& delta.contract_id@ == address
    &&& delta.index == index + 1
    &&& apply_ops(doc, delta.operations()) is Some
}

/// One more step after the steps `ops`.
pub proof fn lemma_apply_push(doc: Document, ops: Seq<Operation>, op: Operation)
    ensures
        apply_ops(doc, ops.push(op)) == match apply_ops(doc, ops) {
            Some(sooner) => apply_op(sooner, op),
            None => None,
        },
{
    assert(ops.push(op).drop_last() =~= ops);
}

/// Steps that all fit still fit when the last ones are left out.
pub proof fn lemma_apply_prefix(doc: Document, ops: Seq<Operation>, n: int)
    requires
        0 <= n <= ops.len(),
        apply_ops(doc, ops) is Some,
    ensures
        apply_ops(doc, ops.take(n)) is Some,
    decreases ops.len(),
{
    if n == ops.len() {
        assert(ops.take(n) =~= ops);
    } else {
        assert(ops.drop_last().take(n) =~= ops.take(n));
        lemma_apply_prefix(doc, ops.drop_last(), n);
    }
}

/// Whether two byte strings are the same.
pub fn bytes_equal(a: &[u8], b: &[u8]) -> (r: bool)
    ensures
        r == (a@ == b@),
{
    if a.len() != b.len() {
        return false;
    }
    let mut i: usize = 0;
    while i < a.len()
        invariant
            i <= a@.len(),
            a@.len() == b@.len(),
            forall|j: int| 0 <= j < i ==> a@[j] == b@[j],
        decreases a@.len() - i,
    {
        if a[i] != b[i] {
            return false;
        }
        i += 1;
    }
    assert(a@ =~= b@);
    true
}

/// Whether two values of a state have the same JSON text, or `None` where
/// one of them has none.
fn values_same_text(a: &serde_json::Value, b: &serde_json::Value) -> (r: Option<bool>)
    ensures
        r is Some <==> encodable(*a) && encodable(*b),
        r matches Some(same) ==> same == same_text(*a, *b),
{
    match value_to_vec(a) {
        Ok(x) => match value_to_vec(b) {
            Ok(y) => Some(bytes_equal(x.as_slice(), y.as_slice())),
            Err(_) => None,
        },
        Err(_) => None,
    }
}

/// The delta that leads from the state `before` to the state `after`, as
/// number `index` of the contract's deltas. It fails where the two states
/// belong to different contracts, and only there.
pub fn generate_delta(before: &ContractState, after: &ContractState, index: u32) -> (r: Result<
    StatePatch,
    RuntimeError,
>)
    ensures
        before.address() != after.address() ==> r == Err::<StatePatch, RuntimeError>(
            RuntimeError::DeltaGenerationError,
        ),
        before.address() == after.address() ==> {
            &&& r matches Ok(patch)
            &&& patch.contract_id@ == after.address()
            &&& patch.index == index
            &&& patch.operations() == diff_ops(before@, after@)
        },
{
    let contract_id = after.contract_id();
    if !bytes_equal(before.contract_id().as_slice(), contract_id.as_slice()) {
        return Err(RuntimeError::DeltaGenerationError);
    }
    let old_members = before.entries();
    let new_members = after.entries();
    let mut ops: Vec<PatchOp> = Vec::new();
    let mut i: usize = 0;
    while i < new_members.len()
        invariant
            i <= new_members@.len(),
            members_view(new_members@) == after@,
            doc_wf(after@),
            ops_view(ops@) == upsert_ops(before@, after@, i as nat),
        decreases new_members@.len() - i,
    {
        let member = &new_members[i];
        assert(after@[i as int] == (member.key@, member.value));
        let change = match before.get(member.key.as_str()) {
            None => Some(PatchOp::Add { key: member.key.clone(), value: member.value.clone() }),
            Some(old) => match values_same_text(old, &member.value) {
                Some(true) => None,
                Some(false) => Some(
                    PatchOp::Replace { key: member.key.clone(), value: member.value.clone() },
                ),
                None => {
                    return Err(RuntimeError::DeltaGenerationError);
                },
            },
        };
        if let Some(op) = change {
            ops.push(op);
        }
        i += 1;
    }
    let ghost upserts = ops_view(ops@);
    let mut k: usize = 0;
    while k < old_members.len()
        invariant
            k <= old_members@.len(),
            members_view(old_members@) == before@,
            ops_view(ops@) == upserts + remove_ops(before@, after@, k as nat),
        decreases old_members@.len() - k,
    {
        let member = &old_members[k];
        if !after.contains_key(member.key.as_str()) {
            let ghost sooner = ops_view(ops@);
            ops.push(PatchOp::Remove { key: member.key.clone() });
            assert(ops_view(ops@) =~= sooner.push(Operation::Remove { key: member.key@ }));
        }
        k += 1;
    }
    Ok(StatePatch { contract_id, index, ops })
}

impl ContractState {
    /// Applies the steps of `delta` in order, and records its sequence
    /// index. The delta has to be the next one of this contract and each of
    /// its steps has to fit; otherwise the state stays as it was.
    pub fn apply_delta(&mut self, delta: &StatePatch) -> (r: Result<(), RuntimeError>)
        ensures
            final(self).address() == old(self).address(),
            delta_fits(old(self).address(), old(self).index(), old(self)@, *delta) ==> {
                &&& r is Ok
                &&& Some(final(self)@) == apply_ops(old(self)@, delta.operations())
                &&& final(self).index() == delta.index
            },
            !delta_fits(old(self).address(), old(self).index(), old(self)@, *delta) ==> {
                &&& r == Err::<(), RuntimeError>(RuntimeError::DeltaApplicationError)
                &&& final(self)@ == old(self)@
                &&& final(self).index() == old(self).index()
            },
    {
        if !bytes_equal(self.contract_id().as_slice(), delta.contract_id.as_slice()) {
            return Err(RuntimeError::DeltaApplicationError);
        }
        if self.delta_index() == u32::MAX || delta.index != self.delta_index() + 1 {
            return Err(RuntimeError::DeltaApplicationError);
        }
        let mut work = self.clone();
        let ghost steps = delta.operations();
        let mut i: usize = 0;
        while i < delta.ops.len()
            invariant
                i <= delta.ops@.len(),
                steps == delta.operations(),
                work.address() == self.address(),
                apply_ops(self@, steps.take(i as int)) == Some(work@),
            decreases delta.ops@.len() - i,
        {
            let fitted = match &delta.ops[i] {
                PatchOp::Add { key, value } => work.write(key.as_str(), value.clone()).is_ok(),
                PatchOp::Replace { key, value } => work.contains_key(key.as_str()) && work.write(
                    key.as_str(),
                    value.clone(),
                ).is_ok(),
                PatchOp::Remove { key } => work.remove(key.as_str()),
            };
            proof {
                let step = delta.ops@[i as int]@;
                assert(steps.take(i + 1) =~= steps.take(i as int).push(step));
                lemma_apply_push(self@, steps.take(i as int), step);
            }
            if !fitted {
                proof {
                    if apply_ops(self@, steps) is Some {
                        lemma_apply_prefix(self@, steps, i + 1);
                    }
                }
                return Err(RuntimeError::DeltaApplicationError);
            }
            i += 1;
        }
        assert(steps.take(i as int) =~= steps);
        work.set_delta_index(delta.index);
        *self = work;
        Ok(())
    }
}

} // verus!
