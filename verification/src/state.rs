//! The state document of a contract: an ordered mapping from string keys to
//! JSON values, with the address of the contract it belongs to.

use vstd::prelude::*;
use crate::errors::RuntimeError;
use crate::json::{encodable, json_text, null_text, value_null, value_to_vec};

verus! {

/// The model of a document: its members in order, each a key and a value.
pub type Document = Seq<(Seq<char>, serde_json::Value)>;

/// No key occurs twice in `doc`.
pub open spec fn keys_distinct(doc: Document) -> bool {
    forall|i: int, j: int|
        0 <= i < j < doc.len() ==> (#[trigger] doc[i]).0 != (#[trigger] doc[j]).0
}

/// Every value in `doc` has a JSON text.
pub open spec fn values_encodable(doc: Document) -> bool {
    forall|i: int| 0 <= i < doc.len() ==> encodable((#[trigger] doc[i]).1)
}

/// What holds of every state document: its keys are distinct, and its values
/// have a JSON text.
pub open spec fn doc_wf(doc: Document) -> bool {
    keys_distinct(doc) && values_encodable(doc)
}

/// Whether `doc` has a member under `key`.
pub open spec fn has_key(doc: Document, key: Seq<char>) -> bool {
    exists|i: int| 0 <= i < doc.len() && (#[trigger] doc[i]).0 == key
}

/// A position of `key` in `doc`; the only one where the keys are distinct.
pub open spec fn key_index(doc: Document, key: Seq<char>) -> int {
    choose|i: int| 0 <= i < doc.len() && (#[trigger] doc[i]).0 == key
}

/// The value under `key`, if there is one.
pub open spec fn doc_read(doc: Document, key: Seq<char>) -> Option<serde_json::Value> {
    if has_key(doc, key) {
        Some(doc[key_index(doc, key)].1)
    } else {
        None
    }
}

/// `doc` with `key` set to `value`: in place where the key is there, as a
/// new last member where it is not.
pub open spec fn doc_write(doc: Document, key: Seq<char>, value: serde_json::Value) -> Document {
    if has_key(doc, key) {
        doc.update(key_index(doc, key), (key, value))
    } else {
        doc.push((key, value))
    }
}

/// `doc` without the member under `key`.
pub open spec fn doc_remove(doc: Document, key: Seq<char>) -> Document {
    if has_key(doc, key) {
        doc.remove(key_index(doc, key))
    } else {
        doc
    }
}

/// Where the keys are distinct, a member's position is the position of its
/// key.
pub proof fn lemma_key_index(doc: Document, i: int)
    requires
        keys_distinct(doc),
        0 <= i < doc.len(),
    ensures
        has_key(doc, doc[i].0),
        key_index(doc, doc[i].0) == i,
        doc_read(doc, doc[i].0) == Some(doc[i].1),
{
}

/// Writing keeps the keys of a document distinct.
pub proof fn lemma_write_keeps_keys_distinct(
    doc: Document,
    key: Seq<char>,
    value: serde_json::Value,
)
    requires
        keys_distinct(doc),
    ensures
        keys_distinct(doc_write(doc, key, value)),
{
}

/// Writing a value that has a JSON text keeps a document well formed.
pub proof fn lemma_write_wf(doc: Document, key: Seq<char>, value: serde_json::Value)
    requires
        doc_wf(doc),
        encodable(value),
    ensures
        doc_wf(doc_write(doc, key, value)),
{
    lemma_write_keeps_keys_distinct(doc, key, value);
}

/// Removing keeps the keys of a document distinct, and the removed key is
/// gone.
pub proof fn lemma_remove_keeps_keys_distinct(doc: Document, key: Seq<char>)
    requires
        keys_distinct(doc),
    ensures
        keys_distinct(doc_remove(doc, key)),
        !has_key(doc_remove(doc, key), key),
{
}

/// Removing keeps a document well formed, and the removed key is gone.
pub proof fn lemma_remove_wf(doc: Document, key: Seq<char>)
    requires
        doc_wf(doc),
    ensures
        doc_wf(doc_remove(doc, key)),
        !has_key(doc_remove(doc, key), key),
{
    lemma_remove_keeps_keys_distinct(doc, key);
}

/// A value that was written under a key is the value read under it, and
/// the other keys read as before.
pub proof fn lemma_read_after_write(
    doc: Document,
    key: Seq<char>,
    value: serde_json::Value,
    other: Seq<char>,
)
    requires
        keys_distinct(doc),
    ensures
        doc_read(doc_write(doc, key, value), key) == Some(value),
        other != key ==> doc_read(doc_write(doc, key, value), other) == doc_read(doc, other),
{
    let out = doc_write(doc, key, value);
    let at = if has_key(doc, key) {
        key_index(doc, key)
    } else {
        doc.len() as int
    };
    lemma_write_keeps_keys_distinct(doc, key, value);
    lemma_key_index(out, at);
    if other != key && has_key(doc, other) {
        lemma_key_index(out, key_index(doc, other));
    }
}

/// After a removal the removed key reads as absent, and the other keys
/// read as before.
pub proof fn lemma_read_after_remove(doc: Document, key: Seq<char>, other: Seq<char>)
    requires
        keys_distinct(doc),
    ensures
        doc_read(doc_remove(doc, key), key) is None,
        other != key ==> doc_read(doc_remove(doc, key), other) == doc_read(doc, other),
{
    let out = doc_remove(doc, key);
    lemma_remove_keeps_keys_distinct(doc, key);
    if has_key(doc, key) && other != key && has_key(doc, other) {
        let gap = key_index(doc, key);
        let o = key_index(doc, other);
        let at = if o < gap {
            o
        } else {
            o - 1
        };
        lemma_key_index(out, at);
    }
}

/// One member of a state document.
#[derive(Debug, PartialEq)]
pub struct Entry {
    pub key: String,
    pub value: serde_json::Value,
}

impl Clone for Entry {
    fn clone(&self) -> (r: Entry)
        ensures
            r == *self,
    {
        Entry { key: self.key.clone(), value: self.value.clone() }
    }
}

/// The document that a list of members stands for.
pub open spec fn members_view(members: Seq<Entry>) -> Document {
    Seq::new(members.len(), |i: int| (members[i].key@, members[i].value))
}

/// The confidential state of one contract: its address, the sequence index
/// of the last delta that went into it, and its document. The address never
/// changes.
#[derive(Debug, PartialEq)]
pub struct ContractState {
    contract_id: [u8; 32],
    delta_index: u32,
    members: Vec<Entry>,
}

impl View for ContractState {
    type V = Document;

    closed spec fn view(&self) -> Document {
        members_view(self.members@)
    }
}

impl Clone for ContractState {
    /// A deep copy: the same address, index and document.
    fn clone(&self) -> (r: ContractState)
        ensures
            r.same_as(*self),
    {
        proof {
            use_type_invariant(self);
        }
        let mut members: Vec<Entry> = Vec::new();
        let mut i: usize = 0;
        while i < self.members.len()
            invariant
                i <= self.members@.len(),
                members@.len() == i,
                forall|j: int| 0 <= j < i ==> members@[j] == self.members@[j],
            decreases self.members@.len() - i,
        {
            members.push(self.members[i].clone());
            i += 1;
        }
        assert(members_view(members@) =~= self@);
        ContractState { contract_id: self.contract_id, delta_index: self.delta_index, members }
    }
}

impl ContractState {
    /// The address of the contract that the state belongs to.
    pub closed spec fn address(&self) -> Seq<u8> {
        self.contract_id@
    }

    /// The sequence index of the last delta that went into the state; 0 for
    /// a contract that has none yet.
    pub closed spec fn index(&self) -> nat {
        self.delta_index as nat
    }

    /// Whether two states are alike in all that can be told of a state: the
    /// address, the sequence index and the document.
    pub open spec fn same_as(&self, other: ContractState) -> bool {
        &&& self.address() == other.address()
        &&& self.index() == other.index()
        &&& self@ == other@
    }

    /// What holds of every state: its document is well formed.
    #[verifier::type_invariant]
    pub open spec fn well_formed(self) -> bool {
        doc_wf(self@)
    }

    /// The empty state of a contract that has not run yet.
    pub fn new(contract_id: [u8; 32]) -> (r: ContractState)
        ensures
            r@ == Seq::<(Seq<char>, serde_json::Value)>::empty(),
            r.address() == contract_id@,
            r.index() == 0,
    {
        let members: Vec<Entry> = Vec::new();
        ContractState { contract_id, delta_index: 0, members }
    }

    /// The position of `key` among the members.
    fn find(&self, key: &String) -> (r: Option<usize>)
        ensures
            r is Some <==> has_key(self@, key@),
            r matches Some(i) ==> i < self@.len() && i == key_index(self@, key@),
    {
        proof {
            use_type_invariant(self);
        }
        let mut i: usize = 0;
        while i < self.members.len()
            invariant
                i <= self.members@.len(),
                self@.len() == self.members@.len(),
                keys_distinct(self@),
                forall|j: int| 0 <= j < i ==> (#[trigger] self@[j]).0 != key@,
            decreases self.members@.len() - i,
        {
            if self.members[i].key == *key {
                proof {
                    lemma_key_index(self@, i as int);
                }
                return Some(i);
            }
            i += 1;
        }
        None
    }

    /// The address of the contract that the state belongs to.
    pub fn contract_id(&self) -> (r: [u8; 32])
        ensures
            r@ == self.address(),
    {
        self.contract_id
    }

    /// The sequence index of the last delta that went into the state.
    pub fn delta_index(&self) -> (r: u32)
        ensures
            r == self.index(),
    {
        self.delta_index
    }

    /// The members in their order. No key occurs twice among them, and every
    /// value has a JSON text.
    pub fn entries(&self) -> (r: &Vec<Entry>)
        ensures
            members_view(r@) == self@,
            doc_wf(self@),
    {
        proof {
            use_type_invariant(self);
        }
        &self.members
    }

    /// Whether the document has a member under `key`.
    pub fn contains_key(&self, key: &str) -> (r: bool)
        ensures
            r == has_key(self@, key@),
    {
        let key = key.to_owned();
        self.find(&key).is_some()
    }

    /// The value under `key`, if the document has one.
    pub fn get(&self, key: &str) -> (r: Option<&serde_json::Value>)
        ensures
            r is Some <==> has_key(self@, key@),
            r matches Some(value) ==> Some(*value) == doc_read(self@, key@) && encodable(*value),
    {
        proof {
            use_type_invariant(self);
        }
        let key = key.to_owned();
        match self.find(&key) {
            Some(i) => {
                Some(&self.members[i].value)
            },
            None => None,
        }
    }

    /// The value under `key`, or the null value where the document has none:
    /// reading never fails.
    pub fn read(&self, key: &str) -> (r: serde_json::Value)
        ensures
            has_key(self@, key@) ==> Some(r) == doc_read(self@, key@),
            !has_key(self@, key@) ==> json_text(r) == Some(null_text()),
            encodable(r),
    {
        proof {
            use_type_invariant(self);
        }
        let key = key.to_owned();
        match self.find(&key) {
            Some(i) => {
                self.members[i].value.clone()
            },
            None => value_null(),
        }
    }

    /// Sets `key` to `value`, in place of the value that it had, or as a new
    /// last member: the key then reads as `value`, and every other key as
    /// before. A value without a JSON text is refused, and the state stays
    /// as it was.
    pub fn write(&mut self, key: &str, value: serde_json::Value) -> (r: Result<(), RuntimeError>)
        ensures
            final(self).address() == old(self).address(),
            final(self).index() == old(self).index(),
            encodable(value) ==> {
                &&& r is Ok
                &&& final(self)@ == doc_write(old(self)@, key@, value)
                &&& doc_read(final(self)@, key@) == Some(value)
                &&& forall|other: Seq<char>|
                    other != key@ ==> #[trigger] doc_read(final(self)@, other) == doc_read(
                        old(self)@,
                        other,
                    )
            },
            !encodable(value) ==> {
                &&& r == Err::<(), RuntimeError>(RuntimeError::SerializationError)
                &&& final(self)@ == old(self)@
            },
    {
        proof {
            use_type_invariant(&*self);
        }
        if value_to_vec(&value).is_err() {
            return Err(RuntimeError::SerializationError);
        }
        let key = key.to_owned();
        let found = self.find(&key);
        let mut members: Vec<Entry> = Vec::new();
        core::mem::swap(&mut self.members, &mut members);
        let ghost before = members_view(members@);
        match found {
            Some(i) => {
                members[i].value = value;
            },
            None => {
                members.push(Entry { key, value });
            },
        }
        proof {
            assert(members_view(members@) =~= doc_write(before, key@, value));
            lemma_write_wf(before, key@, value);
            assert forall|other: Seq<char>|
                doc_read(doc_write(before, key@, value), key@) == Some(value) && (other != key@
                    ==> #[trigger] doc_read(doc_write(before, key@, value), other) == doc_read(
                    before,
                    other,
                )) by {
                lemma_read_after_write(before, key@, value, other);
            }
        }
        core::mem::swap(&mut self.members, &mut members);
        Ok(())
    }

    /// Takes the member under `key` out, and says whether there was one. The
    /// key then reads as absent, and every other key as before.
    pub fn remove(&mut self, key: &str) -> (r: bool)
        ensures
            final(self).address() == old(self).address(),
            final(self).index() == old(self).index(),
            r == has_key(old(self)@, key@),
            final(self)@ == doc_remove(old(self)@, key@),
            !has_key(final(self)@, key@),
            forall|other: Seq<char>|
                other != key@ ==> #[trigger] doc_read(final(self)@, other) == doc_read(
                    old(self)@,
                    other,
                ),
    {
        proof {
            use_type_invariant(&*self);
            lemma_remove_wf(self@, key@);
            assert forall|other: Seq<char>|
                other != key@ implies #[trigger] doc_read(doc_remove(self@, key@), other)
                    == doc_read(self@, other) by {
                lemma_read_after_remove(self@, key@, other);
            }
        }
        let key = key.to_owned();
        match self.find(&key) {
            Some(i) => {
                let mut members: Vec<Entry> = Vec::new();
                core::mem::swap(&mut self.members, &mut members);
                let ghost before = members_view(members@);
                members.remove(i);
                assert(members_view(members@) =~= doc_remove(before, key@));
                core::mem::swap(&mut self.members, &mut members);
                true
            },
            None => false,
        }
    }

    /// Records `index` as the sequence index of the last delta that went
    /// into the state.
    pub fn set_delta_index(&mut self, index: u32)
        ensures
            final(self).address() == old(self).address(),
            final(self)@ == old(self)@,
            final(self).index() == index,
    {
        proof {
            use_type_invariant(&*self);
        }
        self.delta_index = index;
    }
}

} // verus!
