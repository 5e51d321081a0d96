//! The interface of the persistent key-value store, and the rules of its
//! operations: which of them need the key to be there, which need it not to
//! be, and what each failure is called. The store itself is reached from
//! outside this library; these rules say what to do with what it answers.

use vstd::prelude::*;

verus! {

/// The operations of a key-value store. `create` is for a key that is not
/// there yet, `update` and `delete` are for one that is, and `force_update`
/// writes in either case.
pub trait CRUDInterface<E, K, T, V> {
    /// Stores a value under a new key.
    fn create(&mut self, key: K, value: V) -> Result<(), E>;

    /// The value under a key.
    fn read(&mut self, key: K) -> Result<T, E>;

    /// Stores a new value under a key that has one.
    fn update(&mut self, key: K, value: V) -> Result<(), E>;

    /// Takes a key and its value out.
    fn delete(&mut self, key: K) -> Result<(), E>;

    /// Stores a value under a key, whether it has one or not.
    fn force_update(&mut self, key: K, value: V) -> Result<(), E>;
}

/// One of the operations of the store.
#[derive(Debug, Clone, Copy, PartialEq, Eq, Structural)]
pub enum CrudOp {
    Create,
    Read,
    Update,
    Delete,
    ForceUpdate,
}

/// Why an operation of the store failed.
#[derive(Debug, Clone, Copy, PartialEq, Eq, Structural)]
pub enum DBErrKind {
    /// The key to create is there already.
    KeyExists,
    /// The store did not take the new key.
    CreateError,
    /// The key to read, update or delete is not there.
    MissingKey,
    /// The store did not take the new value.
    UpdateError,
}

/// A failed operation of the store: the command it is reported under, and
/// why it failed.
#[derive(Debug, PartialEq)]
pub struct DBErr {
    pub command: String,
    pub kind: DBErrKind,
}

/// What to ask of the store next.
#[derive(Debug, PartialEq)]
pub enum StoreStep {
    /// Look the key up.
    Get,
    /// Write the value under the key.
    Put,
    /// Take the key out.
    Erase,
    /// Nothing: the operation is done, and this is what was read.
    Finish(Vec<u8>),
}

/// The command that a failure of `op` is reported under.
pub open spec fn command_of(op: CrudOp) -> Seq<char> {
    match op {
        CrudOp::Create => "create"@,
        CrudOp::Read => "get"@,
        CrudOp::Update => "update"@,
        CrudOp::Delete => "delete"@,
        CrudOp::ForceUpdate => "update"@,
    }
}

/// Whether `op` goes on after a lookup that found the key (`found`) or did
/// not.
pub open spec fn lookup_allows(op: CrudOp, found: bool) -> bool {
    match op {
        CrudOp::Create => !found,
        CrudOp::Read => found,
        CrudOp::Update => found,
        CrudOp::Delete => found,
        CrudOp::ForceUpdate => true,
    }
}

/// How the failure of `op` at the lookup is called.
pub open spec fn lookup_failure(op: CrudOp) -> DBErrKind {
    match op {
        CrudOp::Create => DBErrKind::KeyExists,
        _ => DBErrKind::MissingKey,
    }
}

/// How the failure of `op` at the write is called.
pub open spec fn write_failure(op: CrudOp) -> DBErrKind {
    match op {
        CrudOp::Create => DBErrKind::CreateError,
        _ => DBErrKind::UpdateError,
    }
}

/// The name of the command of `op`.
fn command_name(op: CrudOp) -> (r: String)
    ensures
        r@ == command_of(op),
{
    match op {
        CrudOp::Create => "create".to_owned(),
        CrudOp::Read => "get".to_owned(),
        CrudOp::Update => "update".to_owned(),
        CrudOp::Delete => "delete".to_owned(),
        CrudOp::ForceUpdate => "update".to_owned(),
    }
}

/// What `op` asks of the store first: `force_update` writes at once, every
/// other operation looks the key up.
pub fn first_step(op: CrudOp) -> (r: StoreStep)
    ensures
        op == CrudOp::ForceUpdate ==> r is Put,
        op != CrudOp::ForceUpdate ==> r is Get,
{
    match op {
        CrudOp::ForceUpdate => StoreStep::Put,
        _ => StoreStep::Get,
    }
}

/// What `op` does once the store has answered the lookup with `found`.
/// `create` fails on a key that is there, and writes otherwise; `read`,
/// `update` and `delete` fail on a key that is not there, and otherwise
/// finish with the value, write, and erase.
pub fn after_lookup(op: CrudOp, found: Option<Vec<u8>>) -> (r: Result<StoreStep, DBErr>)
    ensures
        lookup_allows(op, found is Some) <==> r is Ok,
        r matches Ok(step) ==> match op {
            CrudOp::Read => step matches StoreStep::Finish(data) && Some(data) == found,
            CrudOp::Delete => step is Erase,
            _ => step is Put,
        },
        r matches Err(e) ==> e.kind == lookup_failure(op) && e.command@ == command_of(op),
{
    match op {
        CrudOp::Create => match found {
            Some(_) => Err(DBErr { command: command_name(op), kind: DBErrKind::KeyExists }),
            None => Ok(StoreStep::Put),
        },
        CrudOp::Read => match found {
            Some(data) => Ok(StoreStep::Finish(data)),
            None => Err(DBErr { command: command_name(op), kind: DBErrKind::MissingKey }),
        },
        CrudOp::Update => match found {
            Some(_) => Ok(StoreStep::Put),
            None => Err(DBErr { command: command_name(op), kind: DBErrKind::MissingKey }),
        },
        CrudOp::Delete => match found {
            Some(_) => Ok(StoreStep::Erase),
            None => Err(DBErr { command: command_name(op), kind: DBErrKind::MissingKey }),
        },
        CrudOp::ForceUpdate => Ok(StoreStep::Put),
    }
}

/// What comes of `op` once the store has taken the write (`stored`) or
/// refused it: a refused write of `create` is a `CreateError`, one of
/// `update` or `force_update` an `UpdateError`.
pub fn after_put(op: CrudOp, stored: bool) -> (r: Result<(), DBErr>)
    ensures
        stored <==> r is Ok,
        r matches Err(e) ==> e.kind == write_failure(op) && e.command@ == command_of(op),
{
    if stored {
        Ok(())
    } else {
        let kind = match op {
            CrudOp::Create => DBErrKind::CreateError,
            _ => DBErrKind::UpdateError,
        };
        Err(DBErr { command: command_name(op), kind })
    }
}

} // verus!
