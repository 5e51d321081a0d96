use enigma_runtime::store::{
    after_lookup, after_put, first_step, CRUDInterface, CrudOp, DBErr, DBErrKind, StoreStep,
};
use std::collections::BTreeMap;

fn failed(command: &str, kind: DBErrKind) -> DBErr {
    DBErr { command: command.to_string(), kind }
}

#[test]
fn only_force_update_writes_without_a_lookup() {
    assert_eq!(first_step(CrudOp::Create), StoreStep::Get);
    assert_eq!(first_step(CrudOp::Read), StoreStep::Get);
    assert_eq!(first_step(CrudOp::Update), StoreStep::Get);
    assert_eq!(first_step(CrudOp::Delete), StoreStep::Get);
    assert_eq!(first_step(CrudOp::ForceUpdate), StoreStep::Put);
}

#[test]
fn create_needs_a_new_key() {
    assert_eq!(after_lookup(CrudOp::Create, None), Ok(StoreStep::Put));
    assert_eq!(
        after_lookup(CrudOp::Create, Some(b"Enigma".to_vec())),
        Err(failed("create", DBErrKind::KeyExists))
    );
    assert_eq!(
        after_lookup(CrudOp::Create, Some(Vec::new())),
        Err(failed("create", DBErrKind::KeyExists))
    );
}

#[test]
fn read_update_delete_need_the_key() {
    assert_eq!(
        after_lookup(CrudOp::Read, Some(b"Enigma".to_vec())),
        Ok(StoreStep::Finish(b"Enigma".to_vec()))
    );
    assert_eq!(after_lookup(CrudOp::Read, None), Err(failed("get", DBErrKind::MissingKey)));
    assert_eq!(after_lookup(CrudOp::Update, Some(b"Enigma".to_vec())), Ok(StoreStep::Put));
    assert_eq!(after_lookup(CrudOp::Update, None), Err(failed("update", DBErrKind::MissingKey)));
    assert_eq!(after_lookup(CrudOp::Delete, Some(b"Enigma".to_vec())), Ok(StoreStep::Erase));
    assert_eq!(after_lookup(CrudOp::Delete, None), Err(failed("delete", DBErrKind::MissingKey)));
}

#[test]
fn force_update_writes_either_way() {
    assert_eq!(after_lookup(CrudOp::ForceUpdate, None), Ok(StoreStep::Put));
    assert_eq!(after_lookup(CrudOp::ForceUpdate, Some(b"MPC".to_vec())), Ok(StoreStep::Put));
}

#[test]
fn refused_writes_are_named_by_the_operation() {
    assert_eq!(after_put(CrudOp::Create, true), Ok(()));
    assert_eq!(after_put(CrudOp::Update, true), Ok(()));
    assert_eq!(after_put(CrudOp::ForceUpdate, true), Ok(()));
    assert_eq!(after_put(CrudOp::Create, false), Err(failed("create", DBErrKind::CreateError)));
    assert_eq!(after_put(CrudOp::Update, false), Err(failed("update", DBErrKind::UpdateError)));
    assert_eq!(
        after_put(CrudOp::ForceUpdate, false),
        Err(failed("update", DBErrKind::UpdateError))
    );
}

/// A store in memory that goes by the rules of the library.
struct MemStore(BTreeMap<[u8; 32], Vec<u8>>);

impl MemStore {
    fn run(&mut self, op: CrudOp, key: [u8; 32], value: &[u8]) -> Result<Vec<u8>, DBErr> {
        let mut step = first_step(op);
        if step == StoreStep::Get {
            step = after_lookup(op, self.0.get(&key).cloned())?;
        }
        match step {
            StoreStep::Put => {
                self.0.insert(key, value.to_vec());
                after_put(op, true).map(|_| Vec::new())
            }
            StoreStep::Erase => {
                self.0.remove(&key);
                Ok(Vec::new())
            }
            StoreStep::Finish(data) => Ok(data),
            StoreStep::Get => unreachable!(),
        }
    }
}

impl<'a> CRUDInterface<DBErr, &'a [u8; 32], Vec<u8>, &'a [u8]> for MemStore {
    fn create(&mut self, key: &'a [u8; 32], value: &'a [u8]) -> Result<(), DBErr> {
        self.run(CrudOp::Create, *key, value).map(|_| ())
    }

    fn read(&mut self, key: &'a [u8; 32]) -> Result<Vec<u8>, DBErr> {
        self.run(CrudOp::Read, *key, &[])
    }

    fn update(&mut self, key: &'a [u8; 32], value: &'a [u8]) -> Result<(), DBErr> {
        self.run(CrudOp::Update, *key, value).map(|_| ())
    }

    fn delete(&mut self, key: &'a [u8; 32]) -> Result<(), DBErr> {
        self.run(CrudOp::Delete, *key, &[]).map(|_| ())
    }

    fn force_update(&mut self, key: &'a [u8; 32], value: &'a [u8]) -> Result<(), DBErr> {
        self.run(CrudOp::ForceUpdate, *key, value).map(|_| ())
    }
}

fn new_db() -> MemStore {
    MemStore(BTreeMap::new())
}

#[test]
fn test_create_read() {
    let mut db = new_db();
    let mut arr = [0u8; 32];
    arr[0..3].clone_from_slice(&[1, 2, 3]);
    let v = b"Enigma";
    db.create(&arr, &v[..]).unwrap();
    assert_eq!(db.read(&arr).unwrap(), v);
}

#[test]
fn test_create_update_read() {
    let mut db = new_db();
    let mut arr = [0u8; 32];
    arr[0..3].clone_from_slice(&[1, 2, 3]);
    let v = b"Enigma";
    db.create(&arr, &v[..]).unwrap();
    assert_eq!(db.read(&arr).unwrap(), v);
    let v = b"MPC";
    db.update(&arr, &v[..]).unwrap();
    assert_eq!(db.read(&arr).unwrap(), v);
}

#[test]
fn test_create_delete() {
    let mut db = new_db();
    let mut arr = [0u8; 32];
    arr[0..3].clone_from_slice(&[1, 2, 3]);
    let v = b"Enigma";
    db.create(&arr, &v[..]).unwrap();
    db.delete(&arr).unwrap();
}

#[test]
#[should_panic]
fn test_create_read_delete_fail_reading() {
    let mut db = new_db();
    let mut arr = [0u8; 32];
    arr[0..3].clone_from_slice(&[1, 2, 3]);
    let v = b"Enigma";
    db.create(&arr, &v[..]).unwrap();
    assert_eq!(db.read(&arr).unwrap(), v);
    db.delete(&arr).unwrap();
    db.read(&arr).unwrap();
}

#[test]
#[should_panic]
fn test_fail_reading() {
    let mut db = new_db();
    let mut arr = [0u8; 32];
    arr[0..3].clone_from_slice(&[1, 2, 3]);
    db.read(&arr).unwrap();
}

#[test]
#[should_panic]
fn test_fail_updating() {
    let mut db = new_db();
    let mut arr = [0u8; 32];
    arr[0..3].clone_from_slice(&[1, 2, 3]);
    db.update(&arr, b"Enigma").unwrap();
}

#[test]
#[should_panic]
fn test_fail_deleting() {
    let mut db = new_db();
    let mut arr = [0u8; 32];
    arr[0..3].clone_from_slice(&[1, 2, 3]);
    db.delete(&arr).unwrap();
}

#[test]
#[should_panic]
fn test_fail_creating_exist() {
    let mut db = new_db();
    let mut arr = [0u8; 32];
    arr[0..3].clone_from_slice(&[1, 2, 3]);
    let v = b"Enigma";
    db.create(&arr, v).unwrap();
    assert_eq!(db.read(&arr).unwrap(), v);
    db.create(&arr, v).unwrap();
}

#[test]
fn each_failure_has_its_kind() {
    let mut db = new_db();
    let key = [7u8; 32];
    assert_eq!(db.read(&key), Err(failed("get", DBErrKind::MissingKey)));
    assert_eq!(db.update(&key, b"Enigma"), Err(failed("update", DBErrKind::MissingKey)));
    assert_eq!(db.delete(&key), Err(failed("delete", DBErrKind::MissingKey)));
    db.create(&key, b"Enigma").unwrap();
    assert_eq!(db.create(&key, b"Enigma"), Err(failed("create", DBErrKind::KeyExists)));
    db.delete(&key).unwrap();
    assert_eq!(db.read(&key), Err(failed("get", DBErrKind::MissingKey)));
}

#[test]
fn force_update_upserts() {
    let mut db = new_db();
    let key = [7u8; 32];
    db.force_update(&key, b"Enigma").unwrap();
    assert_eq!(db.read(&key).unwrap(), b"Enigma");
    db.force_update(&key, b"MPC").unwrap();
    assert_eq!(db.read(&key).unwrap(), b"MPC");
}
