use enigma_runtime::delta::bytes_equal;
use enigma_runtime::errors::RuntimeError;
use enigma_runtime::guest::{decode_text, first_four, first_two};
use enigma_runtime::runtime::{reply_length, Runtime};
use enigma_runtime::state::ContractState;
use wasmi::memory_units::Pages;
use wasmi::{MemoryInstance, RuntimeArgs, RuntimeValue};

#[test]
fn bytes_equal_compares_length_and_content() {
    assert!(bytes_equal(b"", b""));
    assert!(bytes_equal(b"null", b"null"));
    assert!(!bytes_equal(b"null", b"nul"));
    assert!(!bytes_equal(b"nul", b"null"));
    assert!(!bytes_equal(b"1.0", b"1.1"));
    assert!(!bytes_equal(b"", b"0"));
}

#[test]
fn decode_text_accepts_utf8_only() {
    assert_eq!(decode_text(b""), Some(String::new()));
    assert_eq!(decode_text(b"counter"), Some("counter".to_string()));
    assert_eq!(decode_text("ключ €".as_bytes()), Some("ключ €".to_string()));
    assert_eq!(decode_text(&[0xf0, 0x9f, 0x98, 0x80]), Some("😀".to_string()));
    assert_eq!(decode_text(&[0xff]), None);
    assert_eq!(decode_text(&[0xc0, 0x80]), None);
    assert_eq!(decode_text(&[0xed, 0xa0, 0x80]), None);
    assert_eq!(decode_text(&[b'a', 0xe2, 0x82]), None);
}

#[test]
fn reply_length_is_the_length() {
    assert_eq!(reply_length(b""), Ok(0));
    assert_eq!(reply_length(b"null"), Ok(4));
    assert_eq!(reply_length(&[0u8; 70000]), Ok(70000));
}

#[test]
fn arguments_are_taken_by_position() {
    let vals = [
        RuntimeValue::I32(1),
        RuntimeValue::I32(-2),
        RuntimeValue::I32(i32::MAX),
        RuntimeValue::I32(i32::MIN),
        RuntimeValue::I32(5),
    ];
    assert_eq!(first_two(&RuntimeArgs::from(&vals[..])), Some((1, 0xffff_fffe)));
    assert_eq!(
        first_four(&RuntimeArgs::from(&vals[..])),
        Some((1, 0xffff_fffe, 0x7fff_ffff, 0x8000_0000))
    );
    assert_eq!(first_two(&RuntimeArgs::from(&vals[..1])), None);
    assert_eq!(first_four(&RuntimeArgs::from(&vals[..3])), None);
    assert_eq!(first_two(&RuntimeArgs::from(&vals[..2])), Some((1, 0xffff_fffe)));
}

#[test]
fn arguments_of_other_types_are_none() {
    let long_second = [RuntimeValue::I32(1), RuntimeValue::I64(2)];
    assert_eq!(first_two(&RuntimeArgs::from(&long_second[..])), None);
    let long_first = [RuntimeValue::I64(1), RuntimeValue::I32(2)];
    assert_eq!(first_two(&RuntimeArgs::from(&long_first[..])), None);
    let long_last = [
        RuntimeValue::I32(1),
        RuntimeValue::I32(2),
        RuntimeValue::I32(3),
        RuntimeValue::I64(4),
    ];
    assert_eq!(first_four(&RuntimeArgs::from(&long_last[..])), None);
    assert_eq!(first_two(&RuntimeArgs::from(&long_last[..])), Some((1, 2)));
}

#[test]
fn context_keeps_arguments_and_address() {
    let mem = MemoryInstance::alloc(Pages(1), None).unwrap();
    let rt = Runtime::new(mem, vec![9, 8, 7], [5u8; 32]);
    assert_eq!(rt.args(), &vec![9u8, 8, 7]);
    assert_eq!(rt.contract_id(), [5u8; 32]);
    assert_eq!(rt.failed(), None);

    let mem = MemoryInstance::alloc(Pages(1), None).unwrap();
    let rt = Runtime::new_with_state(mem, Vec::new(), ContractState::new([6u8; 32]));
    assert_eq!(rt.contract_id(), [6u8; 32]);
    assert!(rt.args().is_empty());
}

#[test]
fn fresh_context_ends_with_an_empty_result() {
    let mem = MemoryInstance::alloc(Pages(1), None).unwrap();
    let rt = Runtime::new(mem, vec![1], [5u8; 32]);
    let outcome = rt.into_result().unwrap();
    assert!(outcome.result.is_empty());
    let delta = outcome.state_delta.unwrap();
    assert_eq!((delta.contract_id, delta.index, delta.ops.len()), ([5u8; 32], 1, 0));
    let updated = outcome.updated_state.unwrap();
    assert!(updated.entries().is_empty());
    assert_eq!(updated.delta_index(), 1);
}

#[test]
fn errors_are_told_apart() {
    let all = [
        RuntimeError::ArgumentError,
        RuntimeError::MemoryAccessError,
        RuntimeError::Utf8Error,
        RuntimeError::SerializationError,
        RuntimeError::DeserializationError,
        RuntimeError::DeltaGenerationError,
        RuntimeError::DeltaApplicationError,
    ];
    for (i, a) in all.iter().enumerate() {
        for (j, b) in all.iter().enumerate() {
            assert_eq!(a == b, i == j);
        }
    }
}

#[test]
fn context_shows_its_states_and_payload() {
    let mem = MemoryInstance::alloc(Pages(1), None).unwrap();
    mem.set(100, b"k").unwrap();
    mem.set(200, b"7").unwrap();
    let mut state = ContractState::new([2u8; 32]);
    state.write("a", serde_json::Value::from(1)).unwrap();
    let mut rt = Runtime::new_with_state(mem, Vec::new(), state.clone());
    assert_eq!(rt.initial_state(), &state);
    assert_eq!(rt.current_state(), &state);
    assert!(rt.staged_result().is_empty());

    let w = [
        RuntimeValue::I32(100),
        RuntimeValue::I32(1),
        RuntimeValue::I32(200),
        RuntimeValue::I32(1),
    ];
    assert_eq!(rt.write_state(RuntimeArgs::from(&w[..])), Ok(()));
    let t = [RuntimeValue::I32(200), RuntimeValue::I32(1)];
    assert_eq!(rt.ret(RuntimeArgs::from(&t[..])), Ok(()));

    assert_eq!(rt.initial_state(), &state);
    assert_eq!(rt.current_state().read("k"), serde_json::Value::from(7));
    assert_eq!(rt.current_state().read("a"), serde_json::Value::from(1));
    assert_eq!(rt.current_state().entries().len(), 2);
    assert_eq!(rt.staged_result(), &b"7".to_vec());
}
