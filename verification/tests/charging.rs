use canister_sandbox::charger::{
    num_instructions_from_bytes, settle, ChargeFailure, MemoryCharger, SubnetType,
};
use canister_sandbox::counter::{
    get_num_instructions, instructions_consumed, new_counter, set_num_instructions,
};
use canister_sandbox::error::HypervisorError;
use wasmtime::{AsContextMut, Engine, Global, GlobalType, Mutability, Store, Val, ValType};

const MAX_NUM_INSTRUCTIONS: i64 = 1_000_000_000;
const BYTES_PER_INSTRUCTION: usize = 1;

fn fresh_store() -> Store<()> {
    Store::new(&Engine::default(), ())
}

/// The payload of the call: four bytes of address, then the data.
fn payload_of(data_size: usize) -> Vec<u8> {
    let dst: u32 = 0;
    let mut payload: Vec<u8> = dst.to_le_bytes().to_vec();
    payload.extend((0..data_size).map(|i| (i % 251) as u8));
    payload
}

/// What a call consumes that copies its payload into the guest's memory in two
/// steps, the address first and the data after it.
fn get_num_instructions_consumed(
    payload: Vec<u8>,
    max_num_instructions: i64,
    subnet_type: SubnetType,
) -> Result<i128, HypervisorError> {
    let mut store = fresh_store();
    let counter = new_counter(&mut store.as_context_mut(), 0).unwrap();
    assert!(set_num_instructions(&mut store.as_context_mut(), &counter, max_num_instructions));
    let charger = MemoryCharger::new(subnet_type, Some(counter));
    charger.charge_for_memory_used(&mut store.as_context_mut(), 4).map_err(|failure| failure.error())?;
    charger
        .charge_for_memory_used(&mut store.as_context_mut(), (payload.len() - 4) as u64)
        .map_err(|failure| failure.error())?;
    let left = get_num_instructions(&mut store.as_context_mut(), &counter).unwrap();
    assert!(left >= 0);
    Ok(instructions_consumed(max_num_instructions, left))
}

#[test]
fn test_running_out_of_instructions() {
    let subnet_type = SubnetType::Application;
    let payload = payload_of(60_000);

    // Set maximum number of instructions to some low value to trap
    let max_num_instructions = 100;

    // Consumes less than max_num_instructions.
    let instructions_consumed_without_data =
        get_num_instructions_consumed(payload_of(0), max_num_instructions, subnet_type).unwrap();
    assert!(instructions_consumed_without_data > 0);

    // Exceeds the maximum amount of instructions.
    assert_eq!(
        get_num_instructions_consumed(payload, max_num_instructions, subnet_type),
        Err(HypervisorError::OutOfInstructions)
    )
}

#[test]
fn test_proportional_instructions_consumption_to_data_size() {
    let subnet_type = SubnetType::Application;
    let payload = payload_of(60_000);
    let payload_size = payload.len() - 4;
    let double_size_payload = payload_of(2 * 60_000);

    let instructions_consumed_without_data =
        get_num_instructions_consumed(payload_of(0), MAX_NUM_INSTRUCTIONS, subnet_type).unwrap();

    {
        // Number of instructions consumed only for copying the payload.
        let consumed_instructions =
            get_num_instructions_consumed(payload, MAX_NUM_INSTRUCTIONS, subnet_type).unwrap()
                - instructions_consumed_without_data;
        assert_eq!(consumed_instructions, (payload_size / BYTES_PER_INSTRUCTION) as i128);
    }

    {
        // Number of instructions consumed increased with the size of the data.
        let consumed_instructions =
            get_num_instructions_consumed(double_size_payload, MAX_NUM_INSTRUCTIONS, subnet_type)
                .unwrap()
                - instructions_consumed_without_data;
        assert_eq!(consumed_instructions, (2 * payload_size / BYTES_PER_INSTRUCTION) as i128);
    }
}

#[test]
fn test_no_instructions_consumption_based_on_data_size_on_system_subnet() {
    let subnet_type = SubnetType::System;
    let payload = payload_of(60_000);
    let double_size_payload = payload_of(2 * 60_000);

    let instructions_consumed_without_data =
        get_num_instructions_consumed(payload_of(0), MAX_NUM_INSTRUCTIONS, subnet_type).unwrap();

    {
        // Number of instructions consumed for copying the payload is zero.
        let consumed_instructions =
            get_num_instructions_consumed(payload, MAX_NUM_INSTRUCTIONS, subnet_type).unwrap()
                - instructions_consumed_without_data;
        assert_eq!(consumed_instructions, 0);
    }

    {
        // Number of instructions consumed for copying the payload is zero.
        let consumed_instructions =
            get_num_instructions_consumed(double_size_payload, MAX_NUM_INSTRUCTIONS, subnet_type)
                .unwrap()
                - instructions_consumed_without_data;
        assert_eq!(consumed_instructions, 0);
    }
}

#[test]
fn copy_of_100_bytes_costs_100_instructions_on_an_application_subnet() {
    assert_eq!(num_instructions_from_bytes(SubnetType::Application, 100), 100);
    assert_eq!(num_instructions_from_bytes(SubnetType::System, 100), 0);
    assert_eq!(num_instructions_from_bytes(SubnetType::Application, 0), 0);
    assert_eq!(num_instructions_from_bytes(SubnetType::Application, u64::MAX), u64::MAX);

    let mut store = fresh_store();
    let counter = new_counter(&mut store.as_context_mut(), 1_000).unwrap();
    let application = MemoryCharger::new(SubnetType::Application, Some(counter));
    assert_eq!(application.fee(100), 100);
    assert_eq!(application.charge_for_memory_used(&mut store.as_context_mut(), 100), Ok(()));
    assert_eq!(get_num_instructions(&mut store.as_context_mut(), &counter), Some(900));
    let system = MemoryCharger::new(SubnetType::System, Some(counter));
    assert_eq!(system.fee(100), 0);
    assert_eq!(system.charge_for_memory_used(&mut store.as_context_mut(), 100), Ok(()));
    assert_eq!(get_num_instructions(&mut store.as_context_mut(), &counter), Some(900));
}

#[test]
fn budget_of_100_does_not_pay_for_more() {
    let mut store = fresh_store();
    let counter = new_counter(&mut store.as_context_mut(), 0).unwrap();
    assert!(set_num_instructions(&mut store.as_context_mut(), &counter, 100));
    let charger = MemoryCharger::new(SubnetType::Application, Some(counter));
    let refused = charger.charge_for_memory_used(&mut store.as_context_mut(), 101);
    assert_eq!(refused, Err(ChargeFailure::RanOut { current: 100, fee: 101 }));
    assert_eq!(refused.unwrap_err().error(), HypervisorError::OutOfInstructions);
    assert_eq!(get_num_instructions(&mut store.as_context_mut(), &counter), Some(100));
    // the whole budget can be spent, and then nothing more
    assert_eq!(charger.charge_for_memory_used(&mut store.as_context_mut(), 100), Ok(()));
    assert_eq!(get_num_instructions(&mut store.as_context_mut(), &counter), Some(0));
    assert_eq!(charger.charge_for_memory_used(&mut store.as_context_mut(), 0), Ok(()));
    assert_eq!(
        charger.charge_for_memory_used(&mut store.as_context_mut(), 1),
        Err(ChargeFailure::RanOut { current: 0, fee: 1 })
    );
    assert_eq!(get_num_instructions(&mut store.as_context_mut(), &counter), Some(0));
}

#[test]
fn settle_pays_in_full_or_not_at_all() {
    assert_eq!(settle(Some(100), 100), Ok(0));
    assert_eq!(settle(Some(100), 30), Ok(70));
    assert_eq!(settle(Some(i64::MAX), i64::MAX as u64), Ok(0));
    assert_eq!(
        settle(Some(i64::MAX), i64::MAX as u64 + 1),
        Err(ChargeFailure::RanOut { current: i64::MAX, fee: i64::MAX as u64 + 1 })
    );
    assert_eq!(
        settle(Some(5), u64::MAX),
        Err(ChargeFailure::RanOut { current: 5, fee: u64::MAX })
    );
    // a budget that is already overdrawn pays for nothing, not even for no bytes
    assert_eq!(settle(Some(-1), 0), Err(ChargeFailure::RanOut { current: -1, fee: 0 }));
    assert_eq!(settle(None, 0), Err(ChargeFailure::UnexpectedType));
}

#[test]
fn consumed_is_initial_less_remaining() {
    assert_eq!(instructions_consumed(1_000, 250), 750);
    assert_eq!(instructions_consumed(100, -20), 120);
    assert_eq!(instructions_consumed(i64::MAX, i64::MIN), i64::MAX as i128 - i64::MIN as i128);
}

#[test]
fn a_written_counter_is_read_back() {
    let mut store = fresh_store();
    let counter = new_counter(&mut store.as_context_mut(), 5).unwrap();
    assert_eq!(get_num_instructions(&mut store.as_context_mut(), &counter), Some(5));
    assert!(set_num_instructions(&mut store.as_context_mut(), &counter, -77));
    assert_eq!(get_num_instructions(&mut store.as_context_mut(), &counter), Some(-77));
    let other = new_counter(&mut store.as_context_mut(), 1).unwrap();
    assert_eq!(get_num_instructions(&mut store.as_context_mut(), &other), Some(1));
    assert_eq!(get_num_instructions(&mut store.as_context_mut(), &counter), Some(-77));
}

#[test]
fn a_counter_of_another_type_is_not_read() {
    let mut store = fresh_store();
    for (ty, val) in [
        (ValType::I32, Val::I32(7)),
        (ValType::F32, Val::F32(7)),
        (ValType::F64, Val::F64(7)),
        (ValType::FUNCREF, Val::FuncRef(None)),
    ] {
        let other = Global::new(&mut store, GlobalType::new(ty, Mutability::Var), val).unwrap();
        assert_eq!(get_num_instructions(&mut store.as_context_mut(), &other), None);
        assert!(!set_num_instructions(&mut store.as_context_mut(), &other, 1));
        let charger = MemoryCharger::new(SubnetType::Application, Some(other));
        assert_eq!(
            charger.charge_for_memory_used(&mut store.as_context_mut(), 0),
            Err(ChargeFailure::UnexpectedType)
        );
    }
    let counter = new_counter(&mut store.as_context_mut(), 7).unwrap();
    assert_eq!(get_num_instructions(&mut store.as_context_mut(), &counter), Some(7));
}
