use canister_sandbox::abi::{ApiCall, ReplyKind, Syscall};
use canister_sandbox::charger::{ChargeFailure, MemoryCharger, SubnetType};
use canister_sandbox::counter::{get_num_instructions, new_counter};
use canister_sandbox::dispatch::{
    begin, complete, get_memory, process_err, Anomaly, ApiValue, GuestValue, MemoryExport, Step,
};
use canister_sandbox::error::HypervisorError;
use canister_sandbox::handle::SystemApiHandle;
use wasmtime::{AsContextMut, Engine, Global, GlobalType, Mutability, Store, Val, ValType};

const OUT_OF_INSTRUCTIONS_TEXT: &str =
    "Canister exceeded the instructions limit for single message execution.";

fn fresh_store() -> Store<()> {
    Store::new(&Engine::default(), ())
}

fn aborted_with(step: Step) -> canister_sandbox::dispatch::Trap {
    match step {
        Step::Abort(trap) => trap,
        Step::Call(call) => panic!("the call went on: {:?}", call),
    }
}

#[test]
fn names_and_namespaces() {
    let copy = Syscall::MsgArgDataCopy { dst: 0, offset: 4, size: 8 };
    assert_eq!((copy.module(), copy.name()), ("ic0", "msg_arg_data_copy"));
    assert_eq!(
        (Syscall::OutOfInstructions.module(), Syscall::OutOfInstructions.name()),
        ("__", "out_of_instructions")
    );
    let grow = Syscall::UpdateAvailableMemory { native_memory_grow_res: -1, additional_pages: 1 };
    assert_eq!((grow.module(), grow.name()), ("__", "update_available_memory"));
    assert_eq!(Syscall::Stable64Size.name(), "stable64_size");
}

#[test]
fn arguments_are_read_as_unsigned_words() {
    let call = Syscall::MsgCallerCopy { dst: -1, offset: i32::MIN, size: 5 }.api_call();
    assert_eq!(
        call,
        ApiCall::MsgCallerCopy { dst: u32::MAX, offset: 0x8000_0000, size: 5 }
    );
    assert_eq!(
        Syscall::Stable64Grow { additional_pages: -2 }.api_call(),
        ApiCall::Stable64Grow { additional_pages: u64::MAX - 1 }
    );
    assert_eq!(
        Syscall::CallCyclesAdd128 { amount_high: 1, amount_low: -1 }.api_call(),
        ApiCall::CallCyclesAdd128 { amount: (1u128 << 64) | u64::MAX as u128 }
    );
    assert_eq!(
        Syscall::MsgCyclesAccept128 { amount_high: -1, amount_low: 0 }.api_call(),
        ApiCall::MsgCyclesAccept128 { amount: (u64::MAX as u128) << 64 }
    );
    assert_eq!(
        Syscall::UpdateAvailableMemory { native_memory_grow_res: -1, additional_pages: -1 }
            .api_call(),
        ApiCall::UpdateAvailableMemory { native_memory_grow_res: -1, additional_pages: u32::MAX }
    );
}

#[test]
fn charged_and_free_calls() {
    let charged = [
        ApiCall::MsgArgDataCopy { dst: 0, offset: 0, size: 9 },
        ApiCall::MsgMethodNameCopy { dst: 0, offset: 0, size: 9 },
        ApiCall::MsgReplyDataAppend { src: 0, size: 9 },
        ApiCall::MsgReject { src: 0, size: 9 },
        ApiCall::MsgRejectMsgCopy { dst: 0, offset: 0, size: 9 },
        ApiCall::DebugPrint { offset: 0, length: 9 },
        ApiCall::Trap { offset: 0, length: 9 },
        ApiCall::CallDataAppend { src: 0, size: 9 },
        ApiCall::StableRead { dst: 0, offset: 0, size: 9 },
        ApiCall::StableWrite { offset: 0, src: 0, size: 9 },
        ApiCall::Stable64Read { dst: 0, offset: 0, size: 9 },
        ApiCall::Stable64Write { offset: 0, src: 0, size: 9 },
    ];
    for call in charged {
        assert_eq!(call.charged_bytes(), Some(9), "{:?}", call);
        assert!(call.touches_memory());
    }
    let free = [
        ApiCall::MsgCallerCopy { dst: 0, offset: 0, size: 9 },
        ApiCall::CanisterSelfCopy { dst: 0, offset: 0, size: 9 },
        ApiCall::ControllerCopy { dst: 0, offset: 0, size: 9 },
        ApiCall::CertifiedDataSet { src: 0, size: 9 },
        ApiCall::DataCertificateCopy { dst: 0, offset: 0, size: 9 },
    ];
    for call in free {
        assert_eq!(call.charged_bytes(), None, "{:?}", call);
        assert!(call.touches_memory());
    }
    assert!(!ApiCall::MsgReply.touches_memory());
    assert_eq!(ApiCall::CallCyclesAdd { amount: 5 }.charged_bytes(), None);
}

#[test]
fn ranges_are_checked_against_the_memory() {
    let call = ApiCall::CallSimple {
        callee_src: 0,
        callee_size: 10,
        name_src: 10,
        name_len: 5,
        reply_fun: 0,
        reply_env: 0,
        reject_fun: 0,
        reject_env: 0,
        src: 100,
        len: 28,
    };
    assert!(call.fits_memory(128));
    assert!(!call.fits_memory(127));
    assert!(ApiCall::StableWrite { offset: u32::MAX, src: 0, size: 0 }.fits_memory(0));
    assert!(!ApiCall::Stable64Read { dst: u64::MAX, offset: 0, size: 1 }.fits_memory(usize::MAX));
    assert!(ApiCall::MsgReply.fits_memory(0));
    assert_eq!(get_memory(&call, MemoryExport::Memory { size: 128 }), Ok(()));
    assert_eq!(
        get_memory(&call, MemoryExport::Memory { size: 127 }),
        Err(HypervisorError::ContractViolation("memory access out of bounds".to_string()))
    );
    assert_eq!(
        get_memory(&call, MemoryExport::Missing),
        Err(HypervisorError::ContractViolation(
            "WebAssembly module must define memory".to_string()
        ))
    );
    assert_eq!(
        get_memory(&call, MemoryExport::NotMemory),
        Err(HypervisorError::ContractViolation("export 'memory' is not a memory".to_string()))
    );
    assert_eq!(get_memory(&ApiCall::MsgReply, MemoryExport::Missing), Ok(()));
}

#[test]
fn begin_charges_before_the_capability_is_asked() {
    let mut store = fresh_store();
    let counter = new_counter(&mut store.as_context_mut(), 150).unwrap();
    let charger = MemoryCharger::new(SubnetType::Application, Some(counter));
    let memory = MemoryExport::Memory { size: 65536 };

    let copy = Syscall::MsgArgDataCopy { dst: 16, offset: 0, size: 100 };
    assert_eq!(
        begin(&copy, memory, &charger, &mut store.as_context_mut()),
        Step::Call(ApiCall::MsgArgDataCopy { dst: 16, offset: 0, size: 100 })
    );
    assert_eq!(get_num_instructions(&mut store.as_context_mut(), &counter), Some(50));

    // what cannot be paid is not asked of the capability, and nothing is taken
    let trap = aborted_with(begin(&copy, memory, &charger, &mut store.as_context_mut()));
    assert_eq!(trap.error, Some(HypervisorError::OutOfInstructions));
    assert_eq!(trap.message, OUT_OF_INSTRUCTIONS_TEXT);
    assert_eq!(trap.anomaly, None);
    assert_eq!(get_num_instructions(&mut store.as_context_mut(), &counter), Some(50));

    // a call that is free of charge goes on with an empty budget too
    let free = Syscall::MsgCallerCopy { dst: 0, offset: 0, size: 29 };
    assert_eq!(
        begin(&free, memory, &charger, &mut store.as_context_mut()),
        Step::Call(ApiCall::MsgCallerCopy { dst: 0, offset: 0, size: 29 })
    );
    assert_eq!(
        begin(&Syscall::MsgReply, MemoryExport::Missing, &charger, &mut store.as_context_mut()),
        Step::Call(ApiCall::MsgReply)
    );
    assert_eq!(get_num_instructions(&mut store.as_context_mut(), &counter), Some(50));
}

#[test]
fn begin_checks_the_memory_before_it_charges() {
    let mut store = fresh_store();
    let counter = new_counter(&mut store.as_context_mut(), 1_000).unwrap();
    let charger = MemoryCharger::new(SubnetType::Application, Some(counter));
    let append = Syscall::MsgReplyDataAppend { src: 65530, size: 7 };

    let trap = aborted_with(begin(&append, MemoryExport::Memory { size: 65536 }, &charger, &mut store.as_context_mut()));
    assert_eq!(
        trap.error,
        Some(HypervisorError::ContractViolation("memory access out of bounds".to_string()))
    );
    assert_eq!(trap.message, "Canister violated contract: memory access out of bounds");
    assert_eq!(get_num_instructions(&mut store.as_context_mut(), &counter), Some(1_000));

    let trap = aborted_with(begin(&append, MemoryExport::Missing, &charger, &mut store.as_context_mut()));
    assert_eq!(
        trap.message,
        "Canister violated contract: WebAssembly module must define memory"
    );
    let trap = aborted_with(begin(&append, MemoryExport::NotMemory, &charger, &mut store.as_context_mut()));
    assert_eq!(
        trap.message,
        "Canister violated contract: export 'memory' is not a memory"
    );
    assert_eq!(get_num_instructions(&mut store.as_context_mut(), &counter), Some(1_000));
}

#[test]
fn system_subnet_is_not_charged() {
    let mut store = fresh_store();
    let counter = new_counter(&mut store.as_context_mut(), 10).unwrap();
    let charger = MemoryCharger::new(SubnetType::System, Some(counter));
    let copy = Syscall::MsgArgDataCopy { dst: 0, offset: 0, size: 100 };
    assert_eq!(
        begin(&copy, MemoryExport::Memory { size: 65536 }, &charger, &mut store.as_context_mut()),
        Step::Call(ApiCall::MsgArgDataCopy { dst: 0, offset: 0, size: 100 })
    );
    assert_eq!(get_num_instructions(&mut store.as_context_mut(), &counter), Some(10));
}

#[test]
fn anomalies_of_the_counter_degrade_to_out_of_instructions() {
    let mut store = fresh_store();
    let copy = Syscall::MsgArgDataCopy { dst: 0, offset: 0, size: 1 };
    let memory = MemoryExport::Memory { size: 65536 };

    // no counter at all
    let charger = MemoryCharger::new(SubnetType::Application, None);
    let trap = aborted_with(begin(&copy, memory, &charger, &mut store.as_context_mut()));
    assert_eq!(trap.error, Some(HypervisorError::OutOfInstructions));
    assert_eq!(trap.anomaly, Some(Anomaly::Charge(ChargeFailure::CounterUnavailable)));
    assert_eq!(trap.message, OUT_OF_INSTRUCTIONS_TEXT);

    // a counter of another type
    let word = Global::new(
        &mut store,
        GlobalType::new(ValType::I32, Mutability::Var),
        Val::I32(1_000),
    )
    .unwrap();
    let charger = MemoryCharger::new(SubnetType::Application, Some(word));
    assert_eq!(
        charger.charge_for_memory_used(&mut store.as_context_mut(), 1),
        Err(ChargeFailure::UnexpectedType)
    );
    let trap = aborted_with(begin(&copy, memory, &charger, &mut store.as_context_mut()));
    assert_eq!(trap.error, Some(HypervisorError::OutOfInstructions));
    assert_eq!(trap.anomaly, Some(Anomaly::Charge(ChargeFailure::UnexpectedType)));
    assert_eq!(word.get(&mut store).i32(), Some(1_000));

    // a counter that cannot be written
    let fixed = Global::new(
        &mut store,
        GlobalType::new(ValType::I64, Mutability::Const),
        Val::I64(1_000),
    )
    .unwrap();
    let charger = MemoryCharger::new(SubnetType::Application, Some(fixed));
    assert_eq!(
        charger.charge_for_memory_used(&mut store.as_context_mut(), 1),
        Err(ChargeFailure::UpdateFailed { current: 1_000, updated: 999 })
    );
    assert!(ChargeFailure::UpdateFailed { current: 1_000, updated: 999 }.is_anomaly());
    assert!(!ChargeFailure::RanOut { current: 0, fee: 1 }.is_anomaly());
    assert_eq!(get_num_instructions(&mut store.as_context_mut(), &fixed), Some(1_000));
    // where nothing is to pay the counter is still written
    assert_eq!(
        charger.charge_for_memory_used(&mut store.as_context_mut(), 0),
        Err(ChargeFailure::UpdateFailed { current: 1_000, updated: 1_000 })
    );
}

#[test]
fn complete_converts_sizes_and_amounts() {
    assert_eq!(
        complete(&ApiCall::MsgArgDataSize, Ok(ApiValue::U32(104))),
        Ok(GuestValue::I32(104))
    );
    assert_eq!(
        complete(&ApiCall::StableSize, Ok(ApiValue::U32(i32::MAX as u32))),
        Ok(GuestValue::I32(i32::MAX))
    );
    let trap = complete(&ApiCall::StableSize, Ok(ApiValue::U32(i32::MAX as u32 + 1))).unwrap_err();
    assert_eq!(
        trap.message,
        "ic0_stable_size failed: out of range integral type conversion attempted"
    );
    assert_eq!(trap.error, None);
    assert_eq!(trap.anomaly, None);
    let trap =
        complete(&ApiCall::MsgCallerSize, Ok(ApiValue::U32(u32::MAX))).unwrap_err();
    assert_eq!(
        trap.message,
        "ic0::msg_caller_size failed: out of range integral type conversion attempted"
    );
    assert_eq!(
        complete(&ApiCall::CanisterCycleBalance, Ok(ApiValue::U64(i64::MAX as u64))),
        Ok(GuestValue::I64(i64::MAX))
    );
    let trap = complete(&ApiCall::MintCycles { amount: 1 }, Ok(ApiValue::U64(1 << 63))).unwrap_err();
    assert_eq!(
        trap.message,
        "ic0_mint_cycles failed: out of range integral type conversion attempted"
    );
}

#[test]
fn complete_hands_words_on_as_they_are() {
    assert_eq!(complete(&ApiCall::MsgReply, Ok(ApiValue::Unit)), Ok(GuestValue::Unit));
    assert_eq!(complete(&ApiCall::MsgRejectCode, Ok(ApiValue::I32(-4))), Ok(GuestValue::I32(-4)));
    assert_eq!(
        complete(&ApiCall::CanisterStatus, Ok(ApiValue::U32(u32::MAX))),
        Ok(GuestValue::I32(-1))
    );
    assert_eq!(complete(&ApiCall::Time, Ok(ApiValue::U64(u64::MAX))), Ok(GuestValue::I64(-1)));
    assert_eq!(
        complete(&ApiCall::Stable64Grow { additional_pages: 1 }, Ok(ApiValue::I64(-1))),
        Ok(GuestValue::I64(-1))
    );
    assert_eq!(
        complete(&ApiCall::CanisterCyclesBalance128, Ok(ApiValue::Pair(u64::MAX, 1 << 63))),
        Ok(GuestValue::Pair(-1, i64::MIN))
    );
    assert_eq!(ApiCall::MsgCyclesAccept128 { amount: 0 }.reply_kind(), ReplyKind::Pair);
    assert_eq!(ApiCall::Trap { offset: 0, length: 0 }.reply_kind(), ReplyKind::Abort);
}

#[test]
fn complete_turns_failures_into_traps() {
    let failure = HypervisorError::ContractViolation("no reply".to_string());
    let trap = complete(&ApiCall::MsgReply, Err(failure.clone())).unwrap_err();
    assert_eq!(trap, process_err(failure.clone()));
    assert_eq!(trap.error, Some(failure));
    assert_eq!(trap.message, "Canister violated contract: no reply");

    let asked = HypervisorError::CalledTrap("stop".to_string());
    let trap = complete(&ApiCall::Trap { offset: 0, length: 4 }, Err(asked.clone())).unwrap_err();
    assert_eq!(trap.error, Some(asked));
    assert_eq!(trap.message, "Canister trapped explicitly: stop");

    let trap = complete(&ApiCall::OutOfInstructions, Err(HypervisorError::OutOfInstructions))
        .unwrap_err();
    assert_eq!(trap.message, OUT_OF_INSTRUCTIONS_TEXT);
    assert_eq!(trap.anomaly, None);
}

#[test]
fn an_answer_of_another_shape_is_an_anomaly() {
    for (call, value) in [
        (ApiCall::MsgReply, ApiValue::I32(0)),
        (ApiCall::MsgCallerSize, ApiValue::I32(0)),
        (ApiCall::Time, ApiValue::U32(0)),
        (ApiCall::CanisterCyclesBalance128, ApiValue::U64(0)),
        (ApiCall::OutOfInstructions, ApiValue::Unit),
        (ApiCall::Trap { offset: 0, length: 0 }, ApiValue::Unit),
    ] {
        let trap = complete(&call, Ok(value)).unwrap_err();
        assert_eq!(trap.error, Some(HypervisorError::OutOfInstructions), "{:?}", call);
        assert_eq!(trap.anomaly, Some(Anomaly::UnexpectedReply));
        assert_eq!(trap.message, OUT_OF_INSTRUCTIONS_TEXT);
    }
}

#[test]
fn handle_binds_and_releases_the_capability() {
    let mut handle: SystemApiHandle<Vec<u8>> = SystemApiHandle::new();
    assert!(!handle.is_bound());
    assert_eq!(handle.clear(), None);
    assert_eq!(handle.replace(vec![1]), None);
    assert!(handle.is_bound());
    handle.get_system_api().push(2);
    assert_eq!(handle.replace(vec![9]), Some(vec![1, 2]));
    assert_eq!(handle.clear(), Some(vec![9]));
    assert!(!handle.is_bound());
}
