//! One host function call, from the guest's arguments to the guest's result.
//!
//! A call runs in two steps around the capability that serves it. `begin`
//! resolves the guest's memory, checks the ranges that the call addresses,
//! charges for the bytes it moves and says what to ask of the capability, or
//! aborts before the capability is reached. `complete` turns what the
//! capability answered into the guest's result, or into the trap that ends
//! the call.

use crate::abi::{ApiCall, ReplyKind, Syscall};
use crate::charger::{charged, cost, held_after, ChargeFailure, MemoryCharger};
use crate::convert::{signed32, signed64, to_signed32, to_signed64};
use crate::counter::{held_i64, is_mutable, owns};
use crate::error::{Failure, HypervisorError};
use crate::memory::out_of_bounds;
use vstd::prelude::*;
use vstd::string::StringExecFns;
use wasmtime::StoreContextMut;

verus! {

/// What the guest exports under the name `memory`.
#[derive(Clone, Copy, Debug, PartialEq, Eq, Structural)]
pub enum MemoryExport {
    /// Nothing.
    Missing,
    /// Something that is not a memory.
    NotMemory,
    /// A memory of `size` bytes.
    Memory { size: usize },
}

/// A fault of the host that was met while serving a call. It is reported and
/// ends the call as if the budget were exhausted; it never stops the host.
#[derive(Clone, Copy, Debug, PartialEq, Eq, Structural)]
pub enum Anomaly {
    /// The instruction counter could not be read or written.
    Charge(ChargeFailure),
    /// The capability answered with a value of another shape than the call
    /// has.
    UnexpectedReply,
}

/// What crosses back into guest code when a call is aborted: the diagnostic
/// text, the failure to record as the execution's terminal error, and the
/// anomaly to report, where there is one.
#[derive(Clone, Debug, PartialEq, Eq)]
pub struct Trap {
    pub message: String,
    pub error: Option<HypervisorError>,
    pub anomaly: Option<Anomaly>,
}

/// A trap with its texts as sequences of characters.
pub struct TrapView {
    pub message: Seq<char>,
    pub error: Option<Failure>,
    pub anomaly: Option<Anomaly>,
}

impl View for Trap {
    type V = TrapView;

    open spec fn view(&self) -> TrapView {
        TrapView {
            message: self.message@,
            error: match self.error {
                Some(e) => Some(e@),
                None => None,
            },
            anomaly: self.anomaly,
        }
    }
}

/// The trap of a failure: it carries the failure's text and records the
/// failure as the terminal error.
pub open spec fn failed(failure: Failure) -> TrapView {
    TrapView { message: failure.message(), error: Some(failure), anomaly: None }
}

/// The trap of an anomaly: that of an exhausted budget, with the anomaly to
/// report.
pub open spec fn degraded(anomaly: Anomaly) -> TrapView {
    TrapView {
        message: Failure::OutOfInstructions.message(),
        error: Some(Failure::OutOfInstructions),
        anomaly: Some(anomaly),
    }
}

/// The trap of a result that does not fit the guest's word. No terminal error
/// is recorded for it.
pub open spec fn overflowed(label: Seq<char>) -> TrapView {
    TrapView {
        message: label + " failed: out of range integral type conversion attempted"@,
        error: None,
        anomaly: None,
    }
}

/// The trap of a refused charge.
pub open spec fn refused(failure: ChargeFailure) -> TrapView {
    if failure.spec_is_anomaly() {
        degraded(Anomaly::Charge(failure))
    } else {
        failed(Failure::OutOfInstructions)
    }
}

/// Turns a failure into the trap that aborts the call and records the failure
/// as the execution's terminal error.
pub fn process_err(e: HypervisorError) -> (trap: Trap)
    ensures
        trap@ == failed(e@),
{
    let message = e.message();
    Trap { message, error: Some(e), anomaly: None }
}

fn degrade(anomaly: Anomaly) -> (trap: Trap)
    ensures
        trap@ == degraded(anomaly),
{
    let e = HypervisorError::OutOfInstructions;
    let message = e.message();
    Trap { message, error: Some(e), anomaly: Some(anomaly) }
}

fn overflow(label: &str) -> (trap: Trap)
    ensures
        trap@ == overflowed(label@),
{
    let message = String::from_str(label).concat(
        " failed: out of range integral type conversion attempted",
    );
    Trap { message, error: None, anomaly: None }
}

/// Why a call cannot touch the guest's memory: the guest exports none, or
/// exports something else under that name, or a range that the call addresses
/// does not lie within it. `None` where the call touches no memory or all is
/// in order.
pub open spec fn memory_failure(call: ApiCall, export: MemoryExport) -> Option<Failure> {
    if !call.spec_touches_memory() {
        None
    } else {
        match export {
            MemoryExport::Missing => Some(
                Failure::ContractViolation("WebAssembly module must define memory"@),
            ),
            MemoryExport::NotMemory => Some(
                Failure::ContractViolation("export 'memory' is not a memory"@),
            ),
            MemoryExport::Memory { size } => if call.in_bounds(size as int) {
                None
            } else {
                Some(out_of_bounds())
            },
        }
    }
}

/// Resolves the guest's memory for a call and checks the ranges that the call
/// addresses, before any access.
pub fn get_memory(call: &ApiCall, export: MemoryExport) -> (outcome: Result<(), HypervisorError>)
    ensures
        match memory_failure(*call, export) {
            None => outcome is Ok,
            Some(failure) => outcome matches Err(e) && e@ == failure,
        },
{
    if !call.touches_memory() {
        return Ok(());
    }
    match export {
        MemoryExport::Missing => Err(
            HypervisorError::contract_violation("WebAssembly module must define memory"),
        ),
        MemoryExport::NotMemory => Err(
            HypervisorError::contract_violation("export 'memory' is not a memory"),
        ),
        MemoryExport::Memory { size } => {
            if call.fits_memory(size) {
                Ok(())
            } else {
                Err(HypervisorError::contract_violation("memory access out of bounds"))
            }
        },
    }
}

/// How a call goes on after its first step.
#[derive(Clone, Debug, PartialEq, Eq)]
pub enum Step {
    /// The capability is to be asked this.
    Call(ApiCall),
    /// The call is aborted; the capability is not reached.
    Abort(Trap),
}

/// A step with its texts as sequences of characters.
pub enum StepView {
    Call(ApiCall),
    Abort(TrapView),
}

impl View for Step {
    type V = StepView;

    open spec fn view(&self) -> StepView {
        match self {
            Step::Call(call) => StepView::Call(*call),
            Step::Abort(trap) => StepView::Abort(trap@),
        }
    }
}

/// The first step of a call whose memory is in order, given the outcome of
/// the charge for it.
pub open spec fn charged_step(call: ApiCall, outcome: Result<(), ChargeFailure>) -> StepView {
    match outcome {
        Ok(_) => StepView::Call(call),
        Err(failure) => StepView::Abort(refused(failure)),
    }
}

/// The first step of a host function call. In this order: the guest's memory
/// is resolved and the ranges that the call addresses are checked; the bytes
/// that the call moves are charged; the capability is named what to do. A
/// call that fails at one of these is aborted there: an access out of bounds
/// is not charged, and what was not paid for is not asked of the capability.
pub fn begin(
    syscall: &Syscall,
    export: MemoryExport,
    charger: &MemoryCharger,
    store: &mut StoreContextMut<'_, ()>,
) -> (step: Step)
    requires
        charger.counter() matches Some(counter) ==> owns(*old(store), counter),
    ensures
        match memory_failure(syscall.spec_api_call(), export) {
            Some(failure) => step@ == StepView::Abort(failed(failure)) && *final(store) == *old(
                store,
            ),
            None => match (syscall.spec_api_call().spec_charged_bytes(), charger.counter()) {
                (None, _) => step@ == StepView::Call(syscall.spec_api_call()) && *final(store)
                    == *old(store),
                (Some(_), None) => step@ == StepView::Abort(
                    degraded(Anomaly::Charge(ChargeFailure::CounterUnavailable)),
                ) && *final(store) == *old(store),
                (Some(num_bytes), Some(counter)) => {
                    let held = held_i64(*old(store), counter);
                    let mutable = is_mutable(*old(store), counter);
                    let fee = cost(charger.subnet_type(), num_bytes);
                    &&& step@ == charged_step(
                        syscall.spec_api_call(),
                        charged(held, mutable, fee),
                    )
                    &&& held_i64(*final(store), counter) == held_after(held, mutable, fee)
                    &&& owns(*final(store), counter)
                    &&& is_mutable(*final(store), counter) == mutable
                },
            },
        },
{
    let call = syscall.api_call();
    match get_memory(&call, export) {
        Err(e) => {
            return Step::Abort(process_err(e));
        },
        Ok(_) => {},
    }
    match call.charged_bytes() {
        None => Step::Call(call),
        Some(num_bytes) => match charger.charge_for_memory_used(store, num_bytes) {
            Ok(_) => Step::Call(call),
            Err(failure) => {
                if failure.is_anomaly() {
                    Step::Abort(degrade(Anomaly::Charge(failure)))
                } else {
                    Step::Abort(process_err(failure.error()))
                }
            },
        },
    }
}

/// What the capability answers where it does not fail.
#[derive(Clone, Copy, Debug, PartialEq, Eq, Structural)]
pub enum ApiValue {
    Unit,
    I32(i32),
    U32(u32),
    I64(i64),
    U64(u64),
    /// A 128-bit amount in two halves, the upper first.
    Pair(u64, u64),
}

/// What a host function hands back to the guest.
#[derive(Clone, Copy, Debug, PartialEq, Eq, Structural)]
pub enum GuestValue {
    Unit,
    I32(i32),
    I64(i64),
    /// A 128-bit amount in two halves, the upper first.
    Pair(i64, i64),
}

/// The guest's result for a value that the capability answered. A size or an
/// amount that does not fit the guest's signed word is fatal to the call; the
/// other words are handed on with their bits as they are. A value of another
/// shape than the call has is an anomaly.
pub open spec fn converted(call: ApiCall, value: ApiValue) -> Result<GuestValue, TrapView> {
    match (call.spec_reply_kind(), value) {
        (ReplyKind::Unit, ApiValue::Unit) => Ok(GuestValue::Unit),
        (ReplyKind::Checked32, ApiValue::U32(size)) => if size <= i32::MAX {
            Ok(GuestValue::I32(size as i32))
        } else {
            Err(overflowed(call.spec_label()))
        },
        (ReplyKind::Checked64, ApiValue::U64(amount)) => if amount <= i64::MAX {
            Ok(GuestValue::I64(amount as i64))
        } else {
            Err(overflowed(call.spec_label()))
        },
        (ReplyKind::Word32, ApiValue::I32(word)) => Ok(GuestValue::I32(word)),
        (ReplyKind::Word32, ApiValue::U32(word)) => Ok(GuestValue::I32(signed32(word))),
        (ReplyKind::Word64, ApiValue::I64(word)) => Ok(GuestValue::I64(word)),
        (ReplyKind::Word64, ApiValue::U64(word)) => Ok(GuestValue::I64(signed64(word))),
        (ReplyKind::Pair, ApiValue::Pair(high, low)) => Ok(
            GuestValue::Pair(signed64(high), signed64(low)),
        ),
        _ => Err(degraded(Anomaly::UnexpectedReply)),
    }
}

/// The outcome of a call for what the capability answered: a failure of the
/// capability becomes the trap that records it, a value is converted.
pub open spec fn completed(call: ApiCall, reply: Result<ApiValue, Failure>) -> Result<
    GuestValue,
    TrapView,
> {
    match reply {
        Err(failure) => Err(failed(failure)),
        Ok(value) => converted(call, value),
    }
}

/// The outcome of a call with its texts as sequences of characters.
pub open spec fn outcome_view(outcome: Result<GuestValue, Trap>) -> Result<GuestValue, TrapView> {
    match outcome {
        Ok(value) => Ok(value),
        Err(trap) => Err(trap@),
    }
}

/// The answer of the capability with its texts as sequences of characters.
pub open spec fn reply_view(reply: Result<ApiValue, HypervisorError>) -> Result<ApiValue, Failure> {
    match reply {
        Ok(value) => Ok(value),
        Err(e) => Err(e@),
    }
}

/// The last step of a host function call: turns what the capability answered
/// into the guest's result, or into the trap that ends the call.
pub fn complete(call: &ApiCall, reply: Result<ApiValue, HypervisorError>) -> (outcome: Result<
    GuestValue,
    Trap,
>)
    ensures
        outcome_view(outcome) == completed(*call, reply_view(reply)),
{
    let value = match reply {
        Err(e) => {
            return Err(process_err(e));
        },
        Ok(value) => value,
    };
    match (call.reply_kind(), value) {
        (ReplyKind::Unit, ApiValue::Unit) => Ok(GuestValue::Unit),
        (ReplyKind::Checked32, ApiValue::U32(size)) => {
            if size <= 0x7fff_ffff {
                Ok(GuestValue::I32(size as i32))
            } else {
                Err(overflow(call.label()))
            }
        },
        (ReplyKind::Checked64, ApiValue::U64(amount)) => {
            if amount <= 0x7fff_ffff_ffff_ffff {
                Ok(GuestValue::I64(amount as i64))
            } else {
                Err(overflow(call.label()))
            }
        },
        (ReplyKind::Word32, ApiValue::I32(word)) => Ok(GuestValue::I32(word)),
        (ReplyKind::Word32, ApiValue::U32(word)) => Ok(GuestValue::I32(to_signed32(word))),
        (ReplyKind::Word64, ApiValue::I64(word)) => Ok(GuestValue::I64(word)),
        (ReplyKind::Word64, ApiValue::U64(word)) => Ok(GuestValue::I64(to_signed64(word))),
        (ReplyKind::Pair, ApiValue::Pair(high, low)) => Ok(
            GuestValue::Pair(to_signed64(high), to_signed64(low)),
        ),
        _ => Err(degrade(Anomaly::UnexpectedReply)),
    }
}

} // verus!
