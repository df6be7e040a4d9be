//! The host functions that a guest may call: their names, their arguments,
//! what they hand to the capability that serves them, the guest memory they
//! address, the bytes they are charged for and the shape of their results.

use crate::convert::{
    from_parts, joined, to_unsigned32, to_unsigned64, unsigned32, unsigned64,
};
use vstd::prelude::*;

verus! {

/// A call of a host function as the guest makes it, with the integer
/// arguments it passes. Pointers are offsets into the guest's memory.
#[allow(inconsistent_fields)]
#[derive(Clone, Copy, Debug, PartialEq, Eq, Structural)]
pub enum Syscall {
    /// `ic0.msg_caller_copy`: copies part of the caller's identity into the guest's memory.
    MsgCallerCopy { dst: i32, offset: i32, size: i32 },
    /// `ic0.msg_caller_size`: the size of the caller's identity.
    MsgCallerSize,
    /// `ic0.msg_arg_data_size`: the size of the inbound payload.
    MsgArgDataSize,
    /// `ic0.msg_arg_data_copy`: copies part of the inbound payload into the guest's memory.
    MsgArgDataCopy { dst: i32, offset: i32, size: i32 },
    /// `ic0.msg_method_name_size`: the size of the name of the method called.
    MsgMethodNameSize,
    /// `ic0.msg_method_name_copy`: copies part of the name of the method called into the guest's memory.
    MsgMethodNameCopy { dst: i32, offset: i32, size: i32 },
    /// `ic0.accept_message`: accepts the message that is being inspected.
    AcceptMessage,
    /// `ic0.msg_reply_data_append`: appends guest memory to the outbound reply.
    MsgReplyDataAppend { src: i32, size: i32 },
    /// `ic0.msg_reply`: replies with the data appended so far.
    MsgReply,
    /// `ic0.msg_reject_code`: the code with which the call was rejected.
    MsgRejectCode,
    /// `ic0.msg_reject`: rejects the call with a message taken from guest memory.
    MsgReject { src: i32, size: i32 },
    /// `ic0.msg_reject_msg_size`: the size of the reject message.
    MsgRejectMsgSize,
    /// `ic0.msg_reject_msg_copy`: copies part of the reject message into the guest's memory.
    MsgRejectMsgCopy { dst: i32, offset: i32, size: i32 },
    /// `ic0.canister_self_size`: the size of the canister's own identity.
    CanisterSelfSize,
    /// `ic0.canister_self_copy`: copies part of the canister's own identity into the guest's memory.
    CanisterSelfCopy { dst: i32, offset: i32, size: i32 },
    /// `ic0.controller_size`: the size of the controller's identity.
    ControllerSize,
    /// `ic0.controller_copy`: copies part of the controller's identity into the guest's memory.
    ControllerCopy { dst: i32, offset: i32, size: i32 },
    /// `ic0.debug_print`: prints a message taken from guest memory.
    DebugPrint { offset: i32, length: i32 },
    /// `ic0.trap`: aborts the call with a message taken from guest memory.
    Trap { offset: i32, length: i32 },
    /// `ic0.call_simple`: calls another canister with a payload taken from guest memory.
    CallSimple {
        callee_src: i32,
        callee_size: i32,
        name_src: i32,
        name_len: i32,
        reply_fun: i32,
        reply_env: i32,
        reject_fun: i32,
        reject_env: i32,
        src: i32,
        len: i32,
    },
    /// `ic0.call_new`: begins a call to another canister.
    CallNew {
        callee_src: i32,
        callee_size: i32,
        name_src: i32,
        name_len: i32,
        reply_fun: i32,
        reply_env: i32,
        reject_fun: i32,
        reject_env: i32,
    },
    /// `ic0.call_data_append`: appends guest memory to the payload of the call under construction.
    CallDataAppend { src: i32, size: i32 },
    /// `ic0.call_on_cleanup`: sets the cleanup callback of the call under construction.
    CallOnCleanup { fun: i32, env: i32 },
    /// `ic0.call_cycles_add`: adds cycles to the call under construction.
    CallCyclesAdd { amount: i64 },
    /// `ic0.call_cycles_add128`: adds a 128-bit amount of cycles to the call under construction.
    CallCyclesAdd128 { amount_high: i64, amount_low: i64 },
    /// `ic0.call_perform`: dispatches the call under construction.
    CallPerform,
    /// `ic0.stable_size`: the size of the stable memory in pages.
    StableSize,
    /// `ic0.stable_grow`: grows the stable memory.
    StableGrow { additional_pages: i32 },
    /// `ic0.stable_read`: copies from the stable memory into the guest's memory.
    StableRead { dst: i32, offset: i32, size: i32 },
    /// `ic0.stable_write`: copies from the guest's memory into the stable memory.
    StableWrite { offset: i32, src: i32, size: i32 },
    /// `ic0.stable64_size`: the size of the stable memory in pages, as a 64-bit number.
    Stable64Size,
    /// `ic0.stable64_grow`: grows the stable memory by a 64-bit number of pages.
    Stable64Grow { additional_pages: i64 },
    /// `ic0.stable64_read`: copies from the stable memory into the guest's memory, with 64-bit offsets.
    Stable64Read { dst: i64, offset: i64, size: i64 },
    /// `ic0.stable64_write`: copies from the guest's memory into the stable memory, with 64-bit offsets.
    Stable64Write { offset: i64, src: i64, size: i64 },
    /// `ic0.time`: the current time in nanoseconds.
    Time,
    /// `ic0.canister_cycle_balance`: the canister's balance of cycles.
    CanisterCycleBalance,
    /// `ic0.canister_cycles_balance128`: the canister's balance of cycles as a 128-bit amount.
    CanisterCyclesBalance128,
    /// `ic0.msg_cycles_available`: the cycles that came with the message and are not yet accepted.
    MsgCyclesAvailable,
    /// `ic0.msg_cycles_available128`: the same as a 128-bit amount.
    MsgCyclesAvailable128,
    /// `ic0.msg_cycles_refunded`: the cycles that came back with the response.
    MsgCyclesRefunded,
    /// `ic0.msg_cycles_refunded128`: the same as a 128-bit amount.
    MsgCyclesRefunded128,
    /// `ic0.msg_cycles_accept`: accepts up to `amount` of the cycles that came with the message.
    MsgCyclesAccept { amount: i64 },
    /// `ic0.msg_cycles_accept128`: accepts up to a 128-bit amount of the cycles that came with the message.
    MsgCyclesAccept128 { amount_high: i64, amount_low: i64 },
    /// `__.out_of_instructions`: reports that the compiled-in charges exhausted the budget.
    OutOfInstructions,
    /// `__.update_available_memory`: accounts for a growth of the guest's memory.
    UpdateAvailableMemory { native_memory_grow_res: i32, additional_pages: i32 },
    /// `ic0.canister_status`: the status of the canister.
    CanisterStatus,
    /// `ic0.certified_data_set`: sets the certified data from guest memory.
    CertifiedDataSet { src: u32, size: u32 },
    /// `ic0.data_certificate_present`: whether a certificate of the data is at hand.
    DataCertificatePresent,
    /// `ic0.data_certificate_size`: the size of the certificate of the data.
    DataCertificateSize,
    /// `ic0.data_certificate_copy`: copies part of the certificate of the data into the guest's memory.
    DataCertificateCopy { dst: u32, offset: u32, size: u32 },
    /// `ic0.mint_cycles`: mints cycles.
    MintCycles { amount: i64 },
}

/// A call of the capability that serves the host functions, with the
/// arguments as the host reads them.
#[allow(inconsistent_fields)]
#[derive(Clone, Copy, Debug, PartialEq, Eq, Structural)]
pub enum ApiCall {
    MsgCallerCopy { dst: u32, offset: u32, size: u32 },
    MsgCallerSize,
    MsgArgDataSize,
    MsgArgDataCopy { dst: u32, offset: u32, size: u32 },
    MsgMethodNameSize,
    MsgMethodNameCopy { dst: u32, offset: u32, size: u32 },
    AcceptMessage,
    MsgReplyDataAppend { src: u32, size: u32 },
    MsgReply,
    MsgRejectCode,
    MsgReject { src: u32, size: u32 },
    MsgRejectMsgSize,
    MsgRejectMsgCopy { dst: u32, offset: u32, size: u32 },
    CanisterSelfSize,
    CanisterSelfCopy { dst: u32, offset: u32, size: u32 },
    ControllerSize,
    ControllerCopy { dst: u32, offset: u32, size: u32 },
    DebugPrint { offset: u32, length: u32 },
    Trap { offset: u32, length: u32 },
    CallSimple {
        callee_src: u32,
        callee_size: u32,
        name_src: u32,
        name_len: u32,
        reply_fun: u32,
        reply_env: u32,
        reject_fun: u32,
        reject_env: u32,
        src: u32,
        len: u32,
    },
    CallNew {
        callee_src: u32,
        callee_size: u32,
        name_src: u32,
        name_len: u32,
        reply_fun: u32,
        reply_env: u32,
        reject_fun: u32,
        reject_env: u32,
    },
    CallDataAppend { src: u32, size: u32 },
    CallOnCleanup { fun: u32, env: u32 },
    CallCyclesAdd { amount: u64 },
    CallCyclesAdd128 { amount: u128 },
    CallPerform,
    StableSize,
    StableGrow { additional_pages: u32 },
    StableRead { dst: u32, offset: u32, size: u32 },
    StableWrite { offset: u32, src: u32, size: u32 },
    Stable64Size,
    Stable64Grow { additional_pages: u64 },
    Stable64Read { dst: u64, offset: u64, size: u64 },
    Stable64Write { offset: u64, src: u64, size: u64 },
    Time,
    CanisterCycleBalance,
    CanisterCyclesBalance128,
    MsgCyclesAvailable,
    MsgCyclesAvailable128,
    MsgCyclesRefunded,
    MsgCyclesRefunded128,
    MsgCyclesAccept { amount: u64 },
    MsgCyclesAccept128 { amount: u128 },
    OutOfInstructions,
    UpdateAvailableMemory { native_memory_grow_res: i32, additional_pages: u32 },
    CanisterStatus,
    CertifiedDataSet { src: u32, size: u32 },
    DataCertificatePresent,
    DataCertificateSize,
    DataCertificateCopy { dst: u32, offset: u32, size: u32 },
    MintCycles { amount: u64 },
}

/// The shape of what a host function hands back to the guest.
#[derive(Clone, Copy, Debug, PartialEq, Eq, Structural)]
pub enum ReplyKind {
    /// Nothing.
    Unit,
    /// A size that has to fit a signed 32-bit word.
    Checked32,
    /// An amount that has to fit a signed 64-bit word.
    Checked64,
    /// A 32-bit word, passed on as it is.
    Word32,
    /// A 64-bit word, passed on as it is.
    Word64,
    /// A 128-bit amount in two 64-bit halves, the upper first.
    Pair,
    /// No result: the call always aborts with the failure the capability
    /// names.
    Abort,
}

impl Syscall {
    /// The namespace under which the guest imports the function.
    pub open spec fn spec_module(self) -> Seq<char> {
        match self {
            Syscall::OutOfInstructions => "__"@,
            Syscall::UpdateAvailableMemory { .. } => "__"@,
            _ => "ic0"@,
        }
    }

    pub fn module(&self) -> (module: &'static str)
        ensures
            module@ == self.spec_module(),
    {
        match self {
            Syscall::OutOfInstructions => "__",
            Syscall::UpdateAvailableMemory { .. } => "__",
            _ => "ic0",
        }
    }

    /// The name under which the guest imports the function.
    pub open spec fn spec_name(self) -> Seq<char> {
        match self {
            Syscall::MsgCallerCopy { .. } => "msg_caller_copy"@,
            Syscall::MsgCallerSize => "msg_caller_size"@,
            Syscall::MsgArgDataSize => "msg_arg_data_size"@,
            Syscall::MsgArgDataCopy { .. } => "msg_arg_data_copy"@,
            Syscall::MsgMethodNameSize => "msg_method_name_size"@,
            Syscall::MsgMethodNameCopy { .. } => "msg_method_name_copy"@,
            Syscall::AcceptMessage => "accept_message"@,
            Syscall::MsgReplyDataAppend { .. } => "msg_reply_data_append"@,
            Syscall::MsgReply => "msg_reply"@,
            Syscall::MsgRejectCode => "msg_reject_code"@,
            Syscall::MsgReject { .. } => "msg_reject"@,
            Syscall::MsgRejectMsgSize => "msg_reject_msg_size"@,
            Syscall::MsgRejectMsgCopy { .. } => "msg_reject_msg_copy"@,
            Syscall::CanisterSelfSize => "canister_self_size"@,
            Syscall::CanisterSelfCopy { .. } => "canister_self_copy"@,
            Syscall::ControllerSize => "controller_size"@,
            Syscall::ControllerCopy { .. } => "controller_copy"@,
            Syscall::DebugPrint { .. } => "debug_print"@,
            Syscall::Trap { .. } => "trap"@,
            Syscall::CallSimple { .. } => "call_simple"@,
            Syscall::CallNew { .. } => "call_new"@,
            Syscall::CallDataAppend { .. } => "call_data_append"@,
            Syscall::CallOnCleanup { .. } => "call_on_cleanup"@,
            Syscall::CallCyclesAdd { .. } => "call_cycles_add"@,
            Syscall::CallCyclesAdd128 { .. } => "call_cycles_add128"@,
            Syscall::CallPerform => "call_perform"@,
            Syscall::StableSize => "stable_size"@,
            Syscall::StableGrow { .. } => "stable_grow"@,
            Syscall::StableRead { .. } => "stable_read"@,
            Syscall::StableWrite { .. } => "stable_write"@,
            Syscall::Stable64Size => "stable64_size"@,
            Syscall::Stable64Grow { .. } => "stable64_grow"@,
            Syscall::Stable64Read { .. } => "stable64_read"@,
            Syscall::Stable64Write { .. } => "stable64_write"@,
            Syscall::Time => "time"@,
            Syscall::CanisterCycleBalance => "canister_cycle_balance"@,
            Syscall::CanisterCyclesBalance128 => "canister_cycles_balance128"@,
            Syscall::MsgCyclesAvailable => "msg_cycles_available"@,
            Syscall::MsgCyclesAvailable128 => "msg_cycles_available128"@,
            Syscall::MsgCyclesRefunded => "msg_cycles_refunded"@,
            Syscall::MsgCyclesRefunded128 => "msg_cycles_refunded128"@,
            Syscall::MsgCyclesAccept { .. } => "msg_cycles_accept"@,
            Syscall::MsgCyclesAccept128 { .. } => "msg_cycles_accept128"@,
            Syscall::OutOfInstructions => "out_of_instructions"@,
            Syscall::UpdateAvailableMemory { .. } => "update_available_memory"@,
            Syscall::CanisterStatus => "canister_status"@,
            Syscall::CertifiedDataSet { .. } => "certified_data_set"@,
            Syscall::DataCertificatePresent => "data_certificate_present"@,
            Syscall::DataCertificateSize => "data_certificate_size"@,
            Syscall::DataCertificateCopy { .. } => "data_certificate_copy"@,
            Syscall::MintCycles { .. } => "mint_cycles"@,
        }
    }

    pub fn name(&self) -> (name: &'static str)
        ensures
            name@ == self.spec_name(),
    {
        match self {
            Syscall::MsgCallerCopy { .. } => "msg_caller_copy",
            Syscall::MsgCallerSize => "msg_caller_size",
            Syscall::MsgArgDataSize => "msg_arg_data_size",
            Syscall::MsgArgDataCopy { .. } => "msg_arg_data_copy",
            Syscall::MsgMethodNameSize => "msg_method_name_size",
            Syscall::MsgMethodNameCopy { .. } => "msg_method_name_copy",
            Syscall::AcceptMessage => "accept_message",
            Syscall::MsgReplyDataAppend { .. } => "msg_reply_data_append",
            Syscall::MsgReply => "msg_reply",
            Syscall::MsgRejectCode => "msg_reject_code",
            Syscall::MsgReject { .. } => "msg_reject",
            Syscall::MsgRejectMsgSize => "msg_reject_msg_size",
            Syscall::MsgRejectMsgCopy { .. } => "msg_reject_msg_copy",
            Syscall::CanisterSelfSize => "canister_self_size",
            Syscall::CanisterSelfCopy { .. } => "canister_self_copy",
            Syscall::ControllerSize => "controller_size",
            Syscall::ControllerCopy { .. } => "controller_copy",
            Syscall::DebugPrint { .. } => "debug_print",
            Syscall::Trap { .. } => "trap",
            Syscall::CallSimple { .. } => "call_simple",
            Syscall::CallNew { .. } => "call_new",
            Syscall::CallDataAppend { .. } => "call_data_append",
            Syscall::CallOnCleanup { .. } => "call_on_cleanup",
            Syscall::CallCyclesAdd { .. } => "call_cycles_add",
            Syscall::CallCyclesAdd128 { .. } => "call_cycles_add128",
            Syscall::CallPerform => "call_perform",
            Syscall::StableSize => "stable_size",
            Syscall::StableGrow { .. } => "stable_grow",
            Syscall::StableRead { .. } => "stable_read",
            Syscall::StableWrite { .. } => "stable_write",
            Syscall::Stable64Size => "stable64_size",
            Syscall::Stable64Grow { .. } => "stable64_grow",
            Syscall::Stable64Read { .. } => "stable64_read",
            Syscall::Stable64Write { .. } => "stable64_write",
            Syscall::Time => "time",
            Syscall::CanisterCycleBalance => "canister_cycle_balance",
            Syscall::CanisterCyclesBalance128 => "canister_cycles_balance128",
            Syscall::MsgCyclesAvailable => "msg_cycles_available",
            Syscall::MsgCyclesAvailable128 => "msg_cycles_available128",
            Syscall::MsgCyclesRefunded => "msg_cycles_refunded",
            Syscall::MsgCyclesRefunded128 => "msg_cycles_refunded128",
            Syscall::MsgCyclesAccept { .. } => "msg_cycles_accept",
            Syscall::MsgCyclesAccept128 { .. } => "msg_cycles_accept128",
            Syscall::OutOfInstructions => "out_of_instructions",
            Syscall::UpdateAvailableMemory { .. } => "update_available_memory",
            Syscall::CanisterStatus => "canister_status",
            Syscall::CertifiedDataSet { .. } => "certified_data_set",
            Syscall::DataCertificatePresent => "data_certificate_present",
            Syscall::DataCertificateSize => "data_certificate_size",
            Syscall::DataCertificateCopy { .. } => "data_certificate_copy",
            Syscall::MintCycles { .. } => "mint_cycles",
        }
    }

    /// What the call hands to the capability: each signed word of the guest
    /// read as the unsigned word with the same bits, the two halves of a
    /// 128-bit amount joined.
    pub open spec fn spec_api_call(self) -> ApiCall {
        match self {
            Syscall::MsgCallerCopy { dst, offset, size } => ApiCall::MsgCallerCopy {
                dst: unsigned32(dst),
                offset: unsigned32(offset),
                size: unsigned32(size),
            },
            Syscall::MsgCallerSize => ApiCall::MsgCallerSize,
            Syscall::MsgArgDataSize => ApiCall::MsgArgDataSize,
            Syscall::MsgArgDataCopy { dst, offset, size } => ApiCall::MsgArgDataCopy {
                dst: unsigned32(dst),
                offset: unsigned32(offset),
                size: unsigned32(size),
            },
            Syscall::MsgMethodNameSize => ApiCall::MsgMethodNameSize,
            Syscall::MsgMethodNameCopy { dst, offset, size } => ApiCall::MsgMethodNameCopy {
                dst: unsigned32(dst),
                offset: unsigned32(offset),
                size: unsigned32(size),
            },
            Syscall::AcceptMessage => ApiCall::AcceptMessage,
            Syscall::MsgReplyDataAppend { src, size } => ApiCall::MsgReplyDataAppend {
                src: unsigned32(src),
                size: unsigned32(size),
            },
            Syscall::MsgReply => ApiCall::MsgReply,
            Syscall::MsgRejectCode => ApiCall::MsgRejectCode,
            Syscall::MsgReject { src, size } => ApiCall::MsgReject {
                src: unsigned32(src),
                size: unsigned32(size),
            },
            Syscall::MsgRejectMsgSize => ApiCall::MsgRejectMsgSize,
            Syscall::MsgRejectMsgCopy { dst, offset, size } => ApiCall::MsgRejectMsgCopy {
                dst: unsigned32(dst),
                offset: unsigned32(offset),
                size: unsigned32(size),
            },
            Syscall::CanisterSelfSize => ApiCall::CanisterSelfSize,
            Syscall::CanisterSelfCopy { dst, offset, size } => ApiCall::CanisterSelfCopy {
                dst: unsigned32(dst),
                offset: unsigned32(offset),
                size: unsigned32(size),
            },
            Syscall::ControllerSize => ApiCall::ControllerSize,
            Syscall::ControllerCopy { dst, offset, size } => ApiCall::ControllerCopy {
                dst: unsigned32(dst),
                offset: unsigned32(offset),
                size: unsigned32(size),
            },
            Syscall::DebugPrint { offset, length } => ApiCall::DebugPrint {
                offset: unsigned32(offset),
                length: unsigned32(length),
            },
            Syscall::Trap { offset, length } => ApiCall::Trap {
                offset: unsigned32(offset),
                length: unsigned32(length),
            },
            Syscall::CallSimple {
                callee_src,
                callee_size,
                name_src,
                name_len,
                reply_fun,
                reply_env,
                reject_fun,
                reject_env,
                src,
                len,
            } => ApiCall::CallSimple {
                callee_src: unsigned32(callee_src),
                callee_size: unsigned32(callee_size),
                name_src: unsigned32(name_src),
                name_len: unsigned32(name_len),
                reply_fun: unsigned32(reply_fun),
                reply_env: unsigned32(reply_env),
                reject_fun: unsigned32(reject_fun),
                reject_env: unsigned32(reject_env),
                src: unsigned32(src),
                len: unsigned32(len),
            },
            Syscall::CallNew {
                callee_src,
                callee_size,
                name_src,
                name_len,
                reply_fun,
                reply_env,
                reject_fun,
                reject_env,
            } => ApiCall::CallNew {
                callee_src: unsigned32(callee_src),
                callee_size: unsigned32(callee_size),
                name_src: unsigned32(name_src),
                name_len: unsigned32(name_len),
                reply_fun: unsigned32(reply_fun),
                reply_env: unsigned32(reply_env),
                reject_fun: unsigned32(reject_fun),
                reject_env: unsigned32(reject_env),
            },
            Syscall::CallDataAppend { src, size } => ApiCall::CallDataAppend {
                src: unsigned32(src),
                size: unsigned32(size),
            },
            Syscall::CallOnCleanup { fun, env } => ApiCall::CallOnCleanup {
                fun: unsigned32(fun),
                env: unsigned32(env),
            },
            Syscall::CallCyclesAdd { amount } => ApiCall::CallCyclesAdd {
                amount: unsigned64(amount),
            },
            Syscall::CallCyclesAdd128 { amount_high, amount_low } => ApiCall::CallCyclesAdd128 {
                amount: joined(unsigned64(amount_high), unsigned64(amount_low)),
            },
            Syscall::CallPerform => ApiCall::CallPerform,
            Syscall::StableSize => ApiCall::StableSize,
            Syscall::StableGrow { additional_pages } => ApiCall::StableGrow {
                additional_pages: unsigned32(additional_pages),
            },
            Syscall::StableRead { dst, offset, size } => ApiCall::StableRead {
                dst: unsigned32(dst),
                offset: unsigned32(offset),
                size: unsigned32(size),
            },
            Syscall::StableWrite { offset, src, size } => ApiCall::StableWrite {
                offset: unsigned32(offset),
                src: unsigned32(src),
                size: unsigned32(size),
            },
            Syscall::Stable64Size => ApiCall::Stable64Size,
            Syscall::Stable64Grow { additional_pages } => ApiCall::Stable64Grow {
                additional_pages: unsigned64(additional_pages),
            },
            Syscall::Stable64Read { dst, offset, size } => ApiCall::Stable64Read {
                dst: unsigned64(dst),
                offset: unsigned64(offset),
                size: unsigned64(size),
            },
            Syscall::Stable64Write { offset, src, size } => ApiCall::Stable64Write {
                offset: unsigned64(offset),
                src: unsigned64(src),
                size: unsigned64(size),
            },
            Syscall::Time => ApiCall::Time,
            Syscall::CanisterCycleBalance => ApiCall::CanisterCycleBalance,
            Syscall::CanisterCyclesBalance128 => ApiCall::CanisterCyclesBalance128,
            Syscall::MsgCyclesAvailable => ApiCall::MsgCyclesAvailable,
            Syscall::MsgCyclesAvailable128 => ApiCall::MsgCyclesAvailable128,
            Syscall::MsgCyclesRefunded => ApiCall::MsgCyclesRefunded,
            Syscall::MsgCyclesRefunded128 => ApiCall::MsgCyclesRefunded128,
            Syscall::MsgCyclesAccept { amount } => ApiCall::MsgCyclesAccept {
                amount: unsigned64(amount),
            },
            Syscall::MsgCyclesAccept128 { amount_high, amount_low } => ApiCall::MsgCyclesAccept128 {
                amount: joined(unsigned64(amount_high), unsigned64(amount_low)),
            },
            Syscall::OutOfInstructions => ApiCall::OutOfInstructions,
            Syscall::UpdateAvailableMemory { native_memory_grow_res, additional_pages } => ApiCall::UpdateAvailableMemory {
                native_memory_grow_res,
                additional_pages: unsigned32(additional_pages),
            },
            Syscall::CanisterStatus => ApiCall::CanisterStatus,
            Syscall::CertifiedDataSet { src, size } => ApiCall::CertifiedDataSet { src, size },
            Syscall::DataCertificatePresent => ApiCall::DataCertificatePresent,
            Syscall::DataCertificateSize => ApiCall::DataCertificateSize,
            Syscall::DataCertificateCopy { dst, offset, size } => ApiCall::DataCertificateCopy {
                dst,
                offset,
                size,
            },
            Syscall::MintCycles { amount } => ApiCall::MintCycles { amount: unsigned64(amount) },
        }
    }

    pub fn api_call(&self) -> (call: ApiCall)
        ensures
            call == self.spec_api_call(),
    {
        match self {
            Syscall::MsgCallerCopy { dst, offset, size } => ApiCall::MsgCallerCopy {
                dst: to_unsigned32(*dst),
                offset: to_unsigned32(*offset),
                size: to_unsigned32(*size),
            },
            Syscall::MsgCallerSize => ApiCall::MsgCallerSize,
            Syscall::MsgArgDataSize => ApiCall::MsgArgDataSize,
            Syscall::MsgArgDataCopy { dst, offset, size } => ApiCall::MsgArgDataCopy {
                dst: to_unsigned32(*dst),
                offset: to_unsigned32(*offset),
                size: to_unsigned32(*size),
            },
            Syscall::MsgMethodNameSize => ApiCall::MsgMethodNameSize,
            Syscall::MsgMethodNameCopy { dst, offset, size } => ApiCall::MsgMethodNameCopy {
                dst: to_unsigned32(*dst),
                offset: to_unsigned32(*offset),
                size: to_unsigned32(*size),
            },
            Syscall::AcceptMessage => ApiCall::AcceptMessage,
            Syscall::MsgReplyDataAppend { src, size } => ApiCall::MsgReplyDataAppend {
                src: to_unsigned32(*src),
                size: to_unsigned32(*size),
            },
            Syscall::MsgReply => ApiCall::MsgReply,
            Syscall::MsgRejectCode => ApiCall::MsgRejectCode,
            Syscall::MsgReject { src, size } => ApiCall::MsgReject {
                src: to_unsigned32(*src),
                size: to_unsigned32(*size),
            },
            Syscall::MsgRejectMsgSize => ApiCall::MsgRejectMsgSize,
            Syscall::MsgRejectMsgCopy { dst, offset, size } => ApiCall::MsgRejectMsgCopy {
                dst: to_unsigned32(*dst),
                offset: to_unsigned32(*offset),
                size: to_unsigned32(*size),
            },
            Syscall::CanisterSelfSize => ApiCall::CanisterSelfSize,
            Syscall::CanisterSelfCopy { dst, offset, size } => ApiCall::CanisterSelfCopy {
                dst: to_unsigned32(*dst),
                offset: to_unsigned32(*offset),
                size: to_unsigned32(*size),
            },
            Syscall::ControllerSize => ApiCall::ControllerSize,
            Syscall::ControllerCopy { dst, offset, size } => ApiCall::ControllerCopy {
                dst: to_unsigned32(*dst),
                offset: to_unsigned32(*offset),
                size: to_unsigned32(*size),
            },
            Syscall::DebugPrint { offset, length } => ApiCall::DebugPrint {
                offset: to_unsigned32(*offset),
                length: to_unsigned32(*length),
            },
            Syscall::Trap { offset, length } => ApiCall::Trap {
                offset: to_unsigned32(*offset),
                length: to_unsigned32(*length),
            },
            Syscall::CallSimple {
                callee_src,
                callee_size,
                name_src,
                name_len,
                reply_fun,
                reply_env,
                reject_fun,
                reject_env,
                src,
                len,
            } => ApiCall::CallSimple {
                callee_src: to_unsigned32(*callee_src),
                callee_size: to_unsigned32(*callee_size),
                name_src: to_unsigned32(*name_src),
                name_len: to_unsigned32(*name_len),
                reply_fun: to_unsigned32(*reply_fun),
                reply_env: to_unsigned32(*reply_env),
                reject_fun: to_unsigned32(*reject_fun),
                reject_env: to_unsigned32(*reject_env),
                src: to_unsigned32(*src),
                len: to_unsigned32(*len),
            },
            Syscall::CallNew {
                callee_src,
                callee_size,
                name_src,
                name_len,
                reply_fun,
                reply_env,
                reject_fun,
                reject_env,
            } => ApiCall::CallNew {
                callee_src: to_unsigned32(*callee_src),
                callee_size: to_unsigned32(*callee_size),
                name_src: to_unsigned32(*name_src),
                name_len: to_unsigned32(*name_len),
                reply_fun: to_unsigned32(*reply_fun),
                reply_env: to_unsigned32(*reply_env),
                reject_fun: to_unsigned32(*reject_fun),
                reject_env: to_unsigned32(*reject_env),
            },
            Syscall::CallDataAppend { src, size } => ApiCall::CallDataAppend {
                src: to_unsigned32(*src),
                size: to_unsigned32(*size),
            },
            Syscall::CallOnCleanup { fun, env } => ApiCall::CallOnCleanup {
                fun: to_unsigned32(*fun),
                env: to_unsigned32(*env),
            },
            Syscall::CallCyclesAdd { amount } => ApiCall::CallCyclesAdd {
                amount: to_unsigned64(*amount),
            },
            Syscall::CallCyclesAdd128 { amount_high, amount_low } => ApiCall::CallCyclesAdd128 {
                amount: from_parts(to_unsigned64(*amount_high), to_unsigned64(*amount_low)),
            },
            Syscall::CallPerform => ApiCall::CallPerform,
            Syscall::StableSize => ApiCall::StableSize,
            Syscall::StableGrow { additional_pages } => ApiCall::StableGrow {
                additional_pages: to_unsigned32(*additional_pages),
            },
            Syscall::StableRead { dst, offset, size } => ApiCall::StableRead {
                dst: to_unsigned32(*dst),
                offset: to_unsigned32(*offset),
                size: to_unsigned32(*size),
            },
            Syscall::StableWrite { offset, src, size } => ApiCall::StableWrite {
                offset: to_unsigned32(*offset),
                src: to_unsigned32(*src),
                size: to_unsigned32(*size),
            },
            Syscall::Stable64Size => ApiCall::Stable64Size,
            Syscall::Stable64Grow { additional_pages } => ApiCall::Stable64Grow {
                additional_pages: to_unsigned64(*additional_pages),
            },
            Syscall::Stable64Read { dst, offset, size } => ApiCall::Stable64Read {
                dst: to_unsigned64(*dst),
                offset: to_unsigned64(*offset),
                size: to_unsigned64(*size),
            },
            Syscall::Stable64Write { offset, src, size } => ApiCall::Stable64Write {
                offset: to_unsigned64(*offset),
                src: to_unsigned64(*src),
                size: to_unsigned64(*size),
            },
            Syscall::Time => ApiCall::Time,
            Syscall::CanisterCycleBalance => ApiCall::CanisterCycleBalance,
            Syscall::CanisterCyclesBalance128 => ApiCall::CanisterCyclesBalance128,
            Syscall::MsgCyclesAvailable => ApiCall::MsgCyclesAvailable,
            Syscall::MsgCyclesAvailable128 => ApiCall::MsgCyclesAvailable128,
            Syscall::MsgCyclesRefunded => ApiCall::MsgCyclesRefunded,
            Syscall::MsgCyclesRefunded128 => ApiCall::MsgCyclesRefunded128,
            Syscall::MsgCyclesAccept { amount } => ApiCall::MsgCyclesAccept {
                amount: to_unsigned64(*amount),
            },
            Syscall::MsgCyclesAccept128 { amount_high, amount_low } => ApiCall::MsgCyclesAccept128 {
                amount: from_parts(to_unsigned64(*amount_high), to_unsigned64(*amount_low)),
            },
            Syscall::OutOfInstructions => ApiCall::OutOfInstructions,
            Syscall::UpdateAvailableMemory { native_memory_grow_res, additional_pages } => ApiCall::UpdateAvailableMemory {
                native_memory_grow_res: *native_memory_grow_res,
                additional_pages: to_unsigned32(*additional_pages),
            },
            Syscall::CanisterStatus => ApiCall::CanisterStatus,
            Syscall::CertifiedDataSet { src, size } => ApiCall::CertifiedDataSet {
                src: *src,
                size: *size,
            },
            Syscall::DataCertificatePresent => ApiCall::DataCertificatePresent,
            Syscall::DataCertificateSize => ApiCall::DataCertificateSize,
            Syscall::DataCertificateCopy { dst, offset, size } => ApiCall::DataCertificateCopy {
                dst: *dst,
                offset: *offset,
                size: *size,
            },
            Syscall::MintCycles { amount } => ApiCall::MintCycles {
                amount: to_unsigned64(*amount),
            },
        }
    }
}

impl ApiCall {
    /// Whether the call reads or writes the guest's memory.
    pub open spec fn spec_touches_memory(&self) -> bool {
        match self {
            ApiCall::MsgCallerCopy { .. }
            | ApiCall::MsgArgDataCopy { .. }
            | ApiCall::MsgMethodNameCopy { .. }
            | ApiCall::MsgReplyDataAppend { .. }
            | ApiCall::MsgReject { .. }
            | ApiCall::MsgRejectMsgCopy { .. }
            | ApiCall::CanisterSelfCopy { .. }
            | ApiCall::ControllerCopy { .. }
            | ApiCall::DebugPrint { .. }
            | ApiCall::Trap { .. }
            | ApiCall::CallSimple { .. }
            | ApiCall::CallNew { .. }
            | ApiCall::CallDataAppend { .. }
            | ApiCall::StableRead { .. }
            | ApiCall::StableWrite { .. }
            | ApiCall::Stable64Read { .. }
            | ApiCall::Stable64Write { .. }
            | ApiCall::CertifiedDataSet { .. }
            | ApiCall::DataCertificateCopy { .. } => true,
            _ => false,
        }
    }

    #[verifier::when_used_as_spec(spec_touches_memory)]
    pub fn touches_memory(&self) -> (touches: bool)
        ensures
            touches == self.spec_touches_memory(),
    {
        match self {
            ApiCall::MsgCallerCopy { .. }
            | ApiCall::MsgArgDataCopy { .. }
            | ApiCall::MsgMethodNameCopy { .. }
            | ApiCall::MsgReplyDataAppend { .. }
            | ApiCall::MsgReject { .. }
            | ApiCall::MsgRejectMsgCopy { .. }
            | ApiCall::CanisterSelfCopy { .. }
            | ApiCall::ControllerCopy { .. }
            | ApiCall::DebugPrint { .. }
            | ApiCall::Trap { .. }
            | ApiCall::CallSimple { .. }
            | ApiCall::CallNew { .. }
            | ApiCall::CallDataAppend { .. }
            | ApiCall::StableRead { .. }
            | ApiCall::StableWrite { .. }
            | ApiCall::Stable64Read { .. }
            | ApiCall::Stable64Write { .. }
            | ApiCall::CertifiedDataSet { .. }
            | ApiCall::DataCertificateCopy { .. } => true,
            _ => false,
        }
    }

    /// Whether every range of guest memory that the call addresses lies
    /// within a memory of `memory_size` bytes.
    pub open spec fn in_bounds(self, memory_size: int) -> bool {
        match self {
            ApiCall::MsgCallerCopy { dst, size, .. }
            | ApiCall::MsgArgDataCopy { dst, size, .. }
            | ApiCall::MsgMethodNameCopy { dst, size, .. }
            | ApiCall::MsgRejectMsgCopy { dst, size, .. }
            | ApiCall::CanisterSelfCopy { dst, size, .. }
            | ApiCall::ControllerCopy { dst, size, .. }
            | ApiCall::StableRead { dst, size, .. }
            | ApiCall::DataCertificateCopy { dst, size, .. } => {
                dst + size <= memory_size
            },
            ApiCall::MsgReplyDataAppend { src, size }
            | ApiCall::MsgReject { src, size }
            | ApiCall::CallDataAppend { src, size }
            | ApiCall::StableWrite { src, size, .. }
            | ApiCall::CertifiedDataSet { src, size } => {
                src + size <= memory_size
            },
            ApiCall::DebugPrint { offset, length }
            | ApiCall::Trap { offset, length } => {
                offset + length <= memory_size
            },
            ApiCall::CallSimple { callee_src, callee_size, name_src, name_len, src, len, .. } => {
                callee_src + callee_size <= memory_size
                    && name_src + name_len <= memory_size
                    && src + len <= memory_size
            },
            ApiCall::CallNew { callee_src, callee_size, name_src, name_len, .. } => {
                callee_src + callee_size <= memory_size
                    && name_src + name_len <= memory_size
            },
            ApiCall::Stable64Read { dst, size, .. } => {
                dst + size <= memory_size
            },
            ApiCall::Stable64Write { src, size, .. } => {
                src + size <= memory_size
            },
            _ => true,
        }
    }

    pub fn fits_memory(&self, memory_size: usize) -> (fits: bool)
        ensures
            fits == self.in_bounds(memory_size as int),
    {
        let limit = memory_size as u128;
        match self {
            ApiCall::MsgCallerCopy { dst, size, .. }
            | ApiCall::MsgArgDataCopy { dst, size, .. }
            | ApiCall::MsgMethodNameCopy { dst, size, .. }
            | ApiCall::MsgRejectMsgCopy { dst, size, .. }
            | ApiCall::CanisterSelfCopy { dst, size, .. }
            | ApiCall::ControllerCopy { dst, size, .. }
            | ApiCall::StableRead { dst, size, .. }
            | ApiCall::DataCertificateCopy { dst, size, .. } => {
                (*dst as u128) + (*size as u128) <= limit
            },
            ApiCall::MsgReplyDataAppend { src, size }
            | ApiCall::MsgReject { src, size }
            | ApiCall::CallDataAppend { src, size }
            | ApiCall::StableWrite { src, size, .. }
            | ApiCall::CertifiedDataSet { src, size } => {
                (*src as u128) + (*size as u128) <= limit
            },
            ApiCall::DebugPrint { offset, length }
            | ApiCall::Trap { offset, length } => {
                (*offset as u128) + (*length as u128) <= limit
            },
            ApiCall::CallSimple { callee_src, callee_size, name_src, name_len, src, len, .. } => {
                (*callee_src as u128) + (*callee_size as u128) <= limit
                    && (*name_src as u128) + (*name_len as u128) <= limit
                    && (*src as u128) + (*len as u128) <= limit
            },
            ApiCall::CallNew { callee_src, callee_size, name_src, name_len, .. } => {
                (*callee_src as u128) + (*callee_size as u128) <= limit
                    && (*name_src as u128) + (*name_len as u128) <= limit
            },
            ApiCall::Stable64Read { dst, size, .. } => {
                (*dst as u128) + (*size as u128) <= limit
            },
            ApiCall::Stable64Write { src, size, .. } => {
                (*src as u128) + (*size as u128) <= limit
            },
            _ => true,
        }
    }

    /// The number of bytes that the call is charged for, `None` where it is
    /// free of charge.
    pub open spec fn spec_charged_bytes(&self) -> Option<u64> {
        match self {
            ApiCall::MsgArgDataCopy { size, .. }
            | ApiCall::MsgMethodNameCopy { size, .. }
            | ApiCall::MsgReplyDataAppend { size, .. }
            | ApiCall::MsgReject { size, .. }
            | ApiCall::MsgRejectMsgCopy { size, .. }
            | ApiCall::CallDataAppend { size, .. }
            | ApiCall::StableRead { size, .. }
            | ApiCall::StableWrite { size, .. } => Some(*size as u64),
            ApiCall::DebugPrint { length, .. }
            | ApiCall::Trap { length, .. } => Some(*length as u64),
            ApiCall::CallSimple { len, .. } => Some(*len as u64),
            ApiCall::Stable64Read { size, .. }
            | ApiCall::Stable64Write { size, .. } => Some(*size),
            _ => None,
        }
    }

    #[verifier::when_used_as_spec(spec_charged_bytes)]
    pub fn charged_bytes(&self) -> (bytes: Option<u64>)
        ensures
            bytes == self.spec_charged_bytes(),
    {
        match self {
            ApiCall::MsgArgDataCopy { size, .. }
            | ApiCall::MsgMethodNameCopy { size, .. }
            | ApiCall::MsgReplyDataAppend { size, .. }
            | ApiCall::MsgReject { size, .. }
            | ApiCall::MsgRejectMsgCopy { size, .. }
            | ApiCall::CallDataAppend { size, .. }
            | ApiCall::StableRead { size, .. }
            | ApiCall::StableWrite { size, .. } => Some(*size as u64),
            ApiCall::DebugPrint { length, .. }
            | ApiCall::Trap { length, .. } => Some(*length as u64),
            ApiCall::CallSimple { len, .. } => Some(*len as u64),
            ApiCall::Stable64Read { size, .. }
            | ApiCall::Stable64Write { size, .. } => Some(*size),
            _ => None,
        }
    }

    /// The shape of what the call hands back to the guest.
    pub open spec fn spec_reply_kind(&self) -> ReplyKind {
        match self {
            ApiCall::MsgCallerSize
            | ApiCall::MsgArgDataSize
            | ApiCall::MsgMethodNameSize
            | ApiCall::MsgRejectMsgSize
            | ApiCall::CanisterSelfSize
            | ApiCall::ControllerSize
            | ApiCall::StableSize => ReplyKind::Checked32,
            ApiCall::Stable64Size
            | ApiCall::CanisterCycleBalance
            | ApiCall::MsgCyclesAvailable
            | ApiCall::MsgCyclesRefunded
            | ApiCall::MintCycles { .. } => ReplyKind::Checked64,
            ApiCall::MsgRejectCode
            | ApiCall::CallSimple { .. }
            | ApiCall::CallPerform
            | ApiCall::StableGrow { .. }
            | ApiCall::UpdateAvailableMemory { .. }
            | ApiCall::CanisterStatus
            | ApiCall::DataCertificatePresent
            | ApiCall::DataCertificateSize => ReplyKind::Word32,
            ApiCall::Stable64Grow { .. }
            | ApiCall::Time
            | ApiCall::MsgCyclesAccept { .. } => ReplyKind::Word64,
            ApiCall::CanisterCyclesBalance128
            | ApiCall::MsgCyclesAvailable128
            | ApiCall::MsgCyclesRefunded128
            | ApiCall::MsgCyclesAccept128 { .. } => ReplyKind::Pair,
            ApiCall::Trap { .. }
            | ApiCall::OutOfInstructions => ReplyKind::Abort,
            _ => ReplyKind::Unit,
        }
    }

    #[verifier::when_used_as_spec(spec_reply_kind)]
    pub fn reply_kind(&self) -> (kind: ReplyKind)
        ensures
            kind == self.spec_reply_kind(),
    {
        match self {
            ApiCall::MsgCallerSize
            | ApiCall::MsgArgDataSize
            | ApiCall::MsgMethodNameSize
            | ApiCall::MsgRejectMsgSize
            | ApiCall::CanisterSelfSize
            | ApiCall::ControllerSize
            | ApiCall::StableSize => ReplyKind::Checked32,
            ApiCall::Stable64Size
            | ApiCall::CanisterCycleBalance
            | ApiCall::MsgCyclesAvailable
            | ApiCall::MsgCyclesRefunded
            | ApiCall::MintCycles { .. } => ReplyKind::Checked64,
            ApiCall::MsgRejectCode
            | ApiCall::CallSimple { .. }
            | ApiCall::CallPerform
            | ApiCall::StableGrow { .. }
            | ApiCall::UpdateAvailableMemory { .. }
            | ApiCall::CanisterStatus
            | ApiCall::DataCertificatePresent
            | ApiCall::DataCertificateSize => ReplyKind::Word32,
            ApiCall::Stable64Grow { .. }
            | ApiCall::Time
            | ApiCall::MsgCyclesAccept { .. } => ReplyKind::Word64,
            ApiCall::CanisterCyclesBalance128
            | ApiCall::MsgCyclesAvailable128
            | ApiCall::MsgCyclesRefunded128
            | ApiCall::MsgCyclesAccept128 { .. } => ReplyKind::Pair,
            ApiCall::Trap { .. }
            | ApiCall::OutOfInstructions => ReplyKind::Abort,
            _ => ReplyKind::Unit,
        }
    }

    /// How a call that answers a size or an amount is named where the answer
    /// does not fit the guest's word. The other calls have no name of their
    /// own.
    pub open spec fn spec_label(self) -> Seq<char> {
        match self {
            ApiCall::MsgCallerSize => "ic0::msg_caller_size"@,
            ApiCall::MsgArgDataSize => "ic0::msg_arg_data_size"@,
            ApiCall::MsgMethodNameSize => "ic0::msg_method_name_size"@,
            ApiCall::MsgRejectMsgSize => "ic0_msg_reject_msg_size"@,
            ApiCall::CanisterSelfSize => "ic0_canister_self_size"@,
            ApiCall::ControllerSize => "ic0_controller_size"@,
            ApiCall::StableSize => "ic0_stable_size"@,
            ApiCall::Stable64Size => "ic0_stable64_size"@,
            ApiCall::CanisterCycleBalance => "ic0_canister_cycle_balance"@,
            ApiCall::MsgCyclesAvailable => "ic0_msg_cycles_available"@,
            ApiCall::MsgCyclesRefunded => "ic0_msg_cycles_refunded"@,
            ApiCall::MintCycles { .. } => "ic0_mint_cycles"@,
            _ => "ic0"@,
        }
    }

    pub fn label(&self) -> (label: &'static str)
        ensures
            label@ == self.spec_label(),
    {
        match self {
            ApiCall::MsgCallerSize => "ic0::msg_caller_size",
            ApiCall::MsgArgDataSize => "ic0::msg_arg_data_size",
            ApiCall::MsgMethodNameSize => "ic0::msg_method_name_size",
            ApiCall::MsgRejectMsgSize => "ic0_msg_reject_msg_size",
            ApiCall::CanisterSelfSize => "ic0_canister_self_size",
            ApiCall::ControllerSize => "ic0_controller_size",
            ApiCall::StableSize => "ic0_stable_size",
            ApiCall::Stable64Size => "ic0_stable64_size",
            ApiCall::CanisterCycleBalance => "ic0_canister_cycle_balance",
            ApiCall::MsgCyclesAvailable => "ic0_msg_cycles_available",
            ApiCall::MsgCyclesRefunded => "ic0_msg_cycles_refunded",
            ApiCall::MintCycles { .. } => "ic0_mint_cycles",
            _ => "ic0",
        }
    }
}

} // verus!
