//! Sandboxed execution boundary for guest WebAssembly programs: metered host
//! calls, instruction accounting, and incremental persistence of a guest's
//! linear memory.
//!
//! - `abi` and `dispatch`: the host functions and the two steps in which one
//!   call of them is served;
//! - `handle`: the slot that holds the capability of the running execution;
//! - `charger` and `counter`: the price of memory in instructions and the
//!   budget it is taken from;
//! - `memory`, `tracking`, `page_map` and `checkpoint`: the memory of an
//!   execution, the pages it writes and their merge into the canister's heap;
//! - `tls` and `threshold_sig`: identities of nodes and the rules of the
//!   services that the sandbox consumes.

pub mod abi;
pub mod charger;
pub mod checkpoint;
pub mod convert;
pub mod counter;
pub mod dispatch;
pub mod error;
pub mod handle;
pub mod memory;
pub mod page_map;
pub mod threshold_sig;
pub mod tls;
pub mod tracking;
