//! Pricing of memory-touching host calls in instructions.

use crate::counter::{held_i64, is_mutable, owns, write_counter, get_num_instructions};
use crate::error::HypervisorError;
use vstd::prelude::*;
use wasmtime::{Global, StoreContextMut};

verus! {

/// The class of the subnet a canister runs on. It decides whether memory
/// operations are priced.
#[derive(Clone, Copy, Debug, PartialEq, Eq, Structural)]
pub enum SubnetType {
    /// Memory operations cost one instruction for each byte moved.
    Application,
    /// Memory operations are free.
    System,
}

/// The fee, in instructions, for moving `num_bytes` bytes.
pub open spec fn cost(subnet_type: SubnetType, num_bytes: u64) -> u64 {
    match subnet_type {
        SubnetType::Application => num_bytes,
        SubnetType::System => 0,
    }
}

pub fn num_instructions_from_bytes(subnet_type: SubnetType, num_bytes: u64) -> (fee: u64)
    ensures
        fee == cost(subnet_type, num_bytes),
{
    match subnet_type {
        SubnetType::Application => num_bytes,
        SubnetType::System => 0,
    }
}

/// Why a charge was refused. Every refusal reaches the guest as
/// `OutOfInstructions`; all but `RanOut` are anomalies of the host that are
/// reported instead of crashing it.
#[derive(Clone, Copy, Debug, PartialEq, Eq, Structural)]
pub enum ChargeFailure {
    /// The budget is smaller than the fee.
    RanOut { current: i64, fee: u64 },
    /// The execution has no instruction counter.
    CounterUnavailable,
    /// The counter does not hold a 64-bit integer.
    UnexpectedType,
    /// The counter refused the new value.
    UpdateFailed { current: i64, updated: i64 },
}

impl ChargeFailure {
    /// Whether the refusal shows a fault of the host rather than a guest that
    /// ran out of budget.
    pub open spec fn spec_is_anomaly(&self) -> bool {
        !(self is RanOut)
    }

    #[verifier::when_used_as_spec(spec_is_anomaly)]
    pub fn is_anomaly(&self) -> (anomaly: bool)
        ensures
            anomaly == self.spec_is_anomaly(),
    {
        match self {
            ChargeFailure::RanOut { .. } => false,
            _ => true,
        }
    }

    /// The failure that the guest call ends with.
    pub fn error(&self) -> (e: HypervisorError)
        ensures
            e == HypervisorError::OutOfInstructions,
    {
        HypervisorError::OutOfInstructions
    }
}

/// The budget after paying `fee` from what the counter holds, or why it
/// cannot be paid. A fee is paid in full or not at all.
pub open spec fn settled(held: Option<i64>, fee: u64) -> Result<i64, ChargeFailure> {
    match held {
        None => Err(ChargeFailure::UnexpectedType),
        Some(current) => if current < fee {
            Err(ChargeFailure::RanOut { current, fee })
        } else {
            Ok((current - fee) as i64)
        },
    }
}

pub fn settle(held: Option<i64>, fee: u64) -> (updated: Result<i64, ChargeFailure>)
    ensures
        updated == settled(held, fee),
{
    match held {
        None => Err(ChargeFailure::UnexpectedType),
        Some(current) => {
            if current < 0 || (current as u64) < fee {
                Err(ChargeFailure::RanOut { current, fee })
            } else {
                Ok(current - (fee as i64))
            }
        },
    }
}

/// The outcome of a charge of `fee` against a counter that holds `held` and
/// is mutable or not.
pub open spec fn charged(held: Option<i64>, mutable: bool, fee: u64) -> Result<(), ChargeFailure> {
    match settled(held, fee) {
        Err(failure) => Err(failure),
        Ok(updated) => if mutable {
            Ok(())
        } else {
            Err(ChargeFailure::UpdateFailed { current: held->0, updated })
        },
    }
}

/// What the counter holds after that charge.
pub open spec fn held_after(held: Option<i64>, mutable: bool, fee: u64) -> Option<i64> {
    match settled(held, fee) {
        Ok(updated) if mutable => Some(updated),
        _ => held,
    }
}

/// Charging is exact and never adds to the budget. Where the budget covers
/// the fee and the counter takes the new value, the charge succeeds and
/// leaves the budget less exactly the fee, which is not negative. Where the
/// budget is smaller than the fee, the charge is refused as a budget that ran
/// out and the budget stays what it was. A counter that does not take the new
/// value keeps its value as well.
pub proof fn lemma_charge_is_exact(budget: i64, mutable: bool, subnet_type: SubnetType, num_bytes: u64)
    ensures
        ({
            let fee = cost(subnet_type, num_bytes);
            let outcome = charged(Some(budget), mutable, fee);
            let left = held_after(Some(budget), mutable, fee);
            &&& budget >= fee && mutable ==> outcome is Ok && left == Some((budget - fee) as i64)
            &&& budget < fee ==> outcome == Err::<(), ChargeFailure>(
                ChargeFailure::RanOut { current: budget, fee },
            ) && left == Some(budget)
            &&& !mutable ==> outcome is Err && left == Some(budget)
            &&& outcome is Ok ==> 0 <= left->0
            &&& left->0 <= budget
        }),
{
}

/// Charges a canister, in instructions, for the memory it touches.
pub struct MemoryCharger {
    subnet_type: SubnetType,
    counter: Option<Global>,
}

impl MemoryCharger {
    pub closed spec fn subnet_type(self) -> SubnetType {
        self.subnet_type
    }

    pub closed spec fn counter(self) -> Option<Global> {
        self.counter
    }

    pub fn new(subnet_type: SubnetType, counter: Option<Global>) -> (charger: Self)
        ensures
            charger.subnet_type() == subnet_type,
            charger.counter() == counter,
    {
        Self { subnet_type, counter }
    }

    /// The fee for touching `num_bytes` bytes of memory.
    pub fn fee(&self, num_bytes: u64) -> (fee: u64)
        ensures
            fee == cost(self.subnet_type(), num_bytes),
    {
        num_instructions_from_bytes(self.subnet_type, num_bytes)
    }

    /// Charges the canister for using `num_bytes` bytes of memory: the fee
    /// leaves the budget in full, or the charge is refused and the budget
    /// stays as it was.
    pub fn charge_for_memory_used(&self, store: &mut StoreContextMut<'_, ()>, num_bytes: u64) -> (outcome: Result<
        (),
        ChargeFailure,
    >)
        requires
            self.counter() matches Some(counter) ==> owns(*old(store), counter),
        ensures
            match self.counter() {
                None => outcome == Err::<(), ChargeFailure>(ChargeFailure::CounterUnavailable)
                    && *final(store) == *old(store),
                Some(counter) => {
                    let held = held_i64(*old(store), counter);
                    let mutable = is_mutable(*old(store), counter);
                    let fee = cost(self.subnet_type(), num_bytes);
                    &&& outcome == charged(held, mutable, fee)
                    &&& held_i64(*final(store), counter) == held_after(held, mutable, fee)
                    &&& owns(*final(store), counter)
                    &&& is_mutable(*final(store), counter) == mutable
                },
            },
    {
        let counter = match &self.counter {
            None => {
                return Err(ChargeFailure::CounterUnavailable);
            },
            Some(counter) => counter,
        };
        let fee = self.fee(num_bytes);
        let held = get_num_instructions(store, counter);
        match settle(held, fee) {
            Err(failure) => Err(failure),
            Ok(updated) => {
                if write_counter(store, counter, updated) {
                    Ok(())
                } else {
                    match held {
                        Some(current) => Err(ChargeFailure::UpdateFailed { current, updated }),
                        None => Err(ChargeFailure::UnexpectedType),
                    }
                }
            },
        }
    }
}

} // verus!
