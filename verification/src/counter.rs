//! The instruction counter of one execution, kept in a mutable 64-bit global
//! of the engine's store. The host reaches it through the store context that
//! a host function receives, or through that of the store itself.

use vstd::prelude::*;
use wasmtime::{Global, GlobalType, Mutability, StoreContextMut, Val, ValType};

verus! {

#[verifier::external_type_specification]
#[verifier::external_body]
pub struct ExGlobal(wasmtime::Global);

#[verifier::external_type_specification]
#[verifier::external_body]
#[verifier::reject_recursive_types(T)]
pub struct ExStoreContextMut<'a, T: 'static>(wasmtime::StoreContextMut<'a, T>);

/// Whether the global belongs to the store.
pub uninterp spec fn owns(store: StoreContextMut<'static, ()>, global: Global) -> bool;

/// Whether the global may be written after its creation.
pub uninterp spec fn is_mutable(store: StoreContextMut<'static, ()>, global: Global) -> bool;

/// The 64-bit integer that the global holds in the store, `None` where the
/// global is of another type than `i64`.
pub uninterp spec fn held_i64(store: StoreContextMut<'static, ()>, global: Global) -> Option<i64>;

/// `wasmtime::Global::new`, asked for a mutable global of type `i64` with the
/// given initial value. The store owns the global it returns; the call fails
/// only where the store cannot allocate it.
#[verifier::external_body]
fn global_new_i64(store: &mut StoreContextMut<'_, ()>, initial: i64) -> (created: Option<Global>)
    ensures
        created matches Some(global) ==> owns(*final(store), global) && is_mutable(
            *final(store),
            global,
        ) && held_i64(*final(store), global) == Some(initial),
{
    Global::new(&mut *store, GlobalType::new(ValType::I64, Mutability::Var), Val::I64(initial)).ok()
}

/// `wasmtime::Global::ty`, which panics where the store does not own the
/// global, followed by `GlobalType::content` and `ValType::is_i64`: whether
/// the global is of type `i64`.
#[verifier::external_body]
fn global_is_i64(store: &StoreContextMut<'_, ()>, global: &Global) -> (yes: bool)
    requires
        owns(*store, *global),
    ensures
        yes == (held_i64(*store, *global) is Some),
{
    global.ty(store).content().is_i64()
}

/// `wasmtime::Global::get`, followed by `Val::i64`. The call panics where the
/// store does not own the global, and for globals of some reference types:
/// it is made for a global of type `i64` only. Reading leaves the global as
/// it was.
#[verifier::external_body]
fn global_get_i64(store: &mut StoreContextMut<'_, ()>, global: &Global) -> (value: Option<i64>)
    requires
        owns(*old(store), *global),
        held_i64(*old(store), *global) is Some,
    ensures
        value == held_i64(*old(store), *global),
        owns(*final(store), *global),
        is_mutable(*final(store), *global) == is_mutable(*old(store), *global),
        held_i64(*final(store), *global) == held_i64(*old(store), *global),
{
    global.get(&mut *store).i64()
}

/// `wasmtime::Global::set` with a 64-bit integer, which panics where the store
/// does not own the global. It writes the value and succeeds exactly where the
/// global is mutable and of type `i64`; otherwise the global keeps its value.
#[verifier::external_body]
fn global_set_i64(store: &mut StoreContextMut<'_, ()>, global: &Global, value: i64) -> (written: bool)
    requires
        owns(*old(store), *global),
    ensures
        written == (is_mutable(*old(store), *global) && held_i64(*old(store), *global) is Some),
        written ==> held_i64(*final(store), *global) == Some(value),
        !written ==> held_i64(*final(store), *global) == held_i64(*old(store), *global),
        owns(*final(store), *global),
        is_mutable(*final(store), *global) == is_mutable(*old(store), *global),
{
    global.set(&mut *store, Val::I64(value)).is_ok()
}

/// Creates the instruction counter of one execution in the store, holding
/// `initial` instructions. `None` where the store could not allocate it.
pub fn new_counter(store: &mut StoreContextMut<'_, ()>, initial: i64) -> (created: Option<Global>)
    ensures
        created matches Some(counter) ==> owns(*final(store), counter) && is_mutable(
            *final(store),
            counter,
        ) && held_i64(*final(store), counter) == Some(initial),
{
    global_new_i64(store, initial)
}

/// The instructions that are left, `None` where the counter does not hold a
/// 64-bit integer. A counter of another type is not read at all.
pub fn get_num_instructions(store: &mut StoreContextMut<'_, ()>, counter: &Global) -> (left: Option<i64>)
    requires
        owns(*old(store), *counter),
    ensures
        left == held_i64(*old(store), *counter),
        owns(*final(store), *counter),
        is_mutable(*final(store), *counter) == is_mutable(*old(store), *counter),
        held_i64(*final(store), *counter) == held_i64(*old(store), *counter),
{
    if global_is_i64(store, counter) {
        global_get_i64(store, counter)
    } else {
        None
    }
}

/// Sets the budget before an execution begins. Returns whether the counter
/// took the value: it does exactly where it is mutable and holds a 64-bit
/// integer, and keeps its value otherwise.
pub fn set_num_instructions(store: &mut StoreContextMut<'_, ()>, counter: &Global, budget: i64) -> (set: bool)
    requires
        owns(*old(store), *counter),
    ensures
        set == (is_mutable(*old(store), *counter) && held_i64(*old(store), *counter) is Some),
        set ==> held_i64(*final(store), *counter) == Some(budget),
        !set ==> held_i64(*final(store), *counter) == held_i64(*old(store), *counter),
        owns(*final(store), *counter),
        is_mutable(*final(store), *counter) == is_mutable(*old(store), *counter),
{
    global_set_i64(store, counter, budget)
}

/// Writes what is left after a charge. The counter takes the value exactly
/// where it is mutable and holds a 64-bit integer.
pub(crate) fn write_counter(store: &mut StoreContextMut<'_, ()>, counter: &Global, left: i64) -> (written: bool)
    requires
        owns(*old(store), *counter),
    ensures
        written == (is_mutable(*old(store), *counter) && held_i64(*old(store), *counter) is Some),
        written ==> held_i64(*final(store), *counter) == Some(left),
        !written ==> held_i64(*final(store), *counter) == held_i64(*old(store), *counter),
        owns(*final(store), *counter),
        is_mutable(*final(store), *counter) == is_mutable(*old(store), *counter),
{
    global_set_i64(store, counter, left)
}

/// What an execution consumed: the budget it began with less what is left.
pub fn instructions_consumed(initial: i64, remaining: i64) -> (consumed: i128)
    ensures
        consumed == initial - remaining,
{
    let a: i128 = initial as i128;
    let b: i128 = remaining as i128;
    a - b
}

} // verus!
