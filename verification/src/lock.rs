//! The spin lock that guards a task control block.
use vstd::prelude::*;

verus! {

/// `spin::mutex::Mutex`, carried through as an opaque value.
#[verifier::external_type_specification]
#[verifier::external_body]
#[verifier::reject_recursive_types(T)]
#[verifier::reject_recursive_types(R)]
pub struct ExSpinMutex<T: ?Sized, R>(spin::mutex::Mutex<T, R>);

/// `spin::relax::Spin`, the relax strategy of a plain spin lock.
#[verifier::external_type_specification]
#[verifier::external_body]
pub struct ExSpinRelax(spin::relax::Spin);

/// Calls `spin::Mutex::new(())`: an unlocked lock guarding no data.  Nothing
/// about the lock's state is stated; only the caller's locking uses it.
#[verifier::external_body]
pub(crate) fn new_unit_lock() -> (l: spin::Mutex<()>) {
    spin::Mutex::new(())
}

} // verus!
