//! The cross-core spinlock guarding the two schedulers.
//!
//! The kernel runs one scheduler per core; a single flag serializes every
//! cross-core read of the peer scheduler and every migration update.  The
//! flag is modelled as a plain boolean: within this sequential model an
//! acquisition is one successful exchange, and a lock held by the peer is
//! simply found held.

use vstd::prelude::*;

verus! {

/// One attempt at taking the lock: `Ok(false)` — the previous value — when
/// the lock was free and is now held, `Err(true)` when it was already
/// held.
pub fn spinlock_try(lock: &mut bool) -> (r: Result<bool, bool>)
    ensures
        !*old(lock) ==> r == Ok::<bool, bool>(false) && *final(lock),
        *old(lock) ==> r == Err::<bool, bool>(true) && *final(lock),
{
    if !*lock {
        *lock = true;
        Ok(false)
    } else {
        Err(true)
    }
}

/// Takes the lock.  The caller holds no copy of it, so in this sequential
/// model the lock is free and one attempt acquires it; a held lock would
/// spin until the holder releases.
pub fn spinlock(lock: &mut bool)
    requires
        !*old(lock),
    ensures
        *final(lock),
{
    match spinlock_try(lock) {
        Ok(_) => {},
        Err(_) => {},
    }
}

/// Releases the lock.
pub fn spinunlock(lock: &mut bool)
    ensures
        !*final(lock),
{
    *lock = false;
}

} // verus!
