use std::sync::atomic::{AtomicUsize, Ordering};
use std::sync::{Mutex, MutexGuard, TryLockError};
use vstd::prelude::*;

verus! {

#[verifier::external_type_specification]
#[verifier::external_body]
#[verifier::reject_recursive_types(T)]
pub struct ExMutex<T: ?Sized>(Mutex<T>);

#[verifier::external_type_specification]
#[verifier::external_body]
#[verifier::reject_recursive_types(T)]
pub struct ExMutexGuard<'a, T: ?Sized + 'a>(MutexGuard<'a, T>);

/// Relies on std::sync::Mutex::new: wraps a value in an unlocked mutex.
pub assume_specification<T>[ Mutex::<T>::new ](t: T) -> Mutex<T>;

/// The number of attempts after which acquisition gives up. Each busy
/// attempt moves on to the other slot, and with one producer and one
/// consumer a slot is busy only while the other thread holds it, so this
/// bound is never reached in practice.
pub const MAX_ATTEMPTS: usize = usize::MAX;

/// Why a slot could not be taken.
#[derive(Clone, Copy, Debug, PartialEq, Eq, Structural)]
pub enum SlotError {
    /// Every attempt found its slot held by another thread.
    Busy,
    /// A thread panicked while holding the slot; its contents are suspect.
    Poisoned,
}

/// Relies on std::sync::Mutex::try_lock: takes the lock without waiting,
/// or reports that it is held elsewhere (`WouldBlock`) or poisoned.
#[verifier::external_body]
fn try_slot<'a, T>(m: &'a Mutex<T>) -> Result<MutexGuard<'a, T>, SlotError> {
    match m.try_lock() {
        Ok(g) => Ok(g),
        Err(TryLockError::WouldBlock) => Err(SlotError::Busy),
        Err(TryLockError::Poisoned(_)) => Err(SlotError::Poisoned),
    }
}

/// The slot other than `idx`.
pub fn other_slot(idx: usize) -> (r: usize)
    requires
        idx < 2,
    ensures
        r < 2,
        r != idx,
{
    1 - idx
}

/// What acquisition does after one attempt.
pub enum Step<G> {
    /// The attempt took its slot: hand over the guard.
    Take(G),
    /// The slot was busy: try this slot next.
    Retry(usize),
    /// Give up with this error.
    Stop(SlotError),
}

/// Decides the next move after an attempt on slot `idx`: a taken slot is
/// handed over, a busy one sends the caller to the other slot, and a
/// poisoned one ends the acquisition.
pub fn next_step<G>(idx: usize, attempt: Result<G, SlotError>) -> (r: Step<G>)
    requires
        idx < 2,
    ensures
        match attempt {
            Ok(g) => r == Step::Take(g),
            Err(SlotError::Busy) => r == Step::<G>::Retry((1 - idx) as usize),
            Err(SlotError::Poisoned) => r == Step::<G>::Stop(SlotError::Poisoned),
        },
{
    match attempt {
        Ok(g) => Step::Take(g),
        Err(SlotError::Busy) => Step::Retry(other_slot(idx)),
        Err(SlotError::Poisoned) => Step::Stop(SlotError::Poisoned),
    }
}

/// Two lock-guarded slots and a shared bit naming which of them is the
/// front (read by the consumer); the other is the back (filled by the
/// producer). Acquisition never waits on a lock: a busy slot sends the
/// caller to the other one.
#[verifier::reject_recursive_types(T)]
pub struct DoubleBuffer<T> {
    idx: AtomicUsize,
    bufs: [Mutex<T>; 2],
}

impl<T> DoubleBuffer<T> {
    /// A buffer whose front slot holds `front` and back slot holds `back`.
    pub fn new(front: T, back: T) -> (r: DoubleBuffer<T>) {
        let idx = AtomicUsize::new(0);
        DoubleBuffer { idx, bufs: [Mutex::new(front), Mutex::new(back)] }
    }

    /// The slot that is the front at the time of the call.
    pub fn front_index(&self) -> (r: usize)
        ensures
            r < 2,
    {
        let v = self.idx.load(Ordering::SeqCst);
        let i = v & 1;
        assert(i < 2) by (bit_vector)
            requires
                i == v & 1,
        ;
        i
    }

    /// Takes the slot that is the front at the time of the call, or the back
    /// one if the front is held elsewhere. Fails only on a poisoned slot,
    /// or when every one of `MAX_ATTEMPTS` attempts found its slot busy.
    pub fn front(&self) -> (r: Result<MutexGuard<'_, T>, SlotError>) {
        let i = self.front_index();
        self.get(i)
    }

    /// Takes the slot that is the back at the time of the call, or the front
    /// one if the back is held elsewhere. Fails as `front` does.
    pub fn back(&self) -> (r: Result<MutexGuard<'_, T>, SlotError>) {
        let i = self.front_index();
        self.get(other_slot(i))
    }

    /// Exchanges the roles of the two slots, without moving data or
    /// waiting.
    pub fn flip(&self) {
        self.idx.fetch_xor(1, Ordering::SeqCst);
    }

    /// Tries slot `init_idx` first, and on a busy slot the other one, in
    /// turn, until one is taken.
    fn get(&self, init_idx: usize) -> (r: Result<MutexGuard<'_, T>, SlotError>)
        requires
            init_idx < 2,
    {
        let mut idx: usize = init_idx;
        let mut attempts: usize = 0;
        while attempts < MAX_ATTEMPTS
            invariant
                idx < 2,
            decreases MAX_ATTEMPTS - attempts,
        {
            match next_step(idx, try_slot(&self.bufs[idx])) {
                Step::Take(g) => {
                    return Ok(g);
                },
                Step::Retry(next) => {
                    idx = next;
                },
                Step::Stop(e) => {
                    return Err(e);
                },
            }
            attempts = attempts + 1;
        }
        Err(SlotError::Busy)
    }
}

} // verus!
