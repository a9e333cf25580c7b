//! The delay and sound counters.
//!
//! `Timer` is the plain state and its 60 Hz step. `Clock` shares one `Timer`
//! between the interpreter and the thread that ticks it: every access takes
//! the one lock that guards all three fields, so no two locks are ever held
//! together.

use std::sync::{Arc, Mutex, MutexGuard};
use vstd::prelude::*;

verus! {

/// Ticks per second.
pub const TICK_SPEED: u64 = 60;

/// Nanoseconds between two ticks.
pub const TICK_DELAY_NANOS: u64 = 1_000_000_000 / TICK_SPEED;

/// The two countdown registers, and whether a tone should sound.
#[derive(Debug, Clone, Copy, PartialEq, Eq, Structural)]
pub struct Timer {
    /// Delay counter.
    pub dtime: u8,
    /// Sound counter.
    pub stime: u8,
    /// Set by a tick that found the sound counter running.
    pub beep: bool,
}

/// What an instruction asks of the counters.
#[derive(Debug, Clone, Copy, PartialEq, Eq, Structural)]
pub enum ClockRequest {
    /// Nothing: the instruction leaves the counters alone.
    Nothing,
    /// The value of the delay counter.
    ReadDelay,
    /// To start the delay counter at a value.
    SetDelay(u8),
    /// To start the sound counter at a value.
    SetSound(u8),
}

/// A counter after one tick: one less, and never below zero.
pub open spec fn counted_down(counter: u8) -> u8 {
    if counter > 0 {
        (counter - 1) as u8
    } else {
        0
    }
}

impl Timer {
    /// The state after one tick.
    pub open spec fn ticked(self) -> Timer {
        Timer { dtime: counted_down(self.dtime), stime: counted_down(self.stime), beep: self.stime > 0 }
    }

    /// The state after `n` ticks.
    pub open spec fn ticked_times(self, n: nat) -> Timer
        decreases n,
    {
        if n == 0 {
            self
        } else {
            self.ticked().ticked_times((n - 1) as nat)
        }
    }

    /// The state after a request was served.
    pub open spec fn served(self, req: ClockRequest) -> Timer {
        match req {
            ClockRequest::SetDelay(value) => Timer { dtime: value, ..self },
            ClockRequest::SetSound(value) => Timer { stime: value, ..self },
            ClockRequest::Nothing | ClockRequest::ReadDelay => self,
        }
    }

    /// The answer to a request: the delay counter where that is asked for,
    /// zero otherwise.
    pub open spec fn answer(self, req: ClockRequest) -> u8 {
        match req {
            ClockRequest::ReadDelay => self.dtime,
            _ => 0,
        }
    }

    /// Both counters stopped, no tone.
    pub fn new() -> (t: Self)
        ensures
            t == (Timer { dtime: 0, stime: 0, beep: false }),
    {
        Self { dtime: 0, stime: 0, beep: false }
    }

    /// Starts the delay counter at `value`.
    pub fn set_delay(&mut self, value: u8)
        ensures
            *final(self) == (Timer { dtime: value, ..*old(self) }),
    {
        self.dtime = value;
    }

    /// Starts the sound counter at `value`.
    pub fn set_sound(&mut self, value: u8)
        ensures
            *final(self) == (Timer { stime: value, ..*old(self) }),
    {
        self.stime = value;
    }

    /// Serves a request and returns the answer to it.
    pub fn serve(&mut self, req: ClockRequest) -> (answer: u8)
        ensures
            *final(self) == old(self).served(req),
            answer == old(self).answer(req),
    {
        match req {
            ClockRequest::Nothing => 0,
            ClockRequest::ReadDelay => self.dtime,
            ClockRequest::SetDelay(value) => {
                self.set_delay(value);
                0
            },
            ClockRequest::SetSound(value) => {
                self.set_sound(value);
                0
            },
        }
    }

    /// One tick: each running counter loses one; the tone sounds exactly if
    /// the sound counter was running.
    pub fn tick(&mut self)
        ensures
            *final(self) == old(self).ticked(),
    {
        if self.dtime > 0 {
            self.dtime = self.dtime - 1;
        }
        if self.stime > 0 {
            self.stime = self.stime - 1;
            self.beep = true;
        } else {
            self.beep = false;
        }
    }
}

/// After `n` ticks each counter has lost `n`, or stands at zero if it held
/// less: it never wraps. The tone sounds exactly if the last tick found the
/// sound counter running.
pub proof fn lemma_ticked_times(t: Timer, n: nat)
    ensures
        t.ticked_times(n).dtime == if t.dtime >= n { t.dtime - n } else { 0 },
        t.ticked_times(n).stime == if t.stime >= n { t.stime - n } else { 0 },
        n > 0 ==> t.ticked_times(n).beep == (t.stime >= n),
    decreases n,
{
    if n > 0 {
        lemma_ticked_times(t.ticked(), (n - 1) as nat);
    }
}

/// A delay counter started at `start` reads exactly zero after `start` ticks
/// or more.
pub proof fn lemma_delay_runs_out(t: Timer, n: nat)
    requires
        n >= t.dtime,
    ensures
        t.ticked_times(n).dtime == 0,
{
    lemma_ticked_times(t, n);
}

/// A lock round a value, opaque to the verifier.
#[verifier::external_type_specification]
#[verifier::external_body]
#[verifier::reject_recursive_types(T)]
pub struct ExMutex<T: ?Sized>(Mutex<T>);

/// A held lock, opaque to the verifier.
#[verifier::external_type_specification]
#[verifier::external_body]
#[verifier::reject_recursive_types(T)]
pub struct ExMutexGuard<'a, T: ?Sized + 'a>(MutexGuard<'a, T>);

/// `Mutex::new`: a lock round `value`. Nothing is claimed of it.
pub assume_specification<T>[ Mutex::<T>::new ](value: T) -> (lock: Mutex<T>);

/// `Mutex::lock`: waits for the lock and takes it; `None` when a thread
/// panicked while holding it. Which of the two comes back is not claimed.
#[verifier::external_body]
fn acquire<T>(lock: &Mutex<T>) -> (held: Option<MutexGuard<'_, T>>) {
    match lock.lock() {
        Ok(guard) => Some(guard),
        Err(_) => None,
    }
}

/// `MutexGuard::deref`: a copy of the guarded value. Other threads write it
/// between two holdings, so nothing is claimed of it.
#[verifier::external_body]
fn guarded<T: Copy>(guard: &MutexGuard<'_, T>) -> (value: T) {
    **guard
}

/// `MutexGuard::deref_mut`: replaces the guarded value.
#[verifier::external_body]
fn replace_guarded<T>(guard: &mut MutexGuard<'_, T>, value: T) {
    **guard = value;
}

/// One `Timer` behind a lock, shared by all clones of the handle.
pub struct Clock {
    shared: Arc<Mutex<Timer>>,
    start: Ghost<Timer>,
}

impl Clock {
    /// The counters that the lock was made round, before anything ticked or
    /// set them.
    pub closed spec fn started_with(&self) -> Timer {
        self.start@
    }

    /// A clock with both counters stopped.
    pub fn new() -> (clock: Self)
        ensures
            clock.started_with() == (Timer { dtime: 0, stime: 0, beep: false }),
    {
        let timer = Timer::new();
        Self { shared: Arc::new(Mutex::new(timer)), start: Ghost(timer) }
    }

    /// Another handle to the same counters: to the verifier a handle stands
    /// for the counters it leads to, so the two are equal.
    pub fn handle(&self) -> (twin: Self)
        ensures
            twin == *self,
    {
        Self { shared: self.shared.clone(), start: self.start }
    }

    /// Serves a request on the shared counters, under the lock, and returns
    /// the answer to it. Fails when the lock is poisoned.
    pub fn serve(&self, req: ClockRequest) -> Result<u8, ()> {
        match acquire(&*self.shared) {
            Some(mut guard) => {
                let mut timer: Timer = guarded(&guard);
                let answer: u8 = timer.serve(req);
                replace_guarded(&mut guard, timer);
                Ok(answer)
            },
            None => Err(()),
        }
    }

    /// Ticks the shared counters once, under the lock. Fails when the lock is
    /// poisoned.
    pub fn tick(&self) -> Result<(), ()> {
        match acquire(&*self.shared) {
            Some(mut guard) => {
                let mut timer: Timer = guarded(&guard);
                timer.tick();
                replace_guarded(&mut guard, timer);
                Ok(())
            },
            None => Err(()),
        }
    }

    /// A snapshot of the shared counters. Fails when the lock is poisoned.
    pub fn read(&self) -> Result<Timer, ()> {
        match acquire(&*self.shared) {
            Some(guard) => Ok(guarded(&guard)),
            None => Err(()),
        }
    }

    /// Sets the delay counter. Fails when the lock is poisoned.
    pub fn set_delay(&self, value: u8) -> Result<(), ()> {
        match acquire(&*self.shared) {
            Some(mut guard) => {
                let mut timer: Timer = guarded(&guard);
                timer.set_delay(value);
                replace_guarded(&mut guard, timer);
                Ok(())
            },
            None => Err(()),
        }
    }

    /// Sets the sound counter. Fails when the lock is poisoned.
    pub fn set_sound(&self, value: u8) -> Result<(), ()> {
        match acquire(&*self.shared) {
            Some(mut guard) => {
                let mut timer: Timer = guarded(&guard);
                timer.set_sound(value);
                replace_guarded(&mut guard, timer);
                Ok(())
            },
            None => Err(()),
        }
    }
}

/// The tone signal of a clock, for reading only.
pub struct Beep {
    clock: Clock,
}

impl Beep {
    /// The clock whose tone this is.
    pub closed spec fn clock(&self) -> Clock {
        self.clock
    }

    /// Whether a tone should sound now. Fails when the clock's lock is
    /// poisoned.
    pub fn get(&self) -> Result<bool, ()> {
        match self.clock.read() {
            Ok(timer) => Ok(timer.beep),
            Err(_) => Err(()),
        }
    }
}

impl Clock {
    /// The tone signal of this clock.
    pub fn beep(&self) -> (beep: Beep)
        ensures
            beep.clock() == *self,
    {
        Beep { clock: self.handle() }
    }
}

} // verus!
