//! The state that commands and the scheduler share besides the ledger: the
//! timer flag and the session of this run.

use crate::clock::{rfc3339_text, utc_now, Timestamp};
use crate::settings::AppSettings;
use crate::sip::PersistenceError;
use std::sync::{LockResult, Mutex, MutexGuard, PoisonError};
use vstd::prelude::*;

verus! {

/// The timer and the session of this run of the program. The timer starts
/// stopped and changes only by toggling. The session is bound once, at
/// startup; until then no sip can be attributed to a run.
#[derive(Debug, Clone, Copy, PartialEq, Eq, Structural)]
pub struct AppState {
    pub timer_started: bool,
    /// The store's key for this run's session, once the session is stored.
    pub session_id: Option<i64>,
    pub session_start: Timestamp,
}

/// The session of this run could not be stored.
#[derive(Debug, Clone, PartialEq, Eq)]
pub struct SessionInitError {
    pub cause: PersistenceError,
}

impl AppState {
    /// The state at startup for a run that began at `session_start`.
    pub open spec fn initial(session_start: Timestamp) -> AppState {
        AppState { timer_started: false, session_id: None, session_start }
    }

    /// This state with the timer flag flipped.
    pub open spec fn toggled(self) -> AppState {
        AppState { timer_started: !self.timer_started, ..self }
    }

    /// The state at startup, for a run that begins now by the system clock:
    /// the timer is stopped, no session is bound, and the start is a moment
    /// that can be written out, so that the run's session can be recorded.
    pub fn new() -> (state: AppState)
        ensures
            state == Self::initial(state.session_start),
            rfc3339_text(state.session_start.secs, state.session_start.nanos) is Some,
    {
        AppState { timer_started: false, session_id: None, session_start: utc_now() }
    }

    /// Starts the timer; does nothing if it runs.
    pub fn start_timer(&mut self)
        ensures
            *final(self) == (AppState { timer_started: true, ..*old(self) }),
    {
        if !self.timer_started {
            self.timer_started = true;
        }
    }

    /// Stops the timer; does nothing if it is stopped.
    pub fn stop_timer(&mut self)
        ensures
            *final(self) == (AppState { timer_started: false, ..*old(self) }),
    {
        if self.timer_started {
            self.timer_started = false;
        }
    }

    /// Flips the timer, whatever its state, and returns the new state of
    /// the flag.
    pub fn toggle(&mut self) -> (timer_started: bool)
        ensures
            *final(self) == old(self).toggled(),
            timer_started == !old(self).timer_started,
    {
        if self.timer_started {
            self.stop_timer();
        } else {
            self.start_timer();
        }
        self.timer_started
    }

    /// Binds the session once the store has answered the insert of its
    /// record: with the new row's key on success, and not at all on
    /// failure. A failure is fatal: the caller must not go on to accept
    /// commands.
    pub fn init_session(&mut self, inserted: Result<i64, PersistenceError>) -> (outcome: Result<
        (),
        SessionInitError,
    >)
        ensures
            match inserted {
                Ok(row_id) => outcome is Ok && *final(self) == (AppState {
                    session_id: Some(row_id),
                    ..*old(self)
                }),
                Err(cause) => outcome == Err::<(), SessionInitError>(SessionInitError { cause })
                    && *final(self) == *old(self),
            },
    {
        match inserted {
            Ok(row_id) => {
                self.session_id = Some(row_id);
                Ok(())
            },
            Err(cause) => Err(SessionInitError { cause }),
        }
    }
}

/// `std::sync::Mutex`, taken as it is: nothing is said of what it holds.
#[verifier::external_type_specification]
#[verifier::external_body]
#[verifier::reject_recursive_types(T)]
pub struct ExMutex<T: ?Sized>(Mutex<T>);

/// `std::sync::MutexGuard`, taken as it is.
#[verifier::external_type_specification]
#[verifier::external_body]
#[verifier::reject_recursive_types(T)]
pub struct ExMutexGuard<'a, T: ?Sized + 'a>(MutexGuard<'a, T>);

/// `std::sync::PoisonError`, taken as it is.
#[verifier::external_type_specification]
#[verifier::external_body]
#[verifier::reject_recursive_types(T)]
pub struct ExPoisonError<T>(PoisonError<T>);

/// `Mutex::new` wraps a value in a lock. Nothing is claimed of the lock.
pub assume_specification<T>[ Mutex::<T>::new ](t: T) -> (mutex: Mutex<T>)
;

/// `Mutex::lock` waits for the lock and hands out a guard, or the error
/// that carries the guard if a holder of the lock panicked. Nothing is
/// claimed of what the guard holds: other holders may have changed it.
pub assume_specification<'a, T: ?Sized>[ Mutex::<T>::lock ](mutex: &'a Mutex<T>) -> (guard:
    LockResult<MutexGuard<'a, T>>)
;

/// `PoisonError::into_inner` gives up what the error carries. Nothing is
/// claimed of it.
pub assume_specification<T>[ PoisonError::<T>::into_inner ](error: PoisonError<T>) -> (inner: T)
;

/// The settings, shared between the commands under one lock of their own.
pub struct SettingsState(Mutex<AppSettings>);

impl SettingsState {
    pub fn new(settings: AppSettings) -> Self {
        Self(Mutex::new(settings))
    }

    /// Waits for the lock. No other lock is taken while this one is held.
    pub fn lock(&self) -> Result<
        MutexGuard<'_, AppSettings>,
        PoisonError<MutexGuard<'_, AppSettings>>,
    > {
        self.0.lock()
    }
}

/// The timer and session state, shared between the commands and the
/// scheduler under one lock of their own.
pub struct AppTimerState(Mutex<AppState>);

impl AppTimerState {
    pub fn new(app_state: AppState) -> Self {
        Self(Mutex::new(app_state))
    }

    /// Waits for the lock. It is held only to read or flip a flag, never
    /// across a read or write of the store.
    pub fn lock(&self) -> Result<MutexGuard<'_, AppState>, PoisonError<MutexGuard<'_, AppState>>> {
        self.0.lock()
    }
}

/// For the locks around plain flags and numbers: a lock whose holder
/// panicked is used as if nothing had happened.
pub trait IgnorePoisoned<T> {
    fn ignore_poisoned(self) -> T;
}

impl<T> IgnorePoisoned<T> for Result<T, PoisonError<T>> {
    /// Takes the guard out of either outcome of `lock`.
    fn ignore_poisoned(self) -> (value: T)
        ensures
            self matches Ok(guard) ==> value == guard,
    {
        match self {
            Ok(guard) => guard,
            Err(poisoned) => poisoned.into_inner(),
        }
    }
}

} // verus!
