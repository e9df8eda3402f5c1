//! The decisions of the reminder loop. The loop itself, its one-second
//! cadence and the delivery of the notification belong to the caller: it
//! asks what to do at each tick, does it, and reports how it went.

use crate::clock::utc_now;
use crate::sip::{ledger_with_notified, ledger_with_sip, Sip, SipState, SIP_INTERVAL_SECONDS};
use vstd::prelude::*;

verus! {

/// Title of the reminder.
pub const REMINDER_TITLE: &'static str = "Sip is due";

/// Body of the reminder.
pub const REMINDER_BODY: &'static str = "Take a sip";

/// What the loop does at a tick.
#[derive(Debug, Clone, Copy, PartialEq, Eq, Structural)]
pub enum TickAction {
    /// The timer is stopped: let the tick pass.
    Idle,
    /// No sip is due, or the user has been reminded since the last one.
    Wait,
    /// Remind the user now.
    Notify,
}

/// The reminder could not be delivered.
#[derive(Debug, Clone, PartialEq, Eq)]
pub struct NotifyError {
    pub message: String,
}

/// The change to one row that the store must make.
#[derive(Debug, Clone, Copy, PartialEq, Eq, Structural)]
pub struct NotifiedUpdate {
    pub sip_id: i64,
    pub notified_user: bool,
}

/// The action at a tick that happens at `now`: remind exactly when the
/// timer runs, a sip is due and no reminder went out since the last sip.
pub open spec fn action_at(timer_started: bool, sips: SipState, now: i64) -> TickAction {
    if !timer_started {
        TickAction::Idle
    } else if sips.due_at(now) && !sips.notified_user {
        TickAction::Notify
    } else {
        TickAction::Wait
    }
}

/// Decides a tick that happens at `now`, in seconds since the Unix epoch.
pub fn tick_at(timer_started: bool, sips: &SipState, now: i64) -> (action: TickAction)
    ensures
        action == action_at(timer_started, *sips, now),
{
    if !timer_started {
        TickAction::Idle
    } else if sips.is_due_at(now) && !sips.notified_user {
        TickAction::Notify
    } else {
        TickAction::Wait
    }
}

/// Decides the tick that happens now, by the system clock.
pub fn tick(timer_started: bool, sips: &SipState) -> (action: TickAction)
    ensures
        !timer_started ==> action == TickAction::Idle,
        timer_started && sips.notified_user ==> action == TickAction::Wait,
        exists|now: i64| action == action_at(timer_started, *sips, now),
{
    let now = utc_now();
    let action = tick_at(timer_started, sips, now.secs);
    assert(action == action_at(timer_started, *sips, now.secs));
    action
}

impl SipState {
    /// The row to change so that the latest sip carries `notified_user`;
    /// `None` if no sip was ever taken, when there is nothing to change.
    /// Once the store has made the change the aggregate is rebuilt from the
    /// ledger; the cached copy is not patched.
    pub fn set_notified_user(&self, notified_user: bool) -> (update: Option<NotifiedUpdate>)
        ensures
            update == match self.last_sip_id {
                Some(sip_id) => Some(NotifiedUpdate { sip_id, notified_user }),
                None => None,
            },
    {
        match self.last_sip_id {
            Some(sip_id) => Some(NotifiedUpdate { sip_id, notified_user }),
            None => None,
        }
    }
}

/// What follows an attempt to remind the user. A delivered reminder is
/// recorded on the latest sip. A failed one is not: the sip stays due and
/// unacknowledged, so the next tick tries again.
pub fn after_notify(sips: &SipState, delivered: Result<(), NotifyError>) -> (update: Option<
    NotifiedUpdate,
>)
    ensures
        update == match sips.last_sip_id {
            Some(sip_id) if delivered is Ok => Some(
                NotifiedUpdate { sip_id, notified_user: true },
            ),
            _ => None,
        },
{
    match delivered {
        Ok(()) => sips.set_notified_user(true),
        Err(_) => None,
    }
}

/// One reminder for each overdue period: once the reminder for the latest
/// sip is recorded, no tick asks for another, however late it comes.
pub proof fn lemma_reminder_goes_out_once(
    before: SipState,
    after: SipState,
    sips: Seq<Sip>,
    sip_id: i64,
    start_of_today: i64,
    timer_started: bool,
    now: i64,
)
    requires
        before.describes(sips, start_of_today),
        before.last_sip_id == Some(sip_id),
        after.describes(ledger_with_notified(sips, sip_id, true), start_of_today),
    ensures
        action_at(timer_started, after, now) != TickAction::Notify,
{
}

/// A reminder that was not delivered changes nothing, so every later tick
/// of a running timer asks for it again.
pub proof fn lemma_failed_reminder_is_retried(sips: SipState, now: i64, later: i64)
    requires
        action_at(true, sips, now) == TickAction::Notify,
        now <= later,
    ensures
        action_at(true, sips, later) == TickAction::Notify,
{
}

/// A new sip starts a new period: with the timer running, the reminder is
/// held back up to the tenth second after the sip and asked for from the
/// eleventh on, whether or not the sip before it brought one.
pub proof fn lemma_new_sip_starts_a_period(
    after: SipState,
    sips: Seq<Sip>,
    id: i64,
    amount: i64,
    created_at: i64,
    start_of_today: i64,
    now: i64,
)
    requires
        after.describes(ledger_with_sip(sips, id, amount, created_at), start_of_today),
    ensures
        action_at(true, after, now) == if now - created_at > SIP_INTERVAL_SECONDS {
            TickAction::Notify
        } else {
            TickAction::Wait
        },
{
}

} // verus!
