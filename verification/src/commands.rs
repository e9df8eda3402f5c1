//! The requests of the user interface, each as a function of the state it
//! reads or changes.

use crate::settings::AppSettings;
use crate::state::AppState;
use vstd::prelude::*;
use vstd::string::*;

verus! {

/// A sip to record: how much, and for which session.
#[derive(Debug, Clone, Copy, PartialEq, Eq, Structural)]
pub struct SipOrder {
    pub amount: i64,
    pub session_id: i64,
}

/// Accepts or refuses a request to take a sip. It is refused until a
/// session is bound; once accepted, the sip has the amount of the settings.
pub fn take_sip(settings: &AppSettings, app_state: &AppState) -> (order: Result<SipOrder, String>)
    ensures
        match app_state.session_id {
            Some(session_id) => order == Ok::<SipOrder, String>(
                SipOrder { amount: settings.sip_amount_ml, session_id },
            ),
            None => order matches Err(text) && text@ == "No session ID available"@,
        },
{
    match app_state.session_id {
        Some(session_id) => Ok(SipOrder { amount: settings.sip_amount_ml, session_id }),
        None => Err(String::from_str("No session ID available")),
    }
}

/// Flips the timer and returns the state to show to observers.
pub fn toggle_timer(app_state: &mut AppState) -> (shown: AppState)
    ensures
        *final(app_state) == old(app_state).toggled(),
        shown == *final(app_state),
{
    app_state.toggle();
    *app_state
}

/// Hands out a copy of the timer and session state.
pub fn get_app_state(app_state: &AppState) -> (shown: AppState)
    ensures
        shown == *app_state,
{
    *app_state
}

} // verus!
