//! The record that is stored for each run of the program.

use crate::clock::{rfc3339_text, to_rfc3339};
use crate::state::AppState;
use vstd::prelude::*;

verus! {

/// What the store keeps of a session: a token that no other session has,
/// and the start of the run as RFC 3339 text.
#[derive(Debug, Clone, PartialEq, Eq)]
pub struct SessionRecord {
    pub session_id: String,
    pub session_start: String,
}

/// The shape of a session token: thirty-six characters in five groups
/// parted by hyphens.
pub open spec fn is_session_token(token: Seq<char>) -> bool {
    &&& token.len() == 36
    &&& token[8] == '-'
    &&& token[13] == '-'
    &&& token[18] == '-'
    &&& token[23] == '-'
}

/// Draws a random identifier with `uuid::Uuid::new_v4` and writes it out
/// with the type's `Display`, which gives the hyphenated lower-case form.
/// The contract claims only the shape of the text. Which token comes out
/// is left open, and so is that no two are equal.
#[verifier::external_body]
fn new_session_token() -> (token: String)
    ensures
        is_session_token(token@),
{
    uuid::Uuid::new_v4().to_string()
}

impl SessionRecord {
    /// Puts a record together from a token and the text of the start, if
    /// the start has one.
    pub fn assemble(session_id: String, session_start: Option<String>) -> (record: Option<
        SessionRecord,
    >)
        ensures
            record == match session_start {
                Some(text) => Some(SessionRecord { session_id, session_start: text }),
                None => None,
            },
    {
        match session_start {
            Some(text) => Some(SessionRecord { session_id, session_start: text }),
            None => None,
        }
    }
}

impl AppState {
    /// The record to store for this run: a fresh token and the start of the
    /// run. There is a record for every start that has an RFC 3339 text,
    /// which includes every moment from 1970 up to the year 10000.
    pub fn session_record(&self) -> (record: Option<SessionRecord>)
        ensures
            record is Some <==> rfc3339_text(self.session_start.secs, self.session_start.nanos)
                is Some,
            record matches Some(r) ==> is_session_token(r.session_id@) && rfc3339_text(
                self.session_start.secs,
                self.session_start.nanos,
            ) == Some(r.session_start@),
    {
        let token = new_session_token();
        let start = to_rfc3339(&self.session_start);
        SessionRecord::assemble(token, start)
    }
}

} // verus!
