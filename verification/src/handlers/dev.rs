//! The development endpoint that shows the last e-mail sent.
use vstd::prelude::*;

use crate::models::EmailLog;

verus! {

/// The answer of GET /dev/email-logs/latest.
#[derive(Debug, Clone)]
pub enum LatestEmailAnswer {
    /// The most recent e-mail, with a note that the endpoint is for development only.
    Found { id: String, to: String, subject: String, body: String, sent_at: String, note: String },
    /// No e-mail was sent yet.
    NoneSent { message: String },
}

/// GET /dev/email-logs/latest, the answer for the most recent e-mail record, if any.
pub fn latest_email_answer(latest: Option<EmailLog>) -> (answer: LatestEmailAnswer)
    ensures
        match latest {
            Some(log) => answer matches LatestEmailAnswer::Found { id, to, subject, body, sent_at, note }
                && id@ == log.id@ && to@ == log.to_email@ && subject@ == log.subject@ && body@
                == log.body@ && sent_at@ == log.sent_at@ && note@
                == "This endpoint is for local development only."@,
            None => answer matches LatestEmailAnswer::NoneSent { message } && message@
                == "No emails have been sent yet."@,
        },
{
    match latest {
        Some(log) => LatestEmailAnswer::Found {
            id: log.id,
            to: log.to_email,
            subject: log.subject,
            body: log.body,
            sent_at: log.sent_at,
            note: "This endpoint is for local development only.".to_owned(),
        },
        None => LatestEmailAnswer::NoneSent { message: "No emails have been sent yet.".to_owned() },
    }
}

} // verus!
