//! The verification e-mail that carries a one-time code.
use vstd::prelude::*;

use crate::clock::is_clock_text;
use crate::models::EmailLog;
use crate::text::is_uuid_v4_text;

verus! {

/// Subject of the verification e-mail.
pub open spec fn spec_verification_subject() -> Seq<char> {
    "Your verification code"@
}

/// Body of the verification e-mail for `code`.
pub open spec fn spec_verification_body(code: Seq<char>) -> Seq<char> {
    "Hello,\n\nYour two-factor authentication code is: "@ + code
        + "\n\nIt expires in 5 minutes.\n\nDo not share this code."@
}

/// The body of the verification e-mail for `code`.
pub fn verification_body(code: &str) -> (body: String)
    ensures
        body@ == spec_verification_body(code@),
{
    let mut body = "Hello,\n\nYour two-factor authentication code is: ".to_owned();
    body.append(code);
    body.append("\n\nIt expires in 5 minutes.\n\nDo not share this code.");
    body
}

/// The record of the verification e-mail sent now to `to_email` with `code`.
pub fn verification_email(to_email: &str, code: &str) -> (log: EmailLog)
    ensures
        log.to_email@ == to_email@,
        log.subject@ == spec_verification_subject(),
        log.body@ == spec_verification_body(code@),
        is_uuid_v4_text(log.id@),
        is_clock_text(log.sent_at@),
{
    let body = verification_body(code);
    EmailLog::new(to_email, "Your verification code", body.as_str())
}

} // verus!
