//! Outbound digest mail: the mailer interface and the decision of when a
//! digest is sent at all.

use vstd::prelude::*;
use crate::krate::CrateSummary;

verus! {

/// Abstract mailer. Implementations render and deliver the digest through an
/// outside mail service, so nothing is promised about their outcomes.
pub trait MailerTrait: Sized {
    /// Render and send a digest of the given packages to `email`.
    fn send_digest(&mut self, email: &String, crates: &Vec<CrateSummary>) -> (r: Result<
        (),
        String,
    >);
}

/// How a digest request ended.
#[derive(Debug, Clone, Copy, PartialEq, Eq, Structural)]
pub enum DigestOutcome {
    /// A digest with this many packages was handed to the mailer.
    Sent(usize),
    /// There was nothing to send, and the mailer was not invoked.
    NoNewCrates,
}

/// Send a digest of the given packages: nothing is sent when the list is
/// empty, otherwise the whole list goes to the mailer in one mail.
pub fn digest_send<M: MailerTrait>(
    mailer: &mut M,
    email: &String,
    crates: &Vec<CrateSummary>,
) -> (r: Result<DigestOutcome, String>)
    ensures
        crates@.len() == 0 ==> (r matches Ok(o) && o == DigestOutcome::NoNewCrates),
        r matches Ok(o) ==> (o matches DigestOutcome::Sent(n) ==> n == crates@.len()
            && crates@.len() > 0),
        r matches Ok(o) ==> (o == DigestOutcome::NoNewCrates ==> crates@.len() == 0),
        r is Err ==> crates@.len() > 0,
{
    if crates.len() == 0 {
        return Ok(DigestOutcome::NoNewCrates);
    }
    match mailer.send_digest(email, crates) {
        Ok(()) => Ok(DigestOutcome::Sent(crates.len())),
        Err(e) => Err(e),
    }
}

} // verus!
