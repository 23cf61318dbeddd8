//! The synthetic payload: a sender, a recipient and a message body for
//! each transaction.
//!
//! Everything deterministic about the payload is verified exactly: given
//! the drawn number, the timestamp and the message id, the three strings
//! are pinned character by character. The number, the timestamp and the id
//! themselves come from outside (randomness and the clock) through
//! trusted wrappers that promise nothing about their values.

use vstd::prelude::*;

use crate::config::RunConfig;
use crate::text::format_u128;
use crate::text::spec_decimal;

verus! {

/// The fixed pool of well-known destination domains a recipient is drawn
/// from.
pub open spec fn spec_domain_pick(n: int) -> Seq<char> {
    if n % 4 == 0 {
        "aol.com"@
    } else if n % 4 == 1 {
        "gmail.com"@
    } else if n % 4 == 2 {
        "hotmail.com"@
    } else {
        "yahoo.com"@
    }
}

/// Pick the destination domain for a drawn number.
pub fn pick_domain(n: usize) -> (r: &'static str)
    ensures
        r@ == spec_domain_pick(n as int),
{
    let m = n % 4;
    if m == 0 {
        "aol.com"
    } else if m == 1 {
        "gmail.com"
    } else if m == 2 {
        "hotmail.com"
    } else {
        "yahoo.com"
    }
}

/// The synthesized sender address for a configured domain.
pub open spec fn spec_sender(domain: Seq<char>) -> Seq<char> {
    "noreply@"@ + domain
}

/// The synthesized recipient address for a drawn number and a configured
/// domain: a numbered user at one of the well-known domains, routed under
/// the configured one.
pub open spec fn spec_recipient(n: int, domain: Seq<char>) -> Seq<char> {
    "user-"@ + spec_decimal(n) + "@"@ + spec_domain_pick(n) + "."@ + domain
}

/// The synthesized message body for a sender, a recipient, a timestamp
/// and a message id.
pub open spec fn spec_body(
    sender: Seq<char>,
    recipient: Seq<char>,
    datestamp: Seq<char>,
    id: Seq<char>,
) -> Seq<char> {
    "From: <"@ + sender + ">\r\nTo: <"@ + recipient + ">\r\nSubject: test "@ + datestamp
        + "\r\nMessage-Id: "@ + id + "\r\nX-Mailer: KumoMta traffic-gen\r\n\r\nThis is a test message.\r\nEnjoy!\r\n"@
}

/// Relies on `rand::random`: a machine-word value drawn from process
/// randomness; nothing is promised of it.
#[verifier::external_body]
fn random_usize() -> usize {
    rand::random()
}

/// Relies on chrono's `Utc::now` and `DateTime::to_rfc2822`: the current
/// wall-clock instant in the mail date format. The value depends on the
/// clock, so nothing is promised of it.
#[verifier::external_body]
fn now_rfc2822() -> String {
    chrono::Utc::now().to_rfc2822()
}

/// Relies on uuid's `Uuid::new_v4` and its `Simple` format: a fresh
/// random identifier rendered as exactly 32 hexadecimal digits.
#[verifier::external_body]
fn new_message_id() -> (r: String)
    ensures
        r@.len() == 32,
{
    uuid::Uuid::new_v4().simple().to_string()
}

/// Build the recipient address for a drawn number, exactly.
pub fn recipient_for(n: usize, domain: &str) -> (r: String)
    ensures
        r@ == spec_recipient(n as int, domain@),
{
    let mut s = String::from_str("user-");
    let number = format_u128(n as u128);
    s.append(number.as_str());
    s.append("@");
    s.append(pick_domain(n));
    s.append(".");
    s.append(domain);
    s
}

/// Build the message body from its four parts, exactly.
pub fn body_for(sender: &str, recipient: &str, datestamp: &str, id: &str) -> (r: String)
    ensures
        r@ == spec_body(sender@, recipient@, datestamp@, id@),
{
    let mut s = String::from_str("From: <");
    s.append(sender);
    s.append(">\r\nTo: <");
    s.append(recipient);
    s.append(">\r\nSubject: test ");
    s.append(datestamp);
    s.append("\r\nMessage-Id: ");
    s.append(id);
    s.append("\r\nX-Mailer: KumoMta traffic-gen\r\n\r\nThis is a test message.\r\nEnjoy!\r\n");
    s
}

impl RunConfig {
    /// The sender address every generated message carries.
    pub fn generate_sender(&self) -> (r: String)
        ensures
            r@ == spec_sender(self.domain@),
    {
        let mut s = String::from_str("noreply@");
        s.append(self.domain.as_str());
        s
    }

    /// A recipient address for a freshly drawn number.
    pub fn generate_recipient(&self) -> (r: String)
        ensures
            exists|n: int| 0 <= n && r@ == spec_recipient(n, self.domain@),
    {
        let n = random_usize();
        let r = recipient_for(n, self.domain.as_str());
        proof {
            assert(r@ == spec_recipient(n as int, self.domain@));
        }
        r
    }

    /// A message body for the given addresses, stamped with the current
    /// time and a fresh message id.
    pub fn generate_body(&self, sender: &str, recipient: &str) -> (r: String)
        ensures
            exists|datestamp: Seq<char>, id: Seq<char>|
                id.len() == 32 && r@ == spec_body(sender@, recipient@, datestamp, id),
    {
        let datestamp = now_rfc2822();
        let id = new_message_id();
        let r = body_for(sender, recipient, datestamp.as_str(), id.as_str());
        proof {
            assert(id@.len() == 32 && r@ == spec_body(sender@, recipient@, datestamp@, id@));
        }
        r
    }

    /// One whole transaction payload: sender, recipient, body.
    pub fn generate_message(&self) -> (r: (String, String, String))
        ensures
            r.0@ == spec_sender(self.domain@),
            exists|n: int| 0 <= n && r.1@ == spec_recipient(n, self.domain@),
            exists|datestamp: Seq<char>, id: Seq<char>|
                id.len() == 32 && r.2@ == spec_body(r.0@, r.1@, datestamp, id),
    {
        let sender = self.generate_sender();
        let recipient = self.generate_recipient();
        let body = self.generate_body(sender.as_str(), recipient.as_str());
        let ghost parts = choose|datestamp: Seq<char>, id: Seq<char>|
            id.len() == 32 && body@ == spec_body(sender@, recipient@, datestamp, id);
        let r = (sender, recipient, body);
        proof {
            assert(parts.1.len() == 32 && r.2@ == spec_body(r.0@, r.1@, parts.0, parts.1));
        }
        r
    }
}

} // verus!
