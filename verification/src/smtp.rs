//! The few words of SMTP the generator speaks: reply codes, the
//! transport-security capability, and the command lines a session sends.

use vstd::prelude::*;

verus! {

/// Reply code announced by a server that is ready to serve.
pub const SERVICE_READY_CODE: u16 = 220;

/// Reply code expected on each line of a successful greeting response.
pub const GREETING_OK_CODE: u16 = 250;

/// An ASCII decimal digit.
pub open spec fn is_ascii_digit(b: u8) -> bool {
    48 <= b <= 57
}

/// The ASCII uppercase fold of one byte.
pub open spec fn ascii_upper(b: u8) -> u8 {
    if 97 <= b <= 122 {
        (b - 32) as u8
    } else {
        b
    }
}

/// The reply code carried by one server reply line: its first three bytes
/// read as decimal digits, or nothing if they are not three digits.
pub open spec fn spec_reply_code(line: Seq<u8>) -> Option<u16> {
    if line.len() >= 3 && is_ascii_digit(line[0]) && is_ascii_digit(line[1]) && is_ascii_digit(
        line[2],
    ) {
        Some((((line[0] - 48) * 100 + (line[1] - 48) * 10 + (line[2] - 48))) as u16)
    } else {
        None
    }
}

/// Whether a reply line is the last of its reply: a multi-line reply marks
/// every line but the last with `-` right after the code.
pub open spec fn spec_reply_is_final(line: Seq<u8>) -> bool {
    line.len() == 3 || (line.len() > 3 && line[3] != 45)
}

/// Read the reply code off one server reply line.
pub fn parse_reply_code(line: &Vec<u8>) -> (r: Option<u16>)
    ensures
        r == spec_reply_code(line@),
{
    if line.len() >= 3 {
        let b0 = line[0];
        let b1 = line[1];
        let b2 = line[2];
        if 48 <= b0 && b0 <= 57 && 48 <= b1 && b1 <= 57 && 48 <= b2 && b2 <= 57 {
            Some((b0 - 48) as u16 * 100 + (b1 - 48) as u16 * 10 + (b2 - 48) as u16)
        } else {
            None
        }
    } else {
        None
    }
}

/// Decide whether one server reply line is the last of its reply.
pub fn reply_is_final(line: &Vec<u8>) -> (r: bool)
    ensures
        r == spec_reply_is_final(line@),
{
    line.len() == 3 || (line.len() > 3 && line[3] != 45)
}

/// A reply code that reports positive completion.
pub fn reply_is_positive(code: u16) -> (r: bool)
    ensures
        r == (200 <= code && code <= 299),
{
    200 <= code && code <= 299
}

/// A reply code that reports an intermediate positive state, as the data
/// command answers before the message content is accepted.
pub fn reply_is_intermediate(code: u16) -> (r: bool)
    ensures
        r == (300 <= code && code <= 399),
{
    300 <= code && code <= 399
}

/// Whether the banner announces a server that is ready to serve.
pub fn banner_is_ready(code: u16) -> (r: bool)
    ensures
        r == (code == SERVICE_READY_CODE),
{
    code == SERVICE_READY_CODE
}

/// Whether the transport-security upgrade should be attempted: only when
/// it was requested and the peer offered it.
pub fn should_upgrade_security(requested: bool, offered: bool) -> (r: bool)
    ensures
        r == (requested && offered),
{
    requested && offered
}

/// The bytes of the transport-security capability token, uppercase.
pub open spec fn starttls_token() -> Seq<u8> {
    seq![83u8, 84u8, 65u8, 82u8, 84u8, 84u8, 76u8, 83u8]
}

/// Whether one greeting reply line advertises the transport-security
/// upgrade: a greeting code, then the capability token, compared without
/// regard to ASCII case.
pub open spec fn spec_line_offers_starttls(line: Seq<u8>) -> bool {
    line.len() == 12 && spec_reply_code(line) == Some(GREETING_OK_CODE) && (line[3] == 45 || line[3]
        == 32) && forall|i: int| 0 <= i < 8 ==> ascii_upper(line[4 + i]) == starttls_token()[i]
}

/// The ASCII uppercase fold of one byte.
fn ascii_upper_byte(b: u8) -> (r: u8)
    ensures
        r == ascii_upper(b),
{
    if 97 <= b && b <= 122 {
        b - 32
    } else {
        b
    }
}

/// Decide whether one greeting reply line advertises the
/// transport-security upgrade.
pub fn line_offers_starttls(line: &Vec<u8>) -> (r: bool)
    ensures
        r == spec_line_offers_starttls(line@),
{
    if line.len() != 12 {
        return false;
    }
    let code = parse_reply_code(line);
    let code_ok = match code {
        Some(c) => c == GREETING_OK_CODE,
        None => false,
    };
    if !code_ok {
        return false;
    }
    if !(line[3] == 45 || line[3] == 32) {
        return false;
    }
    let t0 = ascii_upper_byte(line[4]) == 83;
    let t1 = ascii_upper_byte(line[5]) == 84;
    let t2 = ascii_upper_byte(line[6]) == 65;
    let t3 = ascii_upper_byte(line[7]) == 82;
    let t4 = ascii_upper_byte(line[8]) == 84;
    let t5 = ascii_upper_byte(line[9]) == 84;
    let t6 = ascii_upper_byte(line[10]) == 76;
    let t7 = ascii_upper_byte(line[11]) == 83;
    let all = t0 && t1 && t2 && t3 && t4 && t5 && t6 && t7;
    proof {
        assert(starttls_token()[0] == 83);
        assert(starttls_token()[1] == 84);
        assert(starttls_token()[2] == 65);
        assert(starttls_token()[3] == 82);
        assert(starttls_token()[4] == 84);
        assert(starttls_token()[5] == 84);
        assert(starttls_token()[6] == 76);
        assert(starttls_token()[7] == 83);
        if all {
            assert forall|i: int| 0 <= i < 8 implies ascii_upper(line@[4 + i])
                == starttls_token()[i] by {
                if i == 0 {
                    assert(ascii_upper(line@[4]) == 83);
                } else if i == 1 {
                    assert(ascii_upper(line@[5]) == 84);
                } else if i == 2 {
                    assert(ascii_upper(line@[6]) == 65);
                } else if i == 3 {
                    assert(ascii_upper(line@[7]) == 82);
                } else if i == 4 {
                    assert(ascii_upper(line@[8]) == 84);
                } else if i == 5 {
                    assert(ascii_upper(line@[9]) == 84);
                } else if i == 6 {
                    assert(ascii_upper(line@[10]) == 76);
                } else {
                    assert(ascii_upper(line@[11]) == 83);
                }
            }
        } else {
            assert(!(forall|i: int|
                0 <= i < 8 ==> ascii_upper(line@[4 + i]) == starttls_token()[i])) by {
                if (forall|i: int| 0 <= i < 8 ==> ascii_upper(line@[4 + i]) == starttls_token()[i]) {
                    assert(ascii_upper(line@[4int + 0]) == starttls_token()[0]);
                    assert(ascii_upper(line@[4int + 1]) == starttls_token()[1]);
                    assert(ascii_upper(line@[4int + 2]) == starttls_token()[2]);
                    assert(ascii_upper(line@[4int + 3]) == starttls_token()[3]);
                    assert(ascii_upper(line@[4int + 4]) == starttls_token()[4]);
                    assert(ascii_upper(line@[4int + 5]) == starttls_token()[5]);
                    assert(ascii_upper(line@[4int + 6]) == starttls_token()[6]);
                    assert(ascii_upper(line@[4int + 7]) == starttls_token()[7]);
                    assert(false);
                }
            }
        }
    }
    all
}

/// The greeting command: the word, the local domain, and the line ending.
pub fn ehlo_command(domain: &str) -> (r: String)
    ensures
        r@ == "EHLO "@ + domain@ + "\r\n"@,
{
    let mut s = String::from_str("EHLO ");
    s.append(domain);
    s.append("\r\n");
    s
}

/// The command that opens one transaction with the envelope sender.
pub fn mail_from_command(sender: &str) -> (r: String)
    ensures
        r@ == "MAIL FROM:<"@ + sender@ + ">\r\n"@,
{
    let mut s = String::from_str("MAIL FROM:<");
    s.append(sender);
    s.append(">\r\n");
    s
}

/// The command that names the envelope recipient.
pub fn rcpt_to_command(recipient: &str) -> (r: String)
    ensures
        r@ == "RCPT TO:<"@ + recipient@ + ">\r\n"@,
{
    let mut s = String::from_str("RCPT TO:<");
    s.append(recipient);
    s.append(">\r\n");
    s
}

/// The command that starts the message content.
pub fn data_command() -> (r: String)
    ensures
        r@ == "DATA\r\n"@,
{
    String::from_str("DATA\r\n")
}

/// The line that ends the message content.
pub fn end_of_data() -> (r: String)
    ensures
        r@ == ".\r\n"@,
{
    String::from_str(".\r\n")
}

/// The command that requests the transport-security upgrade.
pub fn starttls_command() -> (r: String)
    ensures
        r@ == "STARTTLS\r\n"@,
{
    String::from_str("STARTTLS\r\n")
}

/// The polite session termination.
pub fn quit_command() -> (r: String)
    ensures
        r@ == "QUIT\r\n"@,
{
    String::from_str("QUIT\r\n")
}

} // verus!
