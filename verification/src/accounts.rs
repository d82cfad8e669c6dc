//! The records of the users of the composer and the rules by which it lets
//! one of them in: one session at a time.
//!
//! The record of a user is a file of two lines: the password hash as
//! hexadecimal text, and the shared secret of the second factor as
//! hexadecimal text. The file is named by the user name as hexadecimal text.

use vstd::prelude::*;
use vstd::string::*;
use vstd::utf8::{decode_utf8, encode_utf8, valid_utf8};
use crate::channel::{text_of};
use crate::hexcode::{decode, encode, hex_decodable, hex_decode_spec, hex_encode_spec};
use crate::text::{decimal, decimal_spec, lines_spec, split_lines, views};

verus! {

/// What the file of a user holds.
#[derive(Clone, Debug, PartialEq, Eq)]
pub struct UserRecord {
    /// The password hash, as the hasher wrote it.
    pub password_hash: String,
    /// The shared secret of the second factor.
    pub secret: Vec<u8>,
}

pub struct UserRecordView {
    pub password_hash: Seq<char>,
    pub secret: Seq<u8>,
}

impl View for UserRecord {
    type V = UserRecordView;

    open spec fn view(&self) -> UserRecordView {
        UserRecordView { password_hash: self.password_hash@, secret: self.secret@ }
    }
}

/// How an attempt to log in ends.
#[derive(Clone, Copy, Debug, PartialEq, Eq, Structural)]
pub enum LoginOutcome {
    /// The user is let in and holds the session.
    Accepted,
    /// No user is set up.
    NoUsers,
    /// The user is not known, or the password or the one-time password is
    /// wrong.
    InvalidCredentials,
    /// The file of the user does not hold a record.
    CorruptFile,
    /// Somebody else holds the session.
    OtherSession,
    /// The one-time password belongs to another time step, this many steps
    /// from now.
    TimeDiscrepancy(i16),
    /// The session state is not as it has to be.
    InternalError,
}

/// The name of the file of a user.
pub open spec fn user_file_name_spec(username: Seq<char>) -> Seq<char> {
    hex_encode_spec(encode_utf8(username))
}

/// The user that a file name stands for; none for a name that is not the
/// hexadecimal text of a text.
pub open spec fn user_of_spec(file_name: Seq<char>) -> Option<Seq<char>> {
    if hex_decodable(file_name) && valid_utf8(hex_decode_spec(file_name)) {
        Some(decode_utf8(hex_decode_spec(file_name)))
    } else {
        None
    }
}

/// The text of the file of a user.
pub open spec fn user_record_spec(password_hash: Seq<char>, secret: Seq<char>) -> Seq<char> {
    hex_encode_spec(encode_utf8(password_hash)) + "\n"@ + secret
}

/// The record that the text of a file holds: its first line is the password
/// hash, which is text, as hexadecimal text, and its second line is the
/// secret as hexadecimal text; none for any other text.
pub open spec fn parse_user_record_spec(content: Seq<char>) -> Option<UserRecordView> {
    let lines = lines_spec(content);
    if lines.len() >= 2 && hex_decodable(lines[0]) && valid_utf8(hex_decode_spec(lines[0]))
        && hex_decodable(lines[1]) {
        Some(
            UserRecordView {
                password_hash: decode_utf8(hex_decode_spec(lines[0])),
                secret: hex_decode_spec(lines[1]),
            },
        )
    } else {
        None
    }
}

/// How an attempt ends once the password was found right: with the right
/// one-time password the user is let in unless somebody else holds the
/// session; with a wrong one the attempt is refused, and where the password
/// belongs to another time step, the distance is told.
pub open spec fn second_factor_spec(
    matched: bool,
    discrepancy: i16,
    current: Option<i128>,
    idle: Option<i128>,
) -> LoginOutcome {
    if matched {
        match (current, idle) {
            (Some(c), Some(i)) => if c != i {
                LoginOutcome::OtherSession
            } else {
                LoginOutcome::Accepted
            },
            _ => LoginOutcome::InternalError,
        }
    } else if discrepancy != 0 {
        LoginOutcome::TimeDiscrepancy(discrepancy)
    } else {
        LoginOutcome::InvalidCredentials
    }
}

/// A whole number as a numeral.
pub open spec fn signed_spec(n: int) -> Seq<char> {
    if n < 0 {
        "-"@ + decimal_spec((-n) as nat)
    } else {
        decimal_spec(n as nat)
    }
}

/// What the user is told.
pub open spec fn message_spec(outcome: LoginOutcome) -> Seq<char> {
    match outcome {
        LoginOutcome::Accepted => "OK"@,
        LoginOutcome::NoUsers => "No users configured"@,
        LoginOutcome::InvalidCredentials => "Invalid credentials"@,
        LoginOutcome::CorruptFile => "User file corrupt"@,
        LoginOutcome::OtherSession => "Another session is active"@,
        LoginOutcome::TimeDiscrepancy(d) => "Time discrepancy too high: "@ + signed_spec(d as int),
        LoginOutcome::InternalError => "Internal error"@,
    }
}

/// The name of the file of a user.
pub fn user_file_name(username: &str) -> (out: String)
    ensures
        out@ == user_file_name_spec(username@),
{
    encode(username.as_bytes())
}

/// The user that a file name stands for.
pub fn user_of(file_name: &str) -> (r: Option<String>)
    ensures
        (match r {
            Some(name) => user_of_spec(file_name@) == Some(name@),
            None => user_of_spec(file_name@) is None,
        }),
{
    match decode(file_name) {
        Some(bytes) => match text_of(bytes) {
            Ok(name) => Some(name),
            Err(_) => None,
        },
        None => None,
    }
}

/// The text of the file of a user with this password hash and this secret,
/// the secret being hexadecimal text already.
pub fn user_record(password_hash: &str, secret: &str) -> (out: String)
    ensures
        out@ == user_record_spec(password_hash@, secret@),
{
    let mut out = encode(password_hash.as_bytes());
    out.append("\n");
    out.append(secret);
    out
}

/// The record that the text of a file holds.
pub fn parse_user_record(content: &str) -> (r: Option<UserRecord>)
    ensures
        (match r {
            Some(record) => parse_user_record_spec(content@) == Some(record@),
            None => parse_user_record_spec(content@) is None,
        }),
{
    let lines = split_lines(content);
    if lines.len() < 2 {
        return None;
    }
    assert(views(lines@)[0] == lines@[0]@);
    assert(views(lines@)[1] == lines@[1]@);
    match decode(lines[0].as_str()) {
        Some(hash_bytes) => match text_of(hash_bytes) {
            Ok(password_hash) => match decode(lines[1].as_str()) {
                Some(secret) => Some(UserRecord { password_hash, secret }),
                None => None,
            },
            Err(_) => None,
        },
        None => None,
    }
}

/// How an attempt ends once the password was found right. `matched` and
/// `discrepancy` are what the check of the one-time password gave,
/// `current` is the session that is held and `idle` the one that stands for
/// nobody.
pub fn second_factor(
    matched: bool,
    discrepancy: i16,
    current: Option<i128>,
    idle: Option<i128>,
) -> (outcome: LoginOutcome)
    ensures
        outcome == second_factor_spec(matched, discrepancy, current, idle),
{
    if matched {
        match (current, idle) {
            (Some(c), Some(i)) => {
                if c != i {
                    LoginOutcome::OtherSession
                } else {
                    LoginOutcome::Accepted
                }
            },
            _ => LoginOutcome::InternalError,
        }
    } else if discrepancy != 0 {
        LoginOutcome::TimeDiscrepancy(discrepancy)
    } else {
        LoginOutcome::InvalidCredentials
    }
}

/// Whether a request belongs to the session that is held.
pub fn check_session(current: Option<i128>, session: Option<i128>) -> (r: bool)
    ensures
        r == (current is Some && current == session),
{
    match current {
        Some(c) => match session {
            Some(s) => c == s,
            None => false,
        },
        None => false,
    }
}

/// The session that is held once its holder has logged out: the one that
/// stands for nobody. Nothing changes unless both are known.
pub fn logout(current: Option<i128>, idle: Option<i128>) -> (r: (Option<i128>, bool))
    ensures
        r.1 == (current is Some && idle is Some),
        r.0 == (if r.1 {
            idle
        } else {
            current
        }),
{
    match (current, idle) {
        (Some(_), Some(i)) => (Some(i), true),
        _ => (current, false),
    }
}

/// A whole number as a numeral.
pub fn signed(n: i16) -> (out: String)
    ensures
        out@ == signed_spec(n as int),
{
    if n < 0 {
        let magnitude: u16 = if n == i16::MIN {
            32768
        } else {
            (-n) as u16
        };
        let mut out = String::from_str("-");
        out.append(decimal(magnitude).as_str());
        out
    } else {
        decimal(n as u16)
    }
}

/// What the user is told.
pub fn message(outcome: LoginOutcome) -> (out: String)
    ensures
        out@ == message_spec(outcome),
{
    match outcome {
        LoginOutcome::Accepted => String::from_str("OK"),
        LoginOutcome::NoUsers => String::from_str("No users configured"),
        LoginOutcome::InvalidCredentials => String::from_str("Invalid credentials"),
        LoginOutcome::CorruptFile => String::from_str("User file corrupt"),
        LoginOutcome::OtherSession => String::from_str("Another session is active"),
        LoginOutcome::TimeDiscrepancy(d) => {
            let mut out = String::from_str("Time discrepancy too high: ");
            out.append(signed(d).as_str());
            out
        },
        LoginOutcome::InternalError => String::from_str("Internal error"),
    }
}

} // verus!
