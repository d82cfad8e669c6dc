//! The installer channel: lines of hexadecimal text between the process that
//! composes rulesets and the privileged process that installs them.
//!
//! The installer first sends a key and an initialization value of 32 bytes
//! each, one line each. The composer answers with the readiness line. From
//! then on the composer sends commands, encrypted under the key, and the
//! installer answers each with a result in clear:
//!
//! ```text
//! installer -> composer   hex(key) LF
//! installer -> composer   hex(iv) LF
//! composer  -> installer  "OK" LF
//! composer  -> installer  hex(encrypted command) LF
//! installer -> composer   hex(result) LF
//! ```
//!
//! The cipher is AES-256 in CBC mode. It takes the first 16 bytes of the
//! initialization value, the same for every message, and nothing vouches for
//! the integrity of a message.

use vstd::prelude::*;
use vstd::string::*;
use vstd::utf8::{decode_utf8, encode_utf8, valid_utf8};
use crate::cipher::{
    aes_256_cbc_decrypted, aes_256_cbc_encrypted, decrypt, encrypt, BLOCK_LENGTH, KEY_LENGTH,
    MAX_INPUT,
};
use crate::hexcode::{
    decode, encode, hex_decodable, hex_decode_spec, hex_encode_spec, hex_value, law_hex_round_trip,
};
use crate::text::{
    is_whitespace, split_on, split_spec, str_eq, trim, trim_end_spec, trim_spec, trim_start_spec,
    views,
};

verus! {

/// The length of the initialization value that the installer sends.
pub const VALUE_LENGTH: usize = 32;

/// What can be wrong with a line of the channel.
#[derive(Clone, Copy, Debug, PartialEq, Eq, Structural)]
pub enum ChannelError {
    /// The line is not hexadecimal text.
    MalformedHex,
    /// The key or the initialization value does not have 32 bytes.
    InvalidKey,
    /// The cipher failed.
    Cipher,
    /// The payload is not text.
    NotUtf8,
    /// The composer did not answer the keys with the readiness line.
    NotReady,
    /// Something happened that the installer was not waiting for.
    OutOfTurn,
}

/// The key and the initialization value that both ends of a channel share.
pub struct ChannelKeys {
    key: Vec<u8>,
    iv: Vec<u8>,
}

/// A line of the channel that carries `bytes`.
pub open spec fn frame_spec(bytes: Seq<u8>) -> Seq<char> {
    hex_encode_spec(bytes) + "\n"@
}

/// The part of the initialization value that the cipher takes.
pub open spec fn cipher_iv(iv: Seq<u8>) -> Seq<u8> {
    iv.subrange(0, BLOCK_LENGTH as int)
}

/// The command that asks for the staged ruleset to be installed.
pub open spec fn install_word() -> Seq<char> {
    "install"@
}

/// The line that tells the installer that the composer is ready.
pub open spec fn ready_spec() -> Seq<char> {
    "OK\n"@
}

/// The line that asks for the staged ruleset to be installed.
pub open spec fn request_spec(key: Seq<u8>, iv: Seq<u8>) -> Seq<char> {
    frame_spec(aes_256_cbc_encrypted(key, cipher_iv(iv), encode_utf8(install_word())))
}

/// The line that carries a result.
pub open spec fn response_spec(text: Seq<char>) -> Seq<char> {
    frame_spec(encode_utf8(text))
}

/// The bytes that a line carries, or what is wrong with it.
pub open spec fn payload_spec(line: Seq<char>) -> Result<Seq<u8>, ChannelError> {
    if hex_decodable(trim_spec(line)) {
        Ok(hex_decode_spec(trim_spec(line)))
    } else {
        Err(ChannelError::MalformedHex)
    }
}

/// The text that bytes stand for, or what is wrong with them.
pub open spec fn text_spec(bytes: Seq<u8>) -> Result<Seq<char>, ChannelError> {
    if valid_utf8(bytes) {
        Ok(decode_utf8(bytes))
    } else {
        Err(ChannelError::NotUtf8)
    }
}

/// The lines of the result that a line carries, or what is wrong with it.
pub open spec fn decode_response_spec(line: Seq<char>) -> Result<Seq<Seq<char>>, ChannelError> {
    match payload_spec(line) {
        Ok(bytes) => match text_spec(bytes) {
            Ok(text) => Ok(split_spec(text, '\n')),
            Err(e) => Err(e),
        },
        Err(e) => Err(e),
    }
}

/// The key and the initialization value that the two first lines of a
/// channel carry, or what is wrong with them.
pub open spec fn keys_spec(keyline: Seq<char>, ivline: Seq<char>) -> Result<
    (Seq<u8>, Seq<u8>),
    ChannelError,
> {
    match (payload_spec(keyline), payload_spec(ivline)) {
        (Ok(key), Ok(iv)) => if key.len() == KEY_LENGTH && iv.len() == VALUE_LENGTH {
            Ok((key, iv))
        } else {
            Err(ChannelError::InvalidKey)
        },
        _ => Err(ChannelError::MalformedHex),
    }
}

/// The command that a line carries under a key, where the cipher succeeds:
/// the text of what the cipher recovers, or what is wrong with the line.
pub open spec fn command_spec(key: Seq<u8>, iv: Seq<u8>, line: Seq<char>) -> Result<
    Seq<char>,
    ChannelError,
> {
    match payload_spec(line) {
        Ok(bytes) => text_spec(aes_256_cbc_decrypted(key, cipher_iv(iv), bytes)),
        Err(e) => Err(e),
    }
}

/// `String::from_utf8`. Trusted: it succeeds on bytes that are UTF-8, and
/// on no other; the text then has exactly these bytes.
#[verifier::external_body]
fn string_from_utf8(bytes: Vec<u8>) -> (r: Option<String>)
    ensures
        r is Some <==> valid_utf8(bytes@),
        r matches Some(text) ==> encode_utf8(text@) == bytes@,
{
    String::from_utf8(bytes).ok()
}

/// A line of the channel that carries `bytes`.
pub fn frame(bytes: &[u8]) -> (line: String)
    ensures
        line@ == frame_spec(bytes@),
{
    let mut line = encode(bytes);
    line.append("\n");
    line
}

/// The bytes that a line carries.
pub fn payload(line: &str) -> (r: Result<Vec<u8>, ChannelError>)
    ensures
        (match r {
            Ok(bytes) => payload_spec(line@) == Ok::<Seq<u8>, ChannelError>(bytes@),
            Err(e) => payload_spec(line@) == Err::<Seq<u8>, ChannelError>(e),
        }),
{
    let trimmed = trim(line);
    match decode(trimmed.as_str()) {
        Some(bytes) => Ok(bytes),
        None => Err(ChannelError::MalformedHex),
    }
}

/// The text that bytes stand for.
pub fn text_of(bytes: Vec<u8>) -> (r: Result<String, ChannelError>)
    ensures
        (match r {
            Ok(text) => text_spec(bytes@) == Ok::<Seq<char>, ChannelError>(text@),
            Err(e) => text_spec(bytes@) == Err::<Seq<char>, ChannelError>(e),
        }),
{
    match string_from_utf8(bytes) {
        Some(text) => {
            proof {
                vstd::utf8::encode_utf8_decode_utf8(text@);
            }
            Ok(text)
        },
        None => Err(ChannelError::NotUtf8),
    }
}

/// The line that tells the installer that the composer is ready.
pub fn ready_line() -> (line: String)
    ensures
        line@ == ready_spec(),
{
    String::from_str("OK\n")
}

/// Whether a line tells that the composer is ready: it is the readiness
/// line, character for character.
pub fn is_ready(line: &str) -> (r: bool)
    ensures
        r == (line@ == ready_spec()),
{
    str_eq(line, "OK\n")
}

/// The two lines by which the installer hands a key and an initialization
/// value to the composer.
pub fn bootstrap_lines(key: &[u8], iv: &[u8]) -> (lines: (String, String))
    ensures
        lines.0@ == frame_spec(key@),
        lines.1@ == frame_spec(iv@),
{
    (frame(key), frame(iv))
}

/// The line that carries a result.
pub fn encode_response(text: &str) -> (line: String)
    ensures
        line@ == response_spec(text@),
{
    frame(text.as_bytes())
}

/// The lines of the result that a line carries.
pub fn decode_response(line: &str) -> (r: Result<Vec<String>, ChannelError>)
    ensures
        (match r {
            Ok(lines) => decode_response_spec(line@) == Ok::<Seq<Seq<char>>, ChannelError>(
                views(lines@),
            ),
            Err(e) => decode_response_spec(line@) == Err::<Seq<Seq<char>>, ChannelError>(e),
        }),
{
    match payload(line) {
        Ok(bytes) => match text_of(bytes) {
            Ok(text) => Ok(split_on(text.as_str(), '\n')),
            Err(e) => Err(e),
        },
        Err(e) => Err(e),
    }
}

impl ChannelKeys {
    #[verifier::type_invariant]
    spec fn well_formed(self) -> bool {
        self.key@.len() == KEY_LENGTH && self.iv@.len() == VALUE_LENGTH
    }

    /// The key.
    pub closed spec fn key_spec(&self) -> Seq<u8> {
        self.key@
    }

    /// The initialization value.
    pub closed spec fn iv_spec(&self) -> Seq<u8> {
        self.iv@
    }

    /// A key and an initialization value of 32 bytes each.
    pub fn new(key: Vec<u8>, iv: Vec<u8>) -> (r: Result<ChannelKeys, ChannelError>)
        ensures
            (match r {
                Ok(keys) => key@.len() == KEY_LENGTH && iv@.len() == VALUE_LENGTH
                    && keys.key_spec() == key@ && keys.iv_spec() == iv@,
                Err(e) => e == ChannelError::InvalidKey && !(key@.len() == KEY_LENGTH && iv@.len()
                    == VALUE_LENGTH),
            }),
    {
        if key.len() == KEY_LENGTH && iv.len() == VALUE_LENGTH {
            Ok(ChannelKeys { key, iv })
        } else {
            Err(ChannelError::InvalidKey)
        }
    }

    /// The key and the initialization value that the two first lines of a
    /// channel carry.
    pub fn parse(keyline: &str, ivline: &str) -> (r: Result<ChannelKeys, ChannelError>)
        ensures
            (match r {
                Ok(keys) => keys_spec(keyline@, ivline@) == Ok::<
                    (Seq<u8>, Seq<u8>),
                    ChannelError,
                >((keys.key_spec(), keys.iv_spec())),
                Err(e) => keys_spec(keyline@, ivline@) == Err::<(Seq<u8>, Seq<u8>), ChannelError>(
                    e,
                ),
            }),
    {
        match payload(keyline) {
            Ok(key) => match payload(ivline) {
                Ok(iv) => ChannelKeys::new(key, iv),
                Err(e) => Err(e),
            },
            Err(e) => Err(e),
        }
    }

    /// The two lines that hand these keys to the other end.
    pub fn bootstrap(&self) -> (lines: (String, String))
        ensures
            lines.0@ == frame_spec(self.key_spec()),
            lines.1@ == frame_spec(self.iv_spec()),
    {
        bootstrap_lines(self.key.as_slice(), self.iv.as_slice())
    }

    /// The part of the initialization value that the cipher takes.
    fn block_iv(&self) -> (out: Vec<u8>)
        ensures
            out@ == cipher_iv(self.iv_spec()),
    {
        proof {
            use_type_invariant(self);
        }
        let mut out: Vec<u8> = Vec::new();
        let mut i: usize = 0;
        while i < BLOCK_LENGTH
            invariant
                i <= BLOCK_LENGTH,
                self.iv@.len() == VALUE_LENGTH,
                out@ == self.iv@.subrange(0, i as int),
            decreases BLOCK_LENGTH - i,
        {
            out.push(self.iv[i]);
            assert(out@ =~= self.iv@.subrange(0, i as int + 1));
            i = i + 1;
        }
        out
    }

    /// The line that asks the installer to install the staged ruleset. It
    /// fails where the cipher fails.
    pub fn install_request(&self) -> (r: Result<String, ChannelError>)
        ensures
            (match r {
                Ok(line) => line@ == request_spec(self.key_spec(), self.iv_spec()),
                Err(e) => e == ChannelError::Cipher,
            }),
    {
        proof {
            use_type_invariant(self);
        }
        let command = "install";
        let data = command.as_bytes();
        if data.len() > MAX_INPUT {
            return Err(ChannelError::Cipher);
        }
        let iv = self.block_iv();
        match encrypt(self.key.as_slice(), iv.as_slice(), data) {
            Ok(encrypted) => Ok(frame(encrypted.as_slice())),
            Err(_) => Err(ChannelError::Cipher),
        }
    }

    /// The command that a line carries. A line that is not hexadecimal text
    /// is refused as such; else the result is the command, or the failure of
    /// the cipher, or the finding that what it recovered is not text.
    pub fn read_command(&self, line: &str) -> (r: Result<String, ChannelError>)
        ensures
            (match r {
                Ok(command) => command_spec(self.key_spec(), self.iv_spec(), line@) == Ok::<
                    Seq<char>,
                    ChannelError,
                >(command@),
                Err(ChannelError::Cipher) => payload_spec(line@) is Ok,
                Err(e) => command_spec(self.key_spec(), self.iv_spec(), line@) == Err::<
                    Seq<char>,
                    ChannelError,
                >(e),
            }),
    {
        proof {
            use_type_invariant(self);
        }
        match payload(line) {
            Ok(bytes) => {
                if bytes.len() > MAX_INPUT {
                    return Err(ChannelError::Cipher);
                }
                let iv = self.block_iv();
                match decrypt(self.key.as_slice(), iv.as_slice(), bytes.as_slice()) {
                    Ok(plain) => text_of(plain),
                    Err(_) => Err(ChannelError::Cipher),
                }
            },
            Err(e) => Err(e),
        }
    }
}

/// A hexadecimal digit is no whitespace.
pub proof fn lemma_hex_digit_is_no_whitespace(c: char)
    requires
        hex_value(c) is Some,
    ensures
        !is_whitespace(c),
{
}

/// What is left of a line once the whitespace around it is taken away: the
/// hexadecimal text that it began with.
pub proof fn lemma_trim_of_frame(text: Seq<char>)
    requires
        hex_decodable(text),
    ensures
        trim_spec(text + "\n"@) == text,
{
    reveal_strlit("\n");
    let end = "\n"@;
    let line = text + end;
    assert(is_whitespace(end[0]));
    if text.len() == 0 {
        assert(line =~= end);
        assert(line.drop_first() =~= Seq::<char>::empty());
        assert(trim_start_spec(line.drop_first()) =~= Seq::<char>::empty());
        assert(trim_start_spec(line) =~= text);
        assert(trim_end_spec(text) == text);
    } else {
        lemma_hex_digit_is_no_whitespace(text[0]);
        lemma_hex_digit_is_no_whitespace(text.last());
        assert(line[0] == text[0]);
        assert(trim_start_spec(line) == line);
        assert(line.last() == end[0]);
        assert(line.drop_last() =~= text);
        assert(trim_end_spec(line) == trim_end_spec(text));
        assert(trim_end_spec(text) == text);
    }
}

/// A line that one end wrote carries to the other end the bytes that it was
/// made of.
pub proof fn law_frame_round_trip(bytes: Seq<u8>)
    ensures
        payload_spec(frame_spec(bytes)) == Ok::<Seq<u8>, ChannelError>(bytes),
{
    law_hex_round_trip(bytes);
    lemma_trim_of_frame(hex_encode_spec(bytes));
}

/// A result that the installer wrote is read by the composer as it was
/// meant, cut into its lines.
pub proof fn law_response_round_trip(text: Seq<char>)
    ensures
        decode_response_spec(response_spec(text)) == Ok::<Seq<Seq<char>>, ChannelError>(
            split_spec(text, '\n'),
        ),
{
    law_frame_round_trip(encode_utf8(text));
    vstd::utf8::encode_utf8_valid_utf8(text);
    vstd::utf8::encode_utf8_decode_utf8(text);
}

/// The keys that the installer wrote are the keys that the composer reads.
pub proof fn law_keys_round_trip(key: Seq<u8>, iv: Seq<u8>)
    requires
        key.len() == KEY_LENGTH,
        iv.len() == VALUE_LENGTH,
    ensures
        keys_spec(frame_spec(key), frame_spec(iv)) == Ok::<(Seq<u8>, Seq<u8>), ChannelError>(
            (key, iv),
        ),
{
    law_frame_round_trip(key);
    law_frame_round_trip(iv);
}

} // verus!
