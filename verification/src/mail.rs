//! The address that opens the mail program with a message filled in.

use vstd::prelude::*;
use vstd::string::*;

verus! {

/// Whether a byte stands for itself in a percent-encoded text: a letter or
/// digit of ASCII, or one of `-`, `.`, `_`, `~`.
pub open spec fn is_unreserved(byte: u8) -> bool {
    (0x30 <= byte <= 0x39) || (0x41 <= byte <= 0x5a) || (0x61 <= byte <= 0x7a) || byte == 0x2d
        || byte == 0x2e || byte == 0x5f || byte == 0x7e
}

/// The upper-case hexadecimal digit of a number below 16.
pub open spec fn hex_digit(digit: u8) -> char {
    if digit < 10 {
        ((0x30 + digit) as u8) as char
    } else {
        ((0x41 + digit - 10) as u8) as char
    }
}

/// A byte percent-encoded: itself where it is unreserved, else `%` and its
/// two hexadecimal digits.
pub open spec fn encoded_byte(byte: u8) -> Seq<char> {
    if is_unreserved(byte) {
        seq![byte as char]
    } else {
        seq!['%', hex_digit(byte / 16), hex_digit(byte % 16)]
    }
}

/// Bytes percent-encoded, one after the other.
pub open spec fn percent_encoded(bytes: Seq<u8>) -> Seq<char>
    decreases bytes.len(),
{
    if bytes.len() == 0 {
        Seq::empty()
    } else {
        percent_encoded(bytes.drop_last()) + encoded_byte(bytes.last())
    }
}

/// Calls `urlencoding::encode` and takes the outcome as a `String`. The
/// contract claims what the crate documents: every byte of the text's UTF-8
/// form is percent-encoded, except letters and digits of ASCII and `-`, `.`,
/// `_`, `~`, which stand for themselves.
#[verifier::external_body]
pub(crate) fn encode(text: &str) -> (r: String)
    ensures
        r@ == percent_encoded(text.spec_bytes()),
{
    urlencoding::encode(text).into_owned()
}

/// The address for a message to `to` with the given subject and body.
pub open spec fn mailto(to: Seq<u8>, subject: Seq<u8>, body: Seq<u8>) -> Seq<char> {
    "mailto:"@ + percent_encoded(to) + "?subject="@ + percent_encoded(subject) + "&body="@
        + percent_encoded(body)
}

/// The address that opens the mail program with a message to `to` filled
/// in: `mailto:`, then the receiver, the subject and the body, each
/// percent-encoded.
pub fn mailto_url(to: &str, subject: &str, body: &str) -> (r: String)
    ensures
        r@ == mailto(to.spec_bytes(), subject.spec_bytes(), body.spec_bytes()),
{
    let mut url = String::from_str("mailto:");
    let receiver = encode(to);
    url.append(receiver.as_str());
    url.append("?subject=");
    let title = encode(subject);
    url.append(title.as_str());
    url.append("&body=");
    let text = encode(body);
    url.append(text.as_str());
    url
}

} // verus!
