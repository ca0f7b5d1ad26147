//! Helpers of the interactive setup flow: human-readable durations, PIN
//! generation and display, and the validation around desktop linking.

use rand::Rng;
use vstd::prelude::*;
use vstd::string::StrSliceExecFns;
use vstd::string::StringExecFns;

use crate::decode::is_payload;
use crate::decode::is_payload_text;
use crate::strutil::dec_rep;
use crate::strutil::u64_to_dec_string;

verus! {

/// Digits in a generated registration lock PIN.
pub const GENERATED_REGISTRATION_PIN_DIGITS: usize = 20;

/// How a watch window reads to a human: whole minutes alone, mixed minutes
/// and seconds short, seconds alone in full, with singular forms for one.
pub open spec fn watch_duration_text(total: nat) -> Seq<char> {
    let minutes = total / 60;
    let seconds = total % 60;
    if minutes > 0 && seconds == 0 {
        if minutes == 1 {
            "1 minute"@
        } else {
            dec_rep(minutes) + " minutes"@
        }
    } else if minutes > 0 {
        dec_rep(minutes) + "m "@ + dec_rep(seconds) + "s"@
    } else if total == 1 {
        "1 second"@
    } else {
        dec_rep(total) + " seconds"@
    }
}

/// Renders a duration in seconds as a human-readable watch window.
pub fn format_watch_duration(total_seconds: u64) -> (r: String)
    ensures
        r@ == watch_duration_text(total_seconds as nat),
{
    let minutes = total_seconds / 60;
    let seconds = total_seconds % 60;
    if minutes > 0 && seconds == 0 {
        if minutes == 1 {
            String::from_str("1 minute")
        } else {
            let mut r = u64_to_dec_string(minutes);
            r.append(" minutes");
            r
        }
    } else if minutes > 0 {
        let mut r = u64_to_dec_string(minutes);
        r.append("m ");
        let s = u64_to_dec_string(seconds);
        r.append(s.as_str());
        r.append("s");
        r
    } else if total_seconds == 1 {
        String::from_str("1 second")
    } else {
        let mut r = u64_to_dec_string(total_seconds);
        r.append(" seconds");
        r
    }
}

/// The PIN split into chunks joined by dashes; a chunk size of zero leaves it
/// whole.
pub open spec fn chunked_with_dashes(s: Seq<char>, k: nat) -> Seq<char>
    decreases s.len(),
{
    if k == 0 {
        s
    } else if s.len() <= k {
        s
    } else {
        s.take(k as int) + "-"@ + chunked_with_dashes(s.skip(k as int), k)
    }
}

/// Renders a PIN in dash-separated chunks for display.
pub fn format_pin_for_display(pin: &str, chunk_size: usize) -> (r: String)
    ensures
        r@ == chunked_with_dashes(pin@, chunk_size as nat),
{
    if chunk_size == 0 {
        return pin.to_owned();
    }
    let len = pin.unicode_len();
    let mut r = String::new();
    let mut i: usize = 0;
    proof {
        assert(pin@.skip(0) =~= pin@);
    }
    while i < len
        invariant
            0 <= i <= len,
            len == pin@.len(),
            chunk_size >= 1,
            chunked_with_dashes(pin@, chunk_size as nat) == r@ + chunked_with_dashes(
                pin@.skip(i as int),
                chunk_size as nat,
            ),
        decreases len - i,
    {
        let rest = len - i;
        if rest <= chunk_size {
            let piece = pin.substring_char(i, len);
            r.append(piece);
            proof {
                assert(pin@.subrange(i as int, len as int) =~= pin@.skip(i as int));
                assert(chunked_with_dashes(pin@.skip(i as int), chunk_size as nat) == pin@.skip(
                    i as int,
                ));
                assert(pin@.skip(len as int) =~= Seq::<char>::empty());
                assert(chunked_with_dashes(pin@.skip(len as int), chunk_size as nat) =~= Seq::<
                    char,
                >::empty());
                assert(r@ + Seq::<char>::empty() =~= r@);
            }
            i = len;
        } else {
            let piece = pin.substring_char(i, i + chunk_size);
            r.append(piece);
            r.append("-");
            proof {
                let tail = pin@.skip(i as int);
                assert(pin@.subrange(i as int, i + chunk_size) =~= tail.take(chunk_size as int));
                assert(tail.skip(chunk_size as int) =~= pin@.skip(i + chunk_size));
                assert(chunked_with_dashes(tail, chunk_size as nat) == tail.take(
                    chunk_size as int,
                ) + "-"@ + chunked_with_dashes(pin@.skip(i + chunk_size), chunk_size as nat));
            }
            i += chunk_size;
        }
    }
    proof {
        assert(pin@.skip(len as int) =~= Seq::<char>::empty());
        assert(chunked_with_dashes(pin@.skip(len as int), chunk_size as nat) =~= Seq::<
            char,
        >::empty());
        assert(r@ + Seq::<char>::empty() =~= r@);
    }
    r
}

/// A decimal digit character.
pub open spec fn is_dec_digit_char(c: char) -> bool {
    exists|d: nat| d < 10 && c == crate::strutil::dec_digit_char(d)
}

/// Relies on `rand::rngs::OsRng` and `rand::Rng::gen_range`: one digit drawn
/// from the operating system's generator, promised only to lie below ten.
#[verifier::external_body]
fn random_pin_digit() -> (d: u64)
    ensures
        d < 10,
{
    rand::rngs::OsRng.gen_range(0..10u64)
}

fn digit_char_str(d: u64) -> (r: &'static str)
    requires
        d < 10,
    ensures
        r@.len() == 1,
        is_dec_digit_char(r@[0]),
{
    proof {
        reveal_strlit("0");
        reveal_strlit("1");
        reveal_strlit("2");
        reveal_strlit("3");
        reveal_strlit("4");
        reveal_strlit("5");
        reveal_strlit("6");
        reveal_strlit("7");
        reveal_strlit("8");
        reveal_strlit("9");
    }
    let r: &'static str = if d == 0 {
        "0"
    } else if d == 1 {
        "1"
    } else if d == 2 {
        "2"
    } else if d == 3 {
        "3"
    } else if d == 4 {
        "4"
    } else if d == 5 {
        "5"
    } else if d == 6 {
        "6"
    } else if d == 7 {
        "7"
    } else if d == 8 {
        "8"
    } else {
        "9"
    };
    proof {
        assert(r@[0] == crate::strutil::dec_digit_char(d as nat));
    }
    r
}

/// Draws a fresh registration lock PIN: twenty decimal digits from the
/// operating system's generator.
pub fn generate_long_registration_lock_pin() -> (r: String)
    ensures
        r@.len() == GENERATED_REGISTRATION_PIN_DIGITS,
        forall|i: int| 0 <= i < r@.len() ==> is_dec_digit_char(#[trigger] r@[i]),
{
    let mut pin = String::new();
    let mut i: usize = 0;
    while i < GENERATED_REGISTRATION_PIN_DIGITS
        invariant
            0 <= i <= GENERATED_REGISTRATION_PIN_DIGITS,
            pin@.len() == i,
            forall|k: int| 0 <= k < pin@.len() ==> is_dec_digit_char(#[trigger] pin@[k]),
        decreases GENERATED_REGISTRATION_PIN_DIGITS - i,
    {
        let d = random_pin_digit();
        pin.append(digit_char_str(d));
        i += 1;
    }
    pin
}

/// A URI that cannot be a linking payload.
#[derive(Debug, Clone, PartialEq, Eq)]
pub enum LinkError {
    InvalidUri,
}

impl LinkError {
    /// What the failure means.
    pub open spec fn message_spec(&self) -> Seq<char> {
        "invalid URI: expected sgnl://linkdevice..."@
    }

    /// The user-facing message of this failure.
    pub fn message(&self) -> (r: String)
        ensures
            r@ == self.message_spec(),
    {
        String::from_str("invalid URI: expected sgnl://linkdevice...")
    }
}

/// The arguments that hand a payload to the linking collaborator.
pub open spec fn add_device_args(uri: Seq<char>) -> Seq<Seq<char>> {
    seq!["addDevice"@, "--uri"@, uri]
}

/// Validates a linking URI and builds the device-linking arguments: anything
/// not beginning with the payload prefix is rejected, never passed on.
pub fn link_desktop_from_uri(uri: &str) -> (r: Result<Vec<String>, LinkError>)
    ensures
        r is Ok <==> is_payload(uri@),
        r matches Ok(args) ==> args.deep_view() == add_device_args(uri@),
        r matches Err(e) ==> e == LinkError::InvalidUri,
{
    if !is_payload_text(uri) {
        return Err(LinkError::InvalidUri);
    }
    let mut args: Vec<String> = Vec::new();
    args.push(String::from_str("addDevice"));
    args.push(String::from_str("--uri"));
    args.push(uri.to_owned());
    proof {
        assert(args.deep_view() =~= add_device_args(uri@));
    }
    Ok(args)
}

} // verus!
