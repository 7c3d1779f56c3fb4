//! Rendering a reply: best-effort text decoding and the optional hex
//! dump of the raw bytes.

use vstd::prelude::*;
use vstd::utf8::{decode_utf8, valid_utf8};
use crate::error::QueryError;
use crate::session::READ_CAPACITY;

verus! {

/// The dump lines `hexdump` produces for a byte sequence. The exact text
/// is fixed by the bytes alone: one line per started sixteen-byte chunk,
/// then a summary line carrying the total length.
pub uninterp spec fn hex_dump_of(b: Seq<u8>) -> Seq<Seq<char>>;

/// Relies on hexdump::hexdump_iter: the dump lines depend on the bytes
/// alone, one line per started sixteen-byte chunk plus one summary line.
/// hexdump builds each line in a fixed buffer that an offset field of
/// more than eight hex digits would overrun, so the input must stay
/// well below that; a reply never exceeds the read buffer's capacity.
#[verifier::external_body]
fn dump_lines(b: &[u8]) -> (r: Vec<String>)
    requires
        b@.len() <= READ_CAPACITY as int,
    ensures
        r@.map_values(|s: String| s@) == hex_dump_of(b@),
        r@.len() == b@.len() / 16 + (if b@.len() % 16 == 0 { 1nat } else { 2nat }),
{
    hexdump::hexdump_iter(b).map(|l| l.to_string()).collect()
}

/// Relies on core::str::from_utf8: yields the text exactly when the
/// bytes are a valid UTF-8 encoding, and the text is their decoding.
#[verifier::external_body]
fn text_of_bytes(b: &[u8]) -> (r: Option<&str>)
    ensures
        r is Some <==> valid_utf8(b@),
        r matches Some(s) ==> s@ == decode_utf8(b@),
{
    core::str::from_utf8(b).ok()
}

/// Decode a reply as text. Exactly the replies that are valid UTF-8
/// succeed; every other reply fails with `ResponseDecodeError`.
pub fn response_text(bytes: &Vec<u8>) -> (r: Result<String, QueryError>)
    ensures
        valid_utf8(bytes@) <==> r is Ok,
        r matches Ok(s) ==> s@ == decode_utf8(bytes@),
        r matches Err(e) ==> e == QueryError::ResponseDecodeError,
{
    match text_of_bytes(bytes.as_slice()) {
        Some(s) => Ok(s.to_owned()),
        None => Err(QueryError::ResponseDecodeError),
    }
}

/// One reply, rendered: the decoded text, or the decode failure; and
/// the dump of the raw bytes, when it was asked for.
pub struct RenderedResponse {
    /// The reply as text, or `ResponseDecodeError`.
    pub text: Result<String, QueryError>,
    /// The dump lines, present exactly when the dump was requested.
    pub dump: Option<Vec<String>>,
}

/// Render one reply for the process boundary. The dump, when requested,
/// is computed from the raw bytes whether or not the text decoded: a
/// decode failure never costs the caller the dump. An empty reply is
/// valid text and renders as the empty string. A dump is only rendered
/// of a reply that fits the read buffer — longer input never reaches
/// this point, since one read returns at most `READ_CAPACITY` bytes.
pub fn render_response(bytes: &Vec<u8>, with_dump: bool) -> (r: RenderedResponse)
    requires
        with_dump ==> bytes@.len() <= READ_CAPACITY as int,
    ensures
        valid_utf8(bytes@) <==> r.text is Ok,
        r.text matches Ok(s) ==> s@ == decode_utf8(bytes@),
        r.text matches Err(e) ==> e == QueryError::ResponseDecodeError,
        with_dump <==> r.dump is Some,
        r.dump matches Some(d) ==> d@.map_values(|s: String| s@) == hex_dump_of(bytes@),
        r.dump matches Some(d) ==> d@.len() == bytes@.len() / 16 + (
        if bytes@.len() % 16 == 0 {
            1nat
        } else {
            2nat
        }),
        bytes@.len() == 0 ==> (r.text matches Ok(s) && s@.len() == 0),
{
    proof {
        if bytes@.len() == 0 {
            assert(valid_utf8(bytes@));
            assert(decode_utf8(bytes@) =~= Seq::<char>::empty());
        }
    }
    let text = response_text(bytes);
    let dump = if with_dump {
        Some(dump_lines(bytes.as_slice()))
    } else {
        None
    };
    RenderedResponse { text, dump }
}

} // verus!
