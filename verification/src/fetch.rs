//! The image-fetch flow, as a state machine the UI shell drives.
//!
//! The shell owns the actual HTTP transport and hands every completed
//! request back as a plain value; the controller here decides what the
//! outcome means. A fetch moves `Idle -> Pending -> {Ready, Failed}`.
//! Each started fetch gets a fresh token; a result delivered under any
//! other token is stale and is discarded, so starting a second fetch
//! before the first resolves means only the second's outcome is ever
//! observable.

use vstd::prelude::*;
use vstd::string::StrSliceExecFns;
use vstd::string::StringExecFns;

verus! {

/// A decoded image: its pixel dimensions and its raw RGBA pixel data.
#[derive(Debug, Clone, PartialEq, Eq)]
pub struct Bitmap {
    pub width: u32,
    pub height: u32,
    pub rgba: Vec<u8>,
}

/// What an HTTP response carries, reduced to the plain values the flow
/// reads: the final URL, the content-type header if any, and the body.
#[derive(Debug, Clone, PartialEq, Eq)]
pub struct FetchResponse {
    pub url: String,
    pub content_type: Option<String>,
    pub bytes: Vec<u8>,
}

/// What decoding a byte string as an image yields: the pixel dimensions
/// and RGBA data on success, nothing when the bytes are not a valid
/// image. The result depends on the bytes alone.
pub uninterp spec fn image_decode(bytes: Seq<u8>) -> Option<(u32, u32, Seq<u8>)>;

/// Relies on `image::load_from_memory`: decodes the bytes as an image in
/// any of the enabled formats, returning `Err` exactly when they are not
/// a valid image; the result depends on the bytes alone. The conversion
/// to plain RGBA data goes through `DynamicImage::to_rgba8`, which keeps
/// the pixel dimensions.
#[verifier::external_body]
fn decode_image(bytes: &Vec<u8>) -> (r: Result<Bitmap, String>)
    ensures
        r is Ok <==> image_decode(bytes@) is Some,
        r matches Ok(b) ==> Some((b.width, b.height, b.rgba@)) == image_decode(bytes@),
{
    match image::load_from_memory(bytes) {
        Ok(img) => {
            let buf = img.to_rgba8();
            let width = buf.width();
            let height = buf.height();
            Ok(Bitmap { width, height, rgba: buf.into_raw() })
        },
        Err(e) => Err(e.to_string()),
    }
}

/// The content type a response is taken to have: the header's value, or
/// the empty string when the header is absent.
pub open spec fn response_content_type(resp: FetchResponse) -> Seq<char> {
    match resp.content_type {
        Option::Some(ct) => ct@,
        Option::None => Seq::<char>::empty(),
    }
}

/// True when the content type begins with `image/`.
pub open spec fn is_image_content_type(ct: Seq<char>) -> bool {
    &&& ct.len() >= 6
    &&& ct[0] == 'i'
    &&& ct[1] == 'm'
    &&& ct[2] == 'a'
    &&& ct[3] == 'g'
    &&& ct[4] == 'e'
    &&& ct[5] == '/'
}

/// The message shown when a response has the wrong content type; it
/// names the content type actually seen.
pub open spec fn content_type_error_message(ct: Seq<char>) -> Seq<char> {
    "Expected image, found content-type \""@ + ct + "\""@
}

/// True when `r` is what parsing a response must yield: the content-type
/// error for a non-image content type; otherwise the decoded bitmap, or
/// some error when the bytes do not decode.
pub open spec fn reflects_parse(r: Result<Bitmap, String>, resp: FetchResponse) -> bool {
    let ct = response_content_type(resp);
    if !is_image_content_type(ct) {
        r matches Err(m) && m@ == content_type_error_message(ct)
    } else {
        match image_decode(resp.bytes@) {
            Option::Some(d) => r matches Ok(b) && b.width == d.0 && b.height == d.1 && b.rgba@
                == d.2,
            Option::None => r is Err,
        }
    }
}

/// True when `ct` begins with `image/`.
fn has_image_prefix(ct: &str) -> (r: bool)
    ensures
        r == is_image_content_type(ct@),
{
    let n: usize = ct.unicode_len();
    if n < 6 {
        return false;
    }
    ct.get_char(0) == 'i' && ct.get_char(1) == 'm' && ct.get_char(2) == 'a' && ct.get_char(3)
        == 'g' && ct.get_char(4) == 'e' && ct.get_char(5) == '/'
}

/// Builds the error message for a response whose content type is `ct`.
fn content_type_error(ct: &str) -> (m: String)
    ensures
        m@ == content_type_error_message(ct@),
{
    let mut m = String::from_str("Expected image, found content-type \"");
    m.append(ct);
    m.append("\"");
    assert(m@ =~= content_type_error_message(ct@));
    m
}

/// Validates a completed response and decodes its body: a response whose
/// content type does not begin with `image/` is rejected with a message
/// naming that content type; otherwise the body is decoded, and the
/// bitmap keeps the source image's pixel dimensions.
pub fn parse_response(response: FetchResponse) -> (r: Result<Bitmap, String>)
    ensures
        reflects_parse(r, response),
{
    let FetchResponse { url: _, content_type, bytes } = response;
    let ct: String = match content_type {
        Option::Some(c) => c,
        Option::None => String::new(),
    };
    assert(ct@ == response_content_type(response));
    if !has_image_prefix(ct.as_str()) {
        Err(content_type_error(ct.as_str()))
    } else {
        decode_image(&bytes)
    }
}

/// The phases of the fetch flow, as rendered each frame: nothing yet,
/// a busy indicator, an error line, or the fetched bitmap.
#[derive(Debug, Clone, PartialEq, Eq)]
pub enum FetchState {
    Idle,
    Pending,
    Failed { message: String },
    Ready { bitmap: Bitmap },
}

/// Holds the outcome slot of at most one in-flight or completed fetch.
/// `generation` counts the fetches started; a `Pending` state belongs to
/// the fetch whose token equals the current generation.
#[derive(Debug, Clone, PartialEq, Eq)]
pub struct FetchController {
    pub state: FetchState,
    pub generation: u64,
}

/// The controller after a fetch starts: pending, with a fresh generation.
pub open spec fn spec_start(c: FetchController) -> FetchController {
    FetchController { state: FetchState::Pending, generation: (c.generation + 1) as u64 }
}

/// True when a result delivered under `token` is current: the controller
/// is still waiting, and the token is the one the waiting fetch got.
pub open spec fn delivery_applies(c: FetchController, token: u64) -> bool {
    c.state is Pending && token == c.generation
}

/// True when `s` is the terminal state for a transport outcome: `Failed`
/// with the transport's message on a transport error, and the parse
/// verdict of the response otherwise.
pub open spec fn reflects_outcome(s: FetchState, outcome: Result<FetchResponse, String>) -> bool {
    match outcome {
        Result::Err(m) => s matches FetchState::Failed { message } && message@ == m@,
        Result::Ok(resp) => reflects_response(s, resp),
    }
}

/// True when `s` is the terminal state for a completed response.
pub open spec fn reflects_response(s: FetchState, resp: FetchResponse) -> bool {
    let ct = response_content_type(resp);
    if !is_image_content_type(ct) {
        s matches FetchState::Failed { message } && message@ == content_type_error_message(ct)
    } else {
        match image_decode(resp.bytes@) {
            Option::Some(d) => s matches FetchState::Ready { bitmap } && bitmap.width == d.0
                && bitmap.height == d.1 && bitmap.rgba@ == d.2,
            Option::None => s is Failed,
        }
    }
}

impl FetchController {
    /// A controller with no fetch started yet.
    pub fn new() -> (c: Self)
        ensures
            c.state is Idle,
            c.generation == 0,
    {
        FetchController { state: FetchState::Idle, generation: 0 }
    }

    /// Begins a new fetch and returns its token. Whatever the previous
    /// state was, the controller now waits for this fetch alone; an
    /// earlier fetch still in flight keeps running but its token goes
    /// stale, so its outcome can never be delivered.
    pub fn start(&mut self) -> (token: u64)
        requires
            old(self).generation < u64::MAX,
        ensures
            *final(self) == spec_start(*old(self)),
            token == final(self).generation,
    {
        self.generation = self.generation + 1;
        self.state = FetchState::Pending;
        self.generation
    }

    /// Accepts the outcome of the fetch identified by `token`. A current
    /// token resolves the pending fetch into `Ready` or `Failed`; a stale
    /// or repeated delivery changes nothing.
    pub fn deliver(&mut self, token: u64, outcome: Result<FetchResponse, String>)
        ensures
            !delivery_applies(*old(self), token) ==> *final(self) == *old(self),
            delivery_applies(*old(self), token) ==> final(self).generation == old(self).generation
                && reflects_outcome(final(self).state, outcome),
    {
        let applies = (matches!(self.state, FetchState::Pending)) && token == self.generation;
        if applies {
            match outcome {
                Result::Err(message) => {
                    self.state = FetchState::Failed { message };
                },
                Result::Ok(response) => {
                    match parse_response(response) {
                        Result::Ok(bitmap) => {
                            self.state = FetchState::Ready { bitmap };
                        },
                        Result::Err(message) => {
                            self.state = FetchState::Failed { message };
                        },
                    }
                },
            }
        }
    }

    /// The current phase, for the per-frame render decision.
    pub fn current(&self) -> (s: &FetchState)
        ensures
            *s == self.state,
    {
        &self.state
    }
}

/// Starting a second fetch while one is pending leaves only the second
/// observable: the first fetch's token is stale afterwards, so `deliver`
/// discards its outcome unread, while the second fetch's token is the
/// one a delivery can resolve.
pub proof fn lemma_second_fetch_wins(c: FetchController)
    requires
        c.generation + 2 <= u64::MAX,
    ensures
        ({
            let c1 = spec_start(c);
            let c2 = spec_start(c1);
            &&& !delivery_applies(c2, c1.generation)
            &&& delivery_applies(c2, c2.generation)
        }),
{
}

} // verus!
