//! Decisions of the streaming HTTP client: how a first response is served, which byte
//! ranges are requested, and how a bounded chunk body is cut.

use vstd::prelude::*;

use crate::decimal::{
    decimal_text, is_digit, law_decimal_roundtrip, lemma_decimal_text_digits, parse_usize,
    spec_parse_usize, usize_to_decimal,
};
use crate::error::{no_causes, single_cause, ErrorSource};
use crate::text::{first_index_of, last_index_of, lemma_first_index_of, lemma_last_index_of, rfind_char};

verus! {

/// The largest chunk requested at once: 4 MiB.
pub const CHUNK_MAX_LEN: usize = 4_194_304;

/// The most chunks in flight for one stream.
pub const WINDOW_MAX_LEN: usize = 8;

/// Why a streaming request failed.
#[derive(Debug, Clone, PartialEq, Eq)]
pub enum StreamHttpBodyError {
    /// The request could not be sent or answered.
    Transport { source: String },
    /// The resource does not exist (404) or may not be read (403).
    NotFound,
    /// Another unexpected HTTP status.
    InvalidStatus { status: u16 },
    /// The server's response is unusable.
    InvalidResponse { message: &'static str },
}

/// The reason phrase that `http::StatusCode::canonical_reason` gives for the status code
/// `code`, or `None` for a code it has no phrase for or that is not a status code.
pub uninterp spec fn status_reason(code: u16) -> Option<Seq<char>>;

/// Calls `http::StatusCode::from_u16` and, for a valid code, `StatusCode::canonical_reason`.
/// Claimed: the phrase is the named result `status_reason` of the code, and an invalid
/// code has none.
#[verifier::external_body]
fn canonical_reason(code: u16) -> (r: Option<&'static str>)
    ensures
        match r {
            Some(p) => status_reason(code) == Some(p@),
            None => status_reason(code) is None,
        },
{
    match http::StatusCode::from_u16(code) {
        Ok(status) => status.canonical_reason(),
        Err(_) => None,
    }
}

/// What an HTTP status displays: its code and reason phrase.
pub open spec fn status_text(code: u16) -> Seq<char> {
    decimal_text(code as nat) + " "@ + match status_reason(code) {
        Some(p) => p,
        None => "<unknown status code>"@,
    }
}

/// What a streaming failure displays.
pub open spec fn spec_stream_error_description(e: StreamHttpBodyError) -> Seq<char> {
    match e {
        StreamHttpBodyError::Transport { .. } => "HTTP transport error"@,
        StreamHttpBodyError::NotFound => "resource not found"@,
        StreamHttpBodyError::InvalidStatus { status } => "unexpected HTTP status "@ + status_text(
            status,
        ),
        StreamHttpBodyError::InvalidResponse { message } => "invalid response from the server: "@
            + message@,
    }
}

impl ErrorSource for StreamHttpBodyError {
    open spec fn spec_describe(&self) -> Seq<char> {
        spec_stream_error_description(*self)
    }

    /// The transport failure beneath a transport error.
    open spec fn spec_causes(&self) -> Seq<Seq<char>> {
        match *self {
            StreamHttpBodyError::Transport { source } => seq![source@],
            _ => Seq::empty(),
        }
    }

    fn describe(&self) -> (r: String) {
        match self {
            StreamHttpBodyError::Transport { .. } => String::from_str("HTTP transport error"),
            StreamHttpBodyError::NotFound => String::from_str("resource not found"),
            StreamHttpBodyError::InvalidStatus { status } => {
                let reason = match canonical_reason(*status) {
                    Some(p) => p,
                    None => "<unknown status code>",
                };
                String::from_str("unexpected HTTP status ").concat(
                    usize_to_decimal(*status as usize).as_str(),
                ).concat(" ").concat(reason)
            },
            StreamHttpBodyError::InvalidResponse { message } => String::from_str(
                "invalid response from the server: ",
            ).concat(message),
        }
    }

    fn causes(&self) -> (r: Vec<String>) {
        match self {
            StreamHttpBodyError::Transport { source } => single_cause(source.clone()),
            _ => no_causes(),
        }
    }
}

/// How the body of a first response is streamed.
#[derive(Debug, Clone, Copy, PartialEq, Eq, Structural)]
pub enum ResponsePlan {
    /// The server sent the whole body (200).
    Full { content_length: Option<u64> },
    /// The server sent the first range (206); the rest is fetched chunk by chunk.
    Chunked { bytes_total: usize, initial_chunk_len: usize },
}

/// The total length announced by a `Content-Range` value: the number after its last `/`.
pub open spec fn content_range_total(h: Seq<char>) -> Option<usize> {
    let k = last_index_of(h, '/');
    if k < 0 {
        None
    } else {
        spec_parse_usize(h.subrange(k + 1, h.len() as int))
    }
}

/// A `Content-Range` value that ends in `/` and a total in decimal announces that total,
/// whatever precedes the slash: `bytes 0-4194303/10000000` announces 10000000.
pub proof fn law_content_range_total_read_back(range: Seq<char>, total: usize)
    ensures
        content_range_total(range.push('/') + decimal_text(total as nat)) == Some(total),
{
    let d = decimal_text(total as nat);
    let h = range.push('/') + d;
    let k = range.len() as int;
    lemma_decimal_text_digits(total as nat);
    law_decimal_roundtrip(total);
    lemma_last_index_of(h, '/');
    assert(h[k] == '/');
    assert forall|j: int| k < j < h.len() implies h[j] != '/' by {
        assert(h[j] == d[j - k - 1]);
        assert(is_digit(d[j - k - 1]));
    }
    assert(last_index_of(h, '/') == k);
    assert(h.subrange(k + 1, h.len() as int) =~= d);
}

/// The outcome of a first response with `status`, `Content-Range` value `content_range`
/// and `Content-Length` `content_length`.
pub open spec fn spec_classify_response(
    status: u16,
    content_range: Option<Seq<char>>,
    content_length: Option<u64>,
) -> Result<ResponsePlan, StreamHttpBodyError> {
    if status == 200 {
        Ok(ResponsePlan::Full { content_length })
    } else if status == 206 {
        let total = match content_range {
            Some(h) => content_range_total(h),
            None => None,
        };
        match total {
            None => Err(
                StreamHttpBodyError::InvalidResponse {
                    message: "206 Partial Content response is missing a valid Content-Range header",
                },
            ),
            Some(t) => match content_length {
                None => Err(
                    StreamHttpBodyError::InvalidResponse {
                        message: "206 Partial Content response is missing Content-Length",
                    },
                ),
                Some(l) => Ok(ResponsePlan::Chunked { bytes_total: t, initial_chunk_len: l as usize }),
            },
        }
    } else if status == 404 || status == 403 {
        Err(StreamHttpBodyError::NotFound)
    } else {
        Err(StreamHttpBodyError::InvalidStatus { status })
    }
}

/// Reads the total length from a `Content-Range` value such as `bytes 0-99/1000`.
pub fn parse_content_range_total(h: &str) -> (r: Option<usize>)
    ensures
        r == content_range_total(h@),
{
    proof {
        lemma_last_index_of(h@, '/');
    }
    match rfind_char(h, '/') {
        None => None,
        Some(k) => {
            let n = h.unicode_len();
            parse_usize(h.substring_char(k + 1, n))
        },
    }
}

/// Decides how a first response is streamed, from its status and headers.
pub fn classify_response(status: u16, content_range: Option<&str>, content_length: Option<u64>) -> (r:
    Result<ResponsePlan, StreamHttpBodyError>)
    ensures
        r == spec_classify_response(
            status,
            match content_range {
                Some(h) => Some(h@),
                None => None,
            },
            content_length,
        ),
{
    if status == 200 {
        Ok(ResponsePlan::Full { content_length })
    } else if status == 206 {
        let total = match content_range {
            Some(h) => parse_content_range_total(h),
            None => None,
        };
        match total {
            None => Err(
                StreamHttpBodyError::InvalidResponse {
                    message: "206 Partial Content response is missing a valid Content-Range header",
                },
            ),
            Some(t) => match content_length {
                None => Err(
                    StreamHttpBodyError::InvalidResponse {
                        message: "206 Partial Content response is missing Content-Length",
                    },
                ),
                Some(l) => Ok(ResponsePlan::Chunked { bytes_total: t, initial_chunk_len: l as usize }),
            },
        }
    } else if status == 404 || status == 403 {
        Err(StreamHttpBodyError::NotFound)
    } else {
        Err(StreamHttpBodyError::InvalidStatus { status })
    }
}

impl ResponsePlan {
    /// The length of the whole body, when known.
    pub fn content_length(&self) -> (r: Option<u64>)
        ensures
            r == match self {
                ResponsePlan::Full { content_length } => *content_length,
                ResponsePlan::Chunked { bytes_total, .. } => Some(*bytes_total as u64),
            },
    {
        match self {
            ResponsePlan::Full { content_length } => *content_length,
            ResponsePlan::Chunked { bytes_total, .. } => Some(*bytes_total as u64),
        }
    }
}

/// The `Range` header value for the `len` bytes at `offset`: `bytes={offset}-{offset+len-1}`.
pub open spec fn range_header_text(offset: nat, len: nat) -> Seq<char> {
    "bytes="@ + decimal_text(offset) + "-"@ + decimal_text((offset + len - 1) as nat)
}

/// The `Range` header value requesting `len` bytes at `offset`.
pub fn range_header(offset: usize, len: usize) -> (r: String)
    requires
        offset + len >= 1,
        offset + len <= usize::MAX,
    ensures
        r@ == range_header_text(offset as nat, len as nat),
{
    let end = offset + len;
    let prefix = String::from_str("bytes=");
    let a = prefix.concat(usize_to_decimal(offset).as_str());
    let b = a.concat("-");
    b.concat(usize_to_decimal(end - 1).as_str())
}

/// The `Range` header value of a first request: the leading chunk.
pub fn initial_range_header() -> (r: String)
    ensures
        r@ == range_header_text(0, CHUNK_MAX_LEN as nat),
{
    range_header(0, CHUNK_MAX_LEN)
}

/// The cut-off of a chunk body at its announced length.
#[derive(Debug, Clone, Copy, PartialEq, Eq)]
pub struct BoundedBody {
    remaining: usize,
}

impl BoundedBody {
    pub closed spec fn spec_remaining(&self) -> usize {
        self.remaining
    }

    /// A body of which `remaining` bytes are still expected.
    pub fn new(remaining: usize) -> (r: Self)
        ensures
            r.spec_remaining() == remaining,
    {
        BoundedBody { remaining }
    }

    /// The bytes still expected.
    pub fn remaining(&self) -> (r: usize)
        ensures
            r == self.spec_remaining(),
    {
        self.remaining
    }

    /// All expected bytes were passed on: the body ends here, whatever follows.
    pub fn is_complete(&self) -> (r: bool)
        ensures
            r == (self.spec_remaining() == 0),
    {
        self.remaining == 0
    }

    /// A piece of `len` bytes arrived; returns how many of its first bytes are passed on.
    pub fn on_piece(&mut self, len: usize) -> (take: usize)
        ensures
            take == if len <= old(self).spec_remaining() {
                len
            } else {
                old(self).spec_remaining()
            },
            final(self).spec_remaining() == old(self).spec_remaining() - take,
    {
        if len <= self.remaining {
            self.remaining = self.remaining - len;
            len
        } else {
            let take = self.remaining;
            self.remaining = 0;
            take
        }
    }
}

/// How the status of a first response decides: a 200 is streamed whole whatever its
/// headers; any status but 200 and 206 fails, as not found exactly for 404 and 403 and
/// otherwise as an unexpected status carrying that same status.
pub proof fn law_status_decides_the_response(
    status: u16,
    content_range: Option<Seq<char>>,
    content_length: Option<u64>,
)
    ensures
        status == 200 ==> spec_classify_response(status, content_range, content_length) == Ok::<
            ResponsePlan,
            StreamHttpBodyError,
        >(ResponsePlan::Full { content_length }),
        status != 200 && status != 206 ==> (spec_classify_response(
            status,
            content_range,
            content_length,
        ) == Err::<ResponsePlan, StreamHttpBodyError>(StreamHttpBodyError::NotFound) <==> (status
            == 404 || status == 403)),
        status != 200 && status != 206 && status != 404 && status != 403 ==> spec_classify_response(
            status,
            content_range,
            content_length,
        ) == Err::<ResponsePlan, StreamHttpBodyError>(StreamHttpBodyError::InvalidStatus { status }),
{
}

/// The `Range` header of `len` bytes at `offset` reads back: it starts with `bytes=`, the
/// number up to its first `-` is the offset, and the number after it is the offset of the
/// last byte, `offset + len - 1`.
pub proof fn law_range_header_reads_back(offset: usize, len: usize)
    requires
        len >= 1,
        offset + len - 1 <= usize::MAX,
    ensures
        ({
            let t = range_header_text(offset as nat, len as nat);
            let rest = t.subrange(6, t.len() as int);
            let k = first_index_of(rest, '-');
            &&& t.subrange(0, 6) == seq!['b', 'y', 't', 'e', 's', '=']
            &&& 0 <= k
            &&& spec_parse_usize(rest.subrange(0, k)) == Some(offset)
            &&& spec_parse_usize(rest.subrange(k + 1, rest.len() as int)) == Some(
                (offset + len - 1) as usize,
            )
        }),
{
    reveal_strlit("bytes=");
    reveal_strlit("-");
    let last = (offset + len - 1) as usize;
    let d1 = decimal_text(offset as nat);
    let d2 = decimal_text(last as nat);
    lemma_decimal_text_digits(offset as nat);
    law_decimal_roundtrip(offset);
    law_decimal_roundtrip(last);
    let t = range_header_text(offset as nat, len as nat);
    assert(t =~= seq!['b', 'y', 't', 'e', 's', '='] + d1 + seq!['-'] + d2);
    let rest = t.subrange(6, t.len() as int);
    assert(rest =~= d1 + seq!['-'] + d2);
    lemma_first_index_of(rest, '-');
    assert(rest[d1.len() as int] == '-');
    assert forall|j: int| 0 <= j < d1.len() implies rest[j] != '-' by {
        assert(rest[j] == d1[j]);
        assert(is_digit(d1[j]));
    }
    assert(first_index_of(rest, '-') == d1.len());
    assert(rest.subrange(0, d1.len() as int) =~= d1);
    assert(rest.subrange(d1.len() as int + 1, rest.len() as int) =~= d2);
}

/// A 206 answer is streamed in chunks: the total comes from its `Content-Range` (the number
/// after the last `/`), the first chunk's length from its `Content-Length`; without either
/// header the response is refused as invalid.
pub proof fn law_partial_response_is_chunked(range: Seq<char>, total: usize, length: u64)
    requires
        length <= usize::MAX,
    ensures
        spec_classify_response(206, Some(range.push('/') + decimal_text(total as nat)), Some(length))
            == Ok::<ResponsePlan, StreamHttpBodyError>(
            ResponsePlan::Chunked { bytes_total: total, initial_chunk_len: length as usize },
        ),
        spec_classify_response(206, Some(range.push('/') + decimal_text(total as nat)), None) matches Err(
            StreamHttpBodyError::InvalidResponse { .. },
        ),
        spec_classify_response(206, None, Some(length)) matches Err(
            StreamHttpBodyError::InvalidResponse { .. },
        ),
{
    law_content_range_total_read_back(range, total);
}

} // verus!
