//! Transport-side computation for a single JSON HTTP POST: classify the
//! outcome by status code, assemble a success body out of bounded read
//! chunks, and bound the diagnostic prefix kept of an error body.
//!
//! The socket work itself (connecting, writing the request, reading raw
//! chunks) is done outside the crate; it hands this module the status code
//! and the bytes.

use vstd::prelude::*;

verus! {

/// Request deadline applied to every transport call, in seconds.
pub const TRANSPORT_TIMEOUT_SECS: u64 = 130;

/// Long-poll window the update poller asks the remote service to hold, in
/// seconds.
pub const LONG_POLL_TIMEOUT_SECS: u64 = 120;

/// Law: the transport's own deadline is strictly wider than the long-poll
/// window, so a long-poll response is never truncated by the transport's
/// deadline.
pub proof fn lemma_transport_outlives_long_poll()
    ensures
        TRANSPORT_TIMEOUT_SECS > LONG_POLL_TIMEOUT_SECS,
{
}

/// Most bytes of a non-success response body kept for diagnostics.
pub const SNIPPET_LIMIT: usize = 256;

/// A transport-level failure: the HTTP status code outside the success
/// range, and a bounded prefix of the response body.
pub struct HttpError {
    pub code: u16,
    pub snippet: Vec<u8>,
}

/// A status code counts as success exactly when it lies in [200, 299].
pub open spec fn is_success_status(code: u16) -> bool {
    200 <= code <= 299
}

/// The diagnostic prefix kept of an error body: the whole body when it is
/// short, otherwise its first `SNIPPET_LIMIT` bytes.
pub open spec fn snippet_of(body: Seq<u8>) -> Seq<u8> {
    if body.len() <= SNIPPET_LIMIT {
        body
    } else {
        body.take(SNIPPET_LIMIT as int)
    }
}

/// Copies at most `SNIPPET_LIMIT` bytes of `body`, so an unbounded error
/// body never grows an unbounded diagnostic.
pub fn error_snippet(body: &Vec<u8>) -> (s: Vec<u8>)
    ensures
        s@ == snippet_of(body@),
        s@.len() <= SNIPPET_LIMIT,
{
    let limit: usize = if body.len() < SNIPPET_LIMIT {
        body.len()
    } else {
        SNIPPET_LIMIT
    };
    let mut s: Vec<u8> = Vec::new();
    let mut i: usize = 0;
    while i < limit
        invariant
            i <= limit,
            limit <= body@.len(),
            s@ == body@.take(i as int),
        decreases limit - i,
    {
        s.push(body[i]);
        assert(s@ =~= body@.take(i + 1));
        i = i + 1;
    }
    assert(s@ =~= snippet_of(body@));
    s
}

/// Reads `source` to its end through a buffer of `chunk_size` bytes and
/// concatenates the pieces. The result is the source unchanged, whatever
/// the chunk size: chunk boundaries never lose or reorder bytes.
pub fn read_body_chunked(source: &Vec<u8>, chunk_size: usize) -> (out: Vec<u8>)
    requires
        chunk_size >= 1,
    ensures
        out@ == source@,
{
    let mut out: Vec<u8> = Vec::new();
    let mut pos: usize = 0;
    while pos < source.len()
        invariant
            pos <= source@.len(),
            chunk_size >= 1,
            out@ == source@.take(pos as int),
        decreases source@.len() - pos,
    {
        let ghost chunk_start = pos;
        let mut taken: usize = 0;
        while taken < chunk_size && pos < source.len()
            invariant
                taken <= chunk_size,
                pos <= source@.len(),
                chunk_start < source@.len(),
                pos == chunk_start + taken,
                out@ == source@.take(pos as int),
            decreases chunk_size - taken,
        {
            out.push(source[pos]);
            assert(out@ =~= source@.take(pos + 1));
            pos = pos + 1;
            taken = taken + 1;
        }
    }
    assert(out@ =~= source@);
    out
}

/// Classifies a finished HTTP exchange. A status in [200, 299] yields the
/// full body unmodified; any other status yields an `HttpError` holding
/// the status code and a diagnostic prefix of at most `SNIPPET_LIMIT`
/// bytes of the body.
pub fn classify_response(status: u16, body: Vec<u8>) -> (r: Result<Vec<u8>, HttpError>)
    ensures
        match r {
            Ok(b) => is_success_status(status) && b@ == body@,
            Err(e) => !is_success_status(status) && e.code == status && e.snippet@ == snippet_of(
                body@,
            ) && e.snippet@.len() <= SNIPPET_LIMIT,
        },
{
    if 200 <= status && status <= 299 {
        Ok(body)
    } else {
        let snippet = error_snippet(&body);
        Err(HttpError { code: status, snippet })
    }
}

} // verus!
