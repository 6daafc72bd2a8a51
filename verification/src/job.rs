//! Jobs and the responses that workers give to them.

use vstd::prelude::*;

verus! {

/// The two kinds of work, each with a worker pool of its own.
#[derive(Debug, Clone, Copy, PartialEq, Eq, Structural)]
pub enum JobKind {
    /// Compile source bytes into an artifact.
    Prepare,
    /// Run an artifact against an input.
    Execute,
}

/// What a worker answers to a job. Either way the worker did its work: a
/// failure of the untrusted code is a result like any other.
#[derive(Debug)]
pub enum Response {
    /// The job ran to its end; the bytes are the artifact or the output.
    Done(Vec<u8>),
    /// The untrusted code failed; the bytes describe how.
    Failed(Vec<u8>),
}

/// Tag byte of a response that is `Done`.
pub const TAG_DONE: u8 = 0;

/// Tag byte of a response that is `Failed`.
pub const TAG_FAILED: u8 = 1;

/// A response as plain data: whether the job ran to its end, and its bytes.
pub struct ResponseView {
    pub done: bool,
    pub body: Seq<u8>,
}

impl View for Response {
    type V = ResponseView;

    open spec fn view(&self) -> ResponseView {
        match self {
            Response::Done(body) => ResponseView { done: true, body: body@ },
            Response::Failed(body) => ResponseView { done: false, body: body@ },
        }
    }
}

/// The payload that carries a response: a tag byte, then the body.
pub open spec fn response_bytes(response: ResponseView) -> Seq<u8> {
    seq![if response.done { 0u8 } else { 1u8 }] + response.body
}

/// The response that a payload carries, if it is well formed: it has a tag
/// byte, and the tag is one of the two.
pub open spec fn bytes_response(payload: Seq<u8>) -> Option<ResponseView> {
    if payload.len() >= 1 && payload[0] == 0 {
        Some(ResponseView { done: true, body: payload.skip(1) })
    } else if payload.len() >= 1 && payload[0] == 1 {
        Some(ResponseView { done: false, body: payload.skip(1) })
    } else {
        None
    }
}

/// Copies `src[from..]` into a new vector.
fn tail_of(src: &[u8], from: usize) -> (out: Vec<u8>)
    requires
        from <= src@.len(),
    ensures
        out@ == src@.skip(from as int),
{
    let mut out: Vec<u8> = Vec::new();
    let mut i: usize = from;
    while i < src.len()
        invariant
            from <= i <= src@.len(),
            out@ == src@.subrange(from as int, i as int),
        decreases src@.len() - i,
    {
        out.push(src[i]);
        assert(out@ =~= src@.subrange(from as int, i + 1));
        i += 1;
    }
    assert(out@ =~= src@.skip(from as int));
    out
}

impl Response {
    /// The payload that carries this response.
    pub fn encode(&self) -> (payload: Vec<u8>)
        ensures
            payload@ == response_bytes(self@),
    {
        let mut payload: Vec<u8> = Vec::new();
        let body: &Vec<u8> = match self {
            Response::Done(body) => {
                payload.push(TAG_DONE);
                body
            },
            Response::Failed(body) => {
                payload.push(TAG_FAILED);
                body
            },
        };
        let mut i: usize = 0;
        while i < body.len()
            invariant
                i <= body@.len(),
                payload@ == seq![if self@.done { 0u8 } else { 1u8 }] + body@.subrange(0, i as int),
                body@ == self@.body,
            decreases body@.len() - i,
        {
            payload.push(body[i]);
            assert(payload@ =~= seq![if self@.done { 0u8 } else { 1u8 }] + body@.subrange(
                0,
                i + 1,
            ));
            i += 1;
        }
        assert(body@.subrange(0, i as int) =~= body@);
        payload
    }

    /// Reads a response from a payload; `None` where the payload is empty or
    /// its tag is unknown.
    pub fn decode(payload: &[u8]) -> (response: Option<Response>)
        ensures
            response.is_some() == bytes_response(payload@).is_some(),
            response.is_some() ==> response.unwrap()@ == bytes_response(payload@).unwrap(),
    {
        if payload.len() == 0 {
            return None;
        }
        let tag: u8 = payload[0];
        if tag == TAG_DONE {
            Some(Response::Done(tail_of(payload, 1)))
        } else if tag == TAG_FAILED {
            Some(Response::Failed(tail_of(payload, 1)))
        } else {
            None
        }
    }
}

/// Reading back an encoded response gives the response.
pub proof fn lemma_response_round_trip(response: ResponseView)
    ensures
        bytes_response(response_bytes(response)) == Some(response),
{
    assert(response_bytes(response).skip(1) =~= response.body);
}

} // verus!
