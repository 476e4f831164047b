//! Ping protocol adapter (shared-session shape): composition of the framed
//! RPC ping request sent over one logical stream of a multiplexed session.
//!
//! The wire contract: method POST, path `/pingpong.Ping/Ping`, headers
//! `content-type: application/grpc`, `date` (the current time, marked
//! sensitive by the sender), `user-agent`, `te: trailers`; the body is a
//! single five-byte frame of zero bytes, and the sender finishes the request
//! stream before awaiting the response.
use vstd::prelude::*;

use crate::wire::ascii_bytes;
use crate::wire::spec_ascii;

verus! {

/// Mathematical model of a composed request: every field as plain bytes.
#[verifier::ext_equal]
pub struct PingPartsModel {
    pub method: Seq<u8>,
    pub uri: Seq<u8>,
    pub headers: Seq<(Seq<u8>, Seq<u8>)>,
    pub body: Seq<u8>,
}

/// A composed request, ready for the transport layer to turn into its own
/// request type.  The `date` header value is sensitive: the transport should
/// exclude it from compression-based header indexing.
pub struct PingRequestParts {
    pub method: Vec<u8>,
    pub uri: Vec<u8>,
    pub headers: Vec<(Vec<u8>, Vec<u8>)>,
    pub body: Vec<u8>,
}

impl View for PingRequestParts {
    type V = PingPartsModel;

    open spec fn view(&self) -> PingPartsModel {
        PingPartsModel {
            method: self.method@,
            uri: self.uri@,
            headers: Seq::new(self.headers@.len(), |i: int| (self.headers@[i].0@, self.headers@[i].1@)),
            body: self.body@,
        }
    }
}

/// The exact composed request for a target authority and a date header value.
pub open spec fn spec_ping_parts(auth: Seq<u8>, date: Seq<u8>) -> PingPartsModel {
    PingPartsModel {
        method: spec_ascii("POST"@),
        uri: spec_ascii("https://"@) + auth + spec_ascii("/pingpong.Ping/Ping"@),
        headers: seq![
            (spec_ascii("content-type"@), spec_ascii("application/grpc"@)),
            (spec_ascii("date"@), date),
            (spec_ascii("user-agent"@), spec_ascii("unknown/0.0.0"@)),
            (spec_ascii("te"@), spec_ascii("trailers"@)),
        ],
        body: seq![0u8, 0u8, 0u8, 0u8, 0u8],
    }
}

/// Append a byte slice to a byte vector.
fn append_bytes(dst: &mut Vec<u8>, src: &[u8])
    ensures
        final(dst)@ == old(dst)@ + src@,
{
    let mut i: usize = 0;
    proof {
        assert(dst@ =~= dst@ + src@.subrange(0, 0));
    }
    while i < src.len()
        invariant
            i <= src@.len(),
            dst@ == old(dst)@ + src@.subrange(0, i as int),
        decreases src@.len() - i,
    {
        let b = src[i];
        dst.push(b);
        proof {
            assert(old(dst)@ + src@.subrange(0, i as int) + seq![b] =~= old(dst)@ + src@.subrange(
                0,
                i as int + 1,
            ));
        }
        i = i + 1;
    }
    proof {
        assert(src@.subrange(0, src@.len() as int) =~= src@);
    }
}

/// Compose the ping request for one target authority, with the given date
/// header value.
pub fn compose_ping_request(authority: &Vec<u8>, date: &Vec<u8>) -> (p: PingRequestParts)
    ensures
        p@ == spec_ping_parts(authority@, date@),
{
    proof {
        reveal_strlit("POST");
        reveal_strlit("https://");
        reveal_strlit("/pingpong.Ping/Ping");
        reveal_strlit("content-type");
        reveal_strlit("application/grpc");
        reveal_strlit("date");
        reveal_strlit("user-agent");
        reveal_strlit("unknown/0.0.0");
        reveal_strlit("te");
        reveal_strlit("trailers");
    }
    let method = ascii_bytes("POST");
    let mut uri = ascii_bytes("https://");
    append_bytes(&mut uri, authority.as_slice());
    let path = ascii_bytes("/pingpong.Ping/Ping");
    append_bytes(&mut uri, path.as_slice());
    let mut headers: Vec<(Vec<u8>, Vec<u8>)> = Vec::new();
    headers.push((ascii_bytes("content-type"), ascii_bytes("application/grpc")));
    headers.push((ascii_bytes("date"), date.clone()));
    headers.push((ascii_bytes("user-agent"), ascii_bytes("unknown/0.0.0")));
    headers.push((ascii_bytes("te"), ascii_bytes("trailers")));
    let mut body: Vec<u8> = Vec::new();
    body.push(0u8);
    body.push(0u8);
    body.push(0u8);
    body.push(0u8);
    body.push(0u8);
    let p = PingRequestParts { method, uri, headers, body };
    proof {
        assert(p@.headers =~= spec_ping_parts(authority@, date@).headers);
        assert(p@.body =~= spec_ping_parts(authority@, date@).body);
        assert(p@ =~= spec_ping_parts(authority@, date@));
    }
    p
}

/// Relies on chrono's `Utc::now` and `DateTime::to_rfc2822` to render the
/// current time.  The result depends on the clock, so nothing is promised of
/// it.
#[verifier::external_body]
fn now_rfc2822() -> String {
    chrono::Utc::now().to_rfc2822()
}

/// Compose the ping request for one target authority, dating it now.  The
/// date header carries the clock's rendering of the current time; everything
/// else is pinned exactly.
pub fn ping_request_now(authority: &Vec<u8>) -> (p: PingRequestParts)
    ensures
        exists|date: Seq<u8>| p@ == spec_ping_parts(authority@, date),
{
    let date = now_rfc2822();
    let date_bytes = vstd::slice::slice_to_vec(date.as_str().as_bytes());
    let p = compose_ping_request(authority, &date_bytes);
    proof {
        assert(p@ == spec_ping_parts(authority@, date_bytes@));
    }
    p
}

} // verus!
