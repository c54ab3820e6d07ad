//! Response emission: serialize an application response's status and
//! headers by the CGI/1.1 response conventions, as the bytes that go in
//! front of the streamed body on the request's output stream.

use crate::body::chunks_view;
use crate::translate::pairs_view;
use vstd::prelude::*;

verus! {

/// The bytes of `Status: `.
pub open spec fn status_prefix() -> Seq<u8> {
    seq![0x53u8, 0x74, 0x61, 0x74, 0x75, 0x73, 0x3a, 0x20]
}

/// The bytes of a carriage return and a line feed.
pub open spec fn crlf() -> Seq<u8> {
    seq![0x0du8, 0x0a]
}

/// The bytes of `: `, between a header name and its value.
pub open spec fn colon_space() -> Seq<u8> {
    seq![0x3au8, 0x20]
}

/// The three decimal digits of a status code.
pub open spec fn status_digits(s: int) -> Seq<u8>
    recommends
        100 <= s <= 999,
{
    seq![
        (0x30 + s / 100) as u8,
        (0x30 + (s / 10) % 10) as u8,
        (0x30 + s % 10) as u8,
    ]
}

/// The CGI status line for a code: `Status: NNN` and a line end.
pub open spec fn status_line(s: int) -> Seq<u8> {
    status_prefix() + status_digits(s) + crlf()
}

/// One serialized header: name, `: `, value, line end.
pub open spec fn header_line(h: (Seq<u8>, Seq<u8>)) -> Seq<u8> {
    h.0 + colon_space() + h.1 + crlf()
}

/// All headers serialized in order.
pub open spec fn header_block(hs: Seq<(Seq<u8>, Seq<u8>)>) -> Seq<u8>
    decreases hs.len(),
{
    if hs.len() == 0 {
        Seq::empty()
    } else {
        header_block(hs.drop_last()) + header_line(hs.last())
    }
}

/// The whole serialized response head: status line, headers, and the blank
/// line that separates them from the body bytes.
pub open spec fn spec_serialized(status: int, headers: Seq<(Seq<u8>, Seq<u8>)>) -> Seq<u8> {
    status_line(status) + header_block(headers) + crlf()
}

/// The application response's status and headers, as plain values.
pub struct ResponseHead {
    /// The HTTP status code, a three-digit number.
    pub status: u16,
    /// The response headers, in emission order: name and raw value bytes.
    pub headers: Vec<(Vec<u8>, Vec<u8>)>,
}

/// Append a slice's bytes to a vector.
pub fn push_bytes(out: &mut Vec<u8>, s: &[u8])
    ensures
        final(out)@ == old(out)@ + s@,
{
    let mut i: usize = 0;
    while i < s.len()
        invariant
            0 <= i <= s.len(),
            out@ == old(out)@ + s@.take(i as int),
        decreases s.len() - i,
    {
        out.push(s[i]);
        proof {
            assert(old(out)@ + s@.take(i as int + 1) =~= (old(out)@ + s@.take(i as int)).push(
                s@[i as int],
            ));
        }
        i += 1;
    }
    proof {
        assert(s@.take(s@.len() as int) =~= s@);
    }
}

impl ResponseHead {
    /// Serialize this head as CGI/1.1 has it: the exact bytes to write
    /// before the body.
    pub fn serialize(&self) -> (out: Vec<u8>)
        requires
            100 <= self.status <= 999,
        ensures
            out@ == spec_serialized(self.status as int, pairs_view(self.headers@)),
    {
        let mut out: Vec<u8> = Vec::new();
        // `Status: NNN` and the line end.
        let prefix: Vec<u8> = vec![0x53, 0x74, 0x61, 0x74, 0x75, 0x73, 0x3a, 0x20];
        proof {
            assert(prefix@ =~= status_prefix());
        }
        push_bytes(&mut out, prefix.as_slice());
        let s = self.status;
        out.push(0x30 + (s / 100) as u8);
        out.push(0x30 + ((s / 10) % 10) as u8);
        out.push(0x30 + (s % 10) as u8);
        out.push(0x0d);
        out.push(0x0a);
        proof {
            assert(out@ =~= status_line(s as int));
        }
        // Each header line, in order.
        let ghost hs = pairs_view(self.headers@);
        let mut i: usize = 0;
        proof {
            assert(hs.take(0) =~= Seq::<(Seq<u8>, Seq<u8>)>::empty());
            assert(out@ =~= status_line(s as int) + header_block(hs.take(0)));
        }
        while i < self.headers.len()
            invariant
                0 <= i <= self.headers.len(),
                100 <= s <= 999,
                hs == pairs_view(self.headers@),
                hs.len() == self.headers.len(),
                out@ == status_line(s as int) + header_block(hs.take(i as int)),
            decreases self.headers.len() - i,
        {
            push_bytes(&mut out, self.headers[i].0.as_slice());
            out.push(0x3a);
            out.push(0x20);
            push_bytes(&mut out, self.headers[i].1.as_slice());
            out.push(0x0d);
            out.push(0x0a);
            proof {
                assert(hs[i as int] == (self.headers@[i as int].0@, self.headers@[i as int].1@));
                assert(hs.take(i as int + 1).drop_last() =~= hs.take(i as int));
                assert(hs.take(i as int + 1).last() == hs[i as int]);
                assert(header_block(hs.take(i as int + 1)) == header_block(hs.take(i as int))
                    + header_line(hs[i as int]));
                assert(out@ =~= status_line(s as int) + header_block(hs.take(i as int + 1)));
            }
            i += 1;
        }
        // The blank line before the body.
        out.push(0x0d);
        out.push(0x0a);
        proof {
            assert(hs.take(hs.len() as int) =~= hs);
            assert(out@ =~= spec_serialized(s as int, hs));
        }
        out
    }
}

/// The whole wire image of a response whose body production succeeds: the
/// serialized head followed by the body chunks' bytes, in order and
/// unaltered. The streaming writer sends exactly these bytes when neither
/// the writes nor the body source fail — it never buffers them whole,
/// which is why the head and the chunks are written piecewise.
pub fn wire_image(head: &ResponseHead, chunks: &Vec<Vec<u8>>) -> (out: Vec<u8>)
    requires
        100 <= head.status <= 999,
    ensures
        out@ == spec_serialized(head.status as int, pairs_view(head.headers@)) + chunks_view(
            chunks@,
        ).flatten(),
{
    let ghost hd = spec_serialized(head.status as int, pairs_view(head.headers@));
    let mut out = head.serialize();
    let mut i: usize = 0;
    proof {
        assert(chunks_view(chunks@.take(0)) =~= Seq::<Seq<u8>>::empty());
        assert(out@ =~= hd + chunks_view(chunks@.take(0)).flatten_alt());
    }
    while i < chunks.len()
        invariant
            0 <= i <= chunks.len(),
            100 <= head.status <= 999,
            hd == spec_serialized(head.status as int, pairs_view(head.headers@)),
            out@ == hd + chunks_view(chunks@.take(i as int)).flatten_alt(),
        decreases chunks.len() - i,
    {
        push_bytes(&mut out, chunks[i].as_slice());
        proof {
            let pre = chunks_view(chunks@.take(i as int));
            let post = chunks_view(chunks@.take(i as int + 1));
            assert(post.drop_last() =~= pre);
            assert(post.last() == chunks@[i as int]@);
            assert(post.flatten_alt() == pre.flatten_alt() + chunks@[i as int]@);
            assert(out@ =~= hd + post.flatten_alt());
        }
        i += 1;
    }
    proof {
        assert(chunks@.take(chunks@.len() as int) =~= chunks@);
        chunks_view(chunks@).lemma_flatten_and_flatten_alt_are_equivalent();
    }
    out
}

} // verus!
