//! The body conduit: a single-producer, single-consumer queue of byte chunks
//! — or a terminal read error — that hands a request body from the
//! ingestion side to the application's body stream without buffering it
//! whole.
//!
//! The model keeps the full history of both ends: every chunk the producer
//! ever put in (`sent`) and every chunk the consumer has taken back out
//! (`taken`), beside the chunks still in flight and whether the producer
//! reported a terminal error. The well-formedness invariant — sent history
//! equals taken history plus what is pending — is what makes the
//! stream-preservation law hold under any interleaving of sends and
//! receives, terminal error or not.

use vstd::prelude::*;

verus! {

/// View of a list of owned chunks.
pub open spec fn chunks_view(v: Seq<Vec<u8>>) -> Seq<Seq<u8>> {
    v.map_values(|c: Vec<u8>| c@)
}

/// The conduit between body ingestion and the application's body stream.
pub struct BodyChannel {
    /// Chunks sent and not yet taken, oldest first.
    pub pending: Vec<Vec<u8>>,
    /// History of every chunk the consumer took, oldest first.
    pub taken: Ghost<Seq<Seq<u8>>>,
    /// History of every chunk the producer put in, oldest first.
    pub sent: Ghost<Seq<Seq<u8>>>,
    /// Whether the producer has been dropped: the end-of-stream signal.
    pub closed: bool,
    /// Whether the producer put a terminal read error into the conduit:
    /// the consumer's end-of-stream is then erroneous, not clean.
    pub failed: bool,
    /// Whether the consumer still exists.
    pub receiver_alive: bool,
}

impl BodyChannel {
    /// Nothing is lost and nothing is made up: the sent history is exactly
    /// the taken history followed by what is still in flight.
    pub open spec fn wf(self) -> bool {
        self.sent@ == self.taken@ + chunks_view(self.pending@)
    }

    /// A finished stream the consumer saw to the end without a terminal
    /// error.
    pub open spec fn clean_end(self) -> bool {
        self.closed && self.pending@.len() == 0 && !self.failed
    }

    /// A fresh channel: nothing sent, nothing taken, no error, both ends
    /// present.
    pub fn new() -> (c: BodyChannel)
        ensures
            c.wf(),
            c.sent@ == Seq::<Seq<u8>>::empty(),
            c.taken@ == Seq::<Seq<u8>>::empty(),
            c.pending@.len() == 0,
            !c.closed,
            !c.failed,
            c.receiver_alive,
    {
        let c = BodyChannel {
            pending: Vec::new(),
            taken: Ghost(Seq::empty()),
            sent: Ghost(Seq::empty()),
            closed: false,
            failed: false,
            receiver_alive: true,
        };
        proof {
            assert(c.sent@ =~= c.taken@ + chunks_view(c.pending@));
        }
        c
    }

    /// Put one chunk in. With the consumer gone the attempt fails silently:
    /// the chunk is discarded and the channel is unchanged, exactly so that
    /// an ingestion loop can keep running without crashing.
    pub fn send(&mut self, chunk: Vec<u8>) -> (r: bool)
        requires
            old(self).wf(),
            !old(self).closed,
        ensures
            final(self).wf(),
            r == old(self).receiver_alive,
            final(self).closed == old(self).closed,
            final(self).failed == old(self).failed,
            final(self).receiver_alive == old(self).receiver_alive,
            final(self).taken@ == old(self).taken@,
            r ==> final(self).sent@ == old(self).sent@.push(chunk@),
            !r ==> final(self).sent@ == old(self).sent@,
    {
        if !self.receiver_alive {
            return false;
        }
        let ghost cv = chunk@;
        self.pending.push(chunk);
        proof {
            self.sent@ = self.sent@.push(cv);
            assert(self.sent@ =~= self.taken@ + chunks_view(self.pending@));
        }
        true
    }

    /// Put the terminal read error in: the body's source failed mid-read,
    /// and the consumer's end-of-stream will report it. The chunk
    /// histories are untouched — the error is no data. With the consumer
    /// gone the attempt fails silently, like a send.
    pub fn send_error(&mut self) -> (r: bool)
        requires
            old(self).wf(),
            !old(self).closed,
        ensures
            final(self).wf(),
            r == old(self).receiver_alive,
            final(self).closed == old(self).closed,
            final(self).receiver_alive == old(self).receiver_alive,
            final(self).taken@ == old(self).taken@,
            final(self).sent@ == old(self).sent@,
            final(self).pending@ == old(self).pending@,
            r ==> final(self).failed,
            !r ==> final(self).failed == old(self).failed,
    {
        if !self.receiver_alive {
            return false;
        }
        self.failed = true;
        true
    }

    /// Drop the producer: the consumer will see end-of-stream once the
    /// pending chunks are gone — clean, unless a terminal error was put in.
    pub fn close(&mut self)
        requires
            old(self).wf(),
        ensures
            final(self).wf(),
            final(self).closed,
            final(self).failed == old(self).failed,
            final(self).receiver_alive == old(self).receiver_alive,
            final(self).sent@ == old(self).sent@,
            final(self).taken@ == old(self).taken@,
            final(self).pending@ == old(self).pending@,
    {
        self.closed = true;
    }

    /// Drop the consumer. Later sends fail silently.
    pub fn drop_receiver(&mut self)
        requires
            old(self).wf(),
        ensures
            final(self).wf(),
            !final(self).receiver_alive,
            final(self).closed == old(self).closed,
            final(self).failed == old(self).failed,
            final(self).sent@ == old(self).sent@,
            final(self).taken@ == old(self).taken@,
            final(self).pending@ == old(self).pending@,
    {
        self.receiver_alive = false;
    }

    /// Take the oldest in-flight chunk, if any. `None` with the channel
    /// closed is end-of-stream — erroneous if the producer put the
    /// terminal error in; `None` with it open only means nothing has
    /// arrived yet.
    pub fn recv(&mut self) -> (r: Option<Vec<u8>>)
        requires
            old(self).wf(),
            old(self).receiver_alive,
        ensures
            final(self).wf(),
            final(self).closed == old(self).closed,
            final(self).failed == old(self).failed,
            final(self).receiver_alive == old(self).receiver_alive,
            final(self).sent@ == old(self).sent@,
            old(self).pending@.len() == 0 ==> r is None && *final(self) == *old(self),
            old(self).pending@.len() > 0 ==> match r {
                Some(c) => {
                    &&& c@ == chunks_view(old(self).pending@)[0]
                    &&& final(self).taken@ == old(self).taken@.push(c@)
                    &&& final(self).pending@ == old(self).pending@.drop_first()
                },
                None => false,
            },
    {
        if self.pending.len() == 0 {
            return None;
        }
        let c = self.pending.remove(0);
        let ghost cv = c@;
        proof {
            self.taken@ = self.taken@.push(cv);
            assert(self.pending@ =~= old(self).pending@.drop_first());
            assert(self.sent@ =~= self.taken@ + chunks_view(self.pending@));
        }
        Some(c)
    }
}

/// Law: whenever the consumer has taken everything in flight, what it took
/// is exactly what the producer sent — the identical chunks in the identical
/// order, hence the identical bytes, whatever the interleaving of sends and
/// receives was, and whether or not the stream ended in the terminal error.
pub proof fn lemma_stream_preservation(ch: BodyChannel)
    requires
        ch.wf(),
        ch.pending@.len() == 0,
    ensures
        ch.taken@ == ch.sent@,
        ch.taken@.flatten() == ch.sent@.flatten(),
{
    assert(ch.sent@ =~= ch.taken@);
}

/// Send the chunks in order; if the consumer is gone, stop at once rather
/// than fail. The common body of the ingestion drivers.
fn send_all(ch: &mut BodyChannel, chunks: Vec<Vec<u8>>)
    requires
        old(ch).wf(),
        !old(ch).closed,
    ensures
        final(ch).wf(),
        !final(ch).closed,
        final(ch).failed == old(ch).failed,
        final(ch).receiver_alive == old(ch).receiver_alive,
        final(ch).taken@ == old(ch).taken@,
        old(ch).receiver_alive ==> final(ch).sent@ == old(ch).sent@ + chunks_view(chunks@),
        !old(ch).receiver_alive ==> final(ch).sent@ == old(ch).sent@,
{
    let ghost orig = *old(ch);
    let mut i: usize = 0;
    proof {
        assert(chunks_view(chunks@.take(0)) =~= Seq::<Seq<u8>>::empty());
        assert(orig.sent@ + chunks_view(chunks@.take(0)) =~= orig.sent@);
    }
    loop
        invariant
            0 <= i <= chunks.len(),
            ch.wf(),
            !ch.closed,
            ch.failed == orig.failed,
            ch.receiver_alive == orig.receiver_alive,
            ch.taken@ == orig.taken@,
            orig.receiver_alive ==> ch.sent@ == orig.sent@ + chunks_view(chunks@.take(i as int)),
            !orig.receiver_alive ==> ch.sent@ == orig.sent@,
        ensures
            ch.wf(),
            !ch.closed,
            ch.failed == orig.failed,
            ch.receiver_alive == orig.receiver_alive,
            ch.taken@ == orig.taken@,
            orig.receiver_alive ==> ch.sent@ == orig.sent@ + chunks_view(chunks@),
            !orig.receiver_alive ==> ch.sent@ == orig.sent@,
        decreases chunks.len() - i,
    {
        if i >= chunks.len() {
            proof {
                if orig.receiver_alive {
                    assert(chunks@.take(chunks@.len() as int) =~= chunks@);
                }
            }
            break;
        }
        let c = vstd::slice::slice_to_vec(chunks[i].as_slice());
        let ok = ch.send(c);
        if !ok {
            break;
        }
        proof {
            assert(chunks_view(chunks@.take(i as int + 1)) =~= chunks_view(
                chunks@.take(i as int),
            ).push(chunks@[i as int]@));
            assert(ch.sent@ =~= orig.sent@ + chunks_view(chunks@.take(i as int + 1)));
        }
        i += 1;
    }
}

/// Drive body ingestion to completion, as the request adapter does: send
/// the chunks in order; if the consumer is gone, stop at once rather than
/// fail; close the producer in every case, so the consumer can observe
/// end-of-stream. With the consumer present throughout, the sent history
/// grows by exactly the given chunks; with it gone, by nothing. The loop
/// provably terminates even then.
pub fn ingest(ch: &mut BodyChannel, chunks: Vec<Vec<u8>>)
    requires
        old(ch).wf(),
        !old(ch).closed,
    ensures
        final(ch).wf(),
        final(ch).closed,
        final(ch).failed == old(ch).failed,
        final(ch).receiver_alive == old(ch).receiver_alive,
        final(ch).taken@ == old(ch).taken@,
        old(ch).receiver_alive ==> final(ch).sent@ == old(ch).sent@ + chunks_view(chunks@),
        !old(ch).receiver_alive ==> final(ch).sent@ == old(ch).sent@,
{
    send_all(ch, chunks);
    ch.close();
}

/// Drive ingestion of a body whose source fails after the given chunks:
/// the chunks go in, then the terminal error, then the producer closes —
/// the shape of a mid-body read failure. The data that did arrive is
/// preserved; the consumer's end-of-stream reports the error.
pub fn ingest_failing(ch: &mut BodyChannel, chunks: Vec<Vec<u8>>)
    requires
        old(ch).wf(),
        !old(ch).closed,
    ensures
        final(ch).wf(),
        final(ch).closed,
        final(ch).receiver_alive == old(ch).receiver_alive,
        final(ch).taken@ == old(ch).taken@,
        old(ch).receiver_alive ==> final(ch).sent@ == old(ch).sent@ + chunks_view(chunks@)
            && final(ch).failed,
        !old(ch).receiver_alive ==> final(ch).sent@ == old(ch).sent@ && final(ch).failed == old(
            ch,
        ).failed,
{
    send_all(ch, chunks);
    ch.send_error();
    ch.close();
}

/// Take every remaining chunk off a closed channel and concatenate the
/// bytes: the data the application's body stream reads once the producer
/// is done, whether the stream then ends cleanly or in the terminal error.
pub fn drain(ch: &mut BodyChannel) -> (out: Vec<u8>)
    requires
        old(ch).wf(),
        old(ch).closed,
        old(ch).receiver_alive,
    ensures
        final(ch).wf(),
        final(ch).pending@.len() == 0,
        final(ch).closed,
        final(ch).failed == old(ch).failed,
        final(ch).receiver_alive,
        final(ch).sent@ == old(ch).sent@,
        final(ch).taken@ == final(ch).sent@,
        final(ch).clean_end() <==> !old(ch).failed,
        out@ == chunks_view(old(ch).pending@).flatten(),
{
    let ghost orig = *old(ch);
    let mut out: Vec<u8> = Vec::new();
    proof {
        assert(out@ + chunks_view(ch.pending@).flatten() =~= chunks_view(
            orig.pending@,
        ).flatten());
    }
    loop
        invariant
            ch.wf(),
            ch.closed,
            ch.failed == orig.failed,
            ch.receiver_alive,
            ch.sent@ == orig.sent@,
            ch.taken@ + chunks_view(ch.pending@) == orig.taken@ + chunks_view(orig.pending@),
            out@ + chunks_view(ch.pending@).flatten() == chunks_view(orig.pending@).flatten(),
        ensures
            ch.wf(),
            ch.closed,
            ch.failed == orig.failed,
            ch.receiver_alive,
            ch.sent@ == orig.sent@,
            ch.pending@.len() == 0,
            out@ + chunks_view(ch.pending@).flatten() == chunks_view(orig.pending@).flatten(),
        decreases ch.pending@.len(),
    {
        let ghost before = *ch;
        let got = ch.recv();
        match got {
            None => {
                proof {
                    assert(before.pending@.len() == 0);
                }
                break;
            },
            Some(mut c) => {
                proof {
                    assert(chunks_view(before.pending@).flatten() == chunks_view(
                        before.pending@,
                    )[0] + chunks_view(before.pending@).drop_first().flatten());
                    assert(chunks_view(before.pending@).drop_first() =~= chunks_view(
                        ch.pending@,
                    ));
                    assert((out@ + c@) + chunks_view(ch.pending@).flatten() =~= out@ + (c@
                        + chunks_view(ch.pending@).flatten()));
                    assert(ch.taken@ + chunks_view(ch.pending@) =~= before.taken@ + chunks_view(
                        before.pending@,
                    ));
                }
                out.append(&mut c);
            },
        }
    }
    proof {
        assert(chunks_view(ch.pending@).flatten() =~= Seq::<u8>::empty());
        assert(out@ =~= chunks_view(orig.pending@).flatten());
        lemma_stream_preservation(*ch);
    }
    out
}

} // verus!
