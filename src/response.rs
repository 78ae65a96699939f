use vstd::prelude::*;
use vstd::slice::slice_subrange;
use vstd::utf8::encode_utf8;
use crate::head::{fields_view, head_text, ResponseHead, HTTP_VERSION};
use crate::proxy::Proxy;

verus! {

/// The size of the buffer that the body is copied through.
pub const CHUNK_SIZE: usize = 1024;

/// Where a response goes: an ordered stream of bytes.
///
/// As with `Proxy`, the default bodies of the spec functions are there only so
/// that sinks written outside verified code (a socket) compile without defining
/// them; the contracts describe verified sinks only.
pub trait Sink: Sized {
    /// The bytes sent so far.
    open spec fn sent(&self) -> Seq<u8> {
        Seq::empty()
    }

    /// Sending and flushing never fail.
    open spec fn reliable(&self) -> bool {
        false
    }

    /// Sends all of `bytes`; where it fails, a prefix of them may have gone out.
    fn send_bytes(&mut self, bytes: &[u8]) -> (r: Result<(), std::io::Error>)
        ensures
            final(self).reliable() == old(self).reliable(),
            old(self).reliable() ==> r is Ok,
            r is Ok ==> final(self).sent() == old(self).sent() + bytes@,
            r is Err ==> old(self).sent().is_prefix_of(final(self).sent()) && final(self).sent().is_prefix_of(old(self).sent() + bytes@),
    ;

    /// Pushes out what was sent; sends nothing more.
    fn flush_sink(&mut self) -> (r: Result<(), std::io::Error>)
        ensures
            final(self).reliable() == old(self).reliable(),
            old(self).reliable() ==> r is Ok,
            final(self).sent() == old(self).sent(),
    ;
}

impl Sink for Vec<u8> {
    open spec fn sent(&self) -> Seq<u8> {
        self@
    }

    open spec fn reliable(&self) -> bool {
        true
    }

    fn send_bytes(&mut self, bytes: &[u8]) -> (r: Result<(), std::io::Error>) {
        let mut i: usize = 0;
        while i < bytes.len()
            invariant
                0 <= i <= bytes@.len(),
                self@ == old(self)@ + bytes@.take(i as int),
            decreases bytes@.len() - i,
        {
            assert(bytes@.take(i + 1) =~= bytes@.take(i as int).push(bytes@[i as int]));
            self.push(bytes[i]);
            i = i + 1;
        }
        assert(bytes@.take(i as int) =~= bytes@);
        Ok(())
    }

    fn flush_sink(&mut self) -> (r: Result<(), std::io::Error>) {
        Ok(())
    }
}

/// `a + b` starts with `a + p` where `p` starts `b`.
proof fn lemma_prefix_extend(a: Seq<u8>, p: Seq<u8>, b: Seq<u8>)
    requires
        p.is_prefix_of(b),
    ensures
        (a + p).is_prefix_of(a + b),
        a.is_prefix_of(a + p),
{
    assert((a + b).subrange(0, (a + p).len() as int) =~= a + p);
    assert((a + p).subrange(0, a.len() as int) =~= a);
}

/// Copies the rest of the body from `proxy` to `sink`, through `buf`, until a
/// read hands out no bytes. A failed read or send ends the copy at once, with
/// that error: the sink then holds a prefix of the body, and nothing is retried.
pub fn stream_body<P: Proxy, S: Sink>(sink: &mut S, proxy: &mut P, buf: &mut [u8]) -> (r: Result<
    (),
    std::io::Error,
>)
    requires
        old(proxy).inv(),
        old(buf)@.len() > 0,
    ensures
        final(proxy).inv(),
        final(proxy).infallible() == old(proxy).infallible(),
        final(proxy).status() == old(proxy).status(),
        final(proxy).fields() == old(proxy).fields(),
        final(sink).reliable() == old(sink).reliable(),
        old(proxy).infallible() && old(sink).reliable() ==> r is Ok,
        r is Ok ==> final(sink).sent() == old(sink).sent() + old(proxy).unread() && final(proxy).unread().len() == 0,
        r is Err ==> old(sink).sent().is_prefix_of(final(sink).sent()) && final(sink).sent().is_prefix_of(old(sink).sent() + old(proxy).unread()),
{
    let ghost sink0 = old(sink).sent();
    let ghost unread0 = old(proxy).unread();
    let ghost status0 = old(proxy).status();
    let ghost fields0 = old(proxy).fields();
    let ghost infallible0 = old(proxy).infallible();
    let ghost reliable0 = old(sink).reliable();
    let buf_len = buf.len();
    let mut outcome: Option<Result<(), std::io::Error>> = None;
    proof {
        lemma_prefix_extend(sink0, Seq::empty(), unread0);
        assert(sink0 + Seq::<u8>::empty() =~= sink0);
    }
    while outcome.is_none()
        invariant
            proxy.inv(),
            proxy.infallible() == infallible0,
            proxy.status() == status0,
            proxy.fields() == fields0,
            sink.reliable() == reliable0,
            infallible0 && reliable0 ==> !(outcome matches Some(Err(_))),
            buf@.len() == buf_len,
            buf_len > 0,
            sink0.len() <= sink.sent().len(),
            !(outcome matches Some(Err(_))) ==> sink.sent() + proxy.unread() == sink0 + unread0,
            outcome matches Some(Ok(())) ==> proxy.unread().len() == 0,
            outcome matches Some(Err(_)) ==> sink0.is_prefix_of(sink.sent()) && sink.sent().is_prefix_of(sink0 + unread0),
        decreases if outcome is None { proxy.unread().len() + 1 } else { 0 },
    {
        let ghost before = proxy.unread();
        let ghost sent_before = sink.sent();
        proof {
            lemma_prefix_extend(sent_before, Seq::empty(), before);
            assert(sent_before + Seq::<u8>::empty() =~= sent_before);
            assert(sink0.is_prefix_of(sent_before)) by {
                assert(sent_before.subrange(0, sink0.len() as int) =~= (sent_before + before).subrange(0, sink0.len() as int));
                assert((sink0 + unread0).subrange(0, sink0.len() as int) =~= sink0);
            }
        }
        match proxy.read(buf) {
            Err(e) => {
                outcome = Some(Err(e));
            },
            Ok(n) => {
                if n == 0 {
                    outcome = Some(Ok(()));
                } else {
                    let chunk = slice_subrange(buf, 0, n);
                    assert(chunk@ =~= before.take(n as int));
                    assert(before =~= before.take(n as int) + before.skip(n as int));
                    match sink.send_bytes(chunk) {
                        Ok(()) => {
                            assert(sink.sent() + proxy.unread() =~= sink0 + unread0);
                        },
                        Err(e) => {
                            proof {
                                let p = sink.sent().skip(sent_before.len() as int);
                                assert(sink.sent().subrange(0, sent_before.len() as int) =~= sent_before);
                                assert(sink.sent() =~= sent_before + p);
                                assert(p.is_prefix_of(before)) by {
                                    assert((sent_before + chunk@).subrange(0, sink.sent().len() as int) =~= sink.sent());
                                    assert(before.subrange(0, p.len() as int) =~= p);
                                }
                                lemma_prefix_extend(sent_before, p, before);
                                assert(sink0.is_prefix_of(sink.sent())) by {
                                    assert(sink.sent().subrange(0, sink0.len() as int) =~= sent_before.subrange(0, sink0.len() as int));
                                }
                            }
                            outcome = Some(Err(e));
                        },
                    }
                }
            },
        }
    }
    assert(outcome matches Some(Ok(())) ==> sink.sent() =~= sink0 + unread0);
    match outcome {
        Some(r) => r,
        None => Ok(()),
    }
}

/// Writes the response of `proxy` to `sink`: the head in its wire form, then the
/// whole body, copied through a buffer of `CHUNK_SIZE` bytes, then a flush.
/// Returns the head that was written. Where the head cannot be had, nothing is
/// sent; where a read or a send fails, what went out is a prefix of the response.
pub fn response<P: Proxy, S: Sink>(sink: &mut S, proxy: &mut P) -> (r: Result<
    ResponseHead,
    std::io::Error,
>)
    requires
        old(proxy).inv(),
    ensures
        final(proxy).inv(),
        old(proxy).infallible() && old(sink).reliable() ==> r is Ok,
        r is Err ==> old(sink).sent().is_prefix_of(final(sink).sent()) && final(sink).sent().is_prefix_of(
            old(sink).sent() + encode_utf8(
                head_text(HTTP_VERSION@, old(proxy).status(), old(proxy).fields()),
            ) + old(proxy).unread(),
        ),
        match r {
            Ok(h) => {
                &&& h.version@ == HTTP_VERSION@
                &&& h.status == old(proxy).status()
                &&& fields_view(h.headers@) == old(proxy).fields()
                &&& final(sink).sent() == old(sink).sent() + encode_utf8(h.spec_text()) + old(proxy).unread()
                &&& final(proxy).unread().len() == 0
            },
            Err(_) => true,
        },
{
    let ghost s0 = old(sink).sent();
    let ghost u0 = old(proxy).unread();
    let ghost h0 = encode_utf8(head_text(HTTP_VERSION@, old(proxy).status(), old(proxy).fields()));
    let head = match proxy.get_head() {
        Ok(h) => h,
        Err(e) => {
            proof {
                lemma_prefix_extend(s0, Seq::empty(), h0 + u0);
                assert(s0 + Seq::<u8>::empty() =~= s0);
                assert(s0 + (h0 + u0) =~= s0 + h0 + u0);
            }
            return Err(e);
        },
    };
    assert(head.spec_text() == head_text(HTTP_VERSION@, old(proxy).status(), old(proxy).fields()));
    let text = head.serialize();
    match sink.send_bytes(text.as_str().as_bytes()) {
        Ok(()) => {},
        Err(e) => {
            proof {
                let p = sink.sent().skip(s0.len() as int);
                assert(sink.sent().subrange(0, s0.len() as int) =~= s0);
                assert(sink.sent() =~= s0 + p);
                assert(p.is_prefix_of(h0 + u0)) by {
                    assert((s0 + h0).subrange(0, sink.sent().len() as int) =~= sink.sent());
                    assert((h0 + u0).subrange(0, p.len() as int) =~= p);
                }
                lemma_prefix_extend(s0, p, h0 + u0);
                assert(s0 + (h0 + u0) =~= s0 + h0 + u0);
            }
            return Err(e);
        },
    }
    let ghost s1 = sink.sent();
    let mut buf: Vec<u8> = vec![0u8; CHUNK_SIZE];
    match stream_body(sink, proxy, buf.as_mut_slice()) {
        Ok(()) => {},
        Err(e) => {
            proof {
                let p = sink.sent().skip(s1.len() as int);
                assert(sink.sent().subrange(0, s1.len() as int) =~= s1);
                assert(sink.sent() =~= s1 + p);
                assert(p.is_prefix_of(u0)) by {
                    assert((s1 + u0).subrange(0, sink.sent().len() as int) =~= sink.sent());
                    assert(u0.subrange(0, p.len() as int) =~= p);
                }
                lemma_prefix_extend(s0 + h0, p, u0);
                assert(s0.is_prefix_of(sink.sent())) by {
                    assert(sink.sent().subrange(0, s0.len() as int) =~= s0);
                }
            }
            return Err(e);
        },
    }
    match sink.flush_sink() {
        Ok(()) => {},
        Err(e) => {
            proof {
                lemma_prefix_extend(s0 + h0 + u0, Seq::empty(), Seq::empty());
                assert(s0 + h0 + u0 + Seq::<u8>::empty() =~= s0 + h0 + u0);
                assert(s0.is_prefix_of(sink.sent())) by {
                    assert(sink.sent().subrange(0, s0.len() as int) =~= s0);
                }
            }
            return Err(e);
        },
    }
    Ok(head)
}

} // verus!
