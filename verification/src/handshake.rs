//! The handshake as a state machine. It holds the bytes of the request that
//! are still to be sent and the bytes of the response received so far; each
//! step takes what one round on the transport brought and answers whether
//! the handshake is complete, waits, or has failed.

use crate::authorizer::Authorizer;
use crate::encoder::{encoder, Request};
use crate::error::Error;
use crate::parse::{
    head_view, parse_two_tier, parse_within, verdict, Parsed, ParsedView, ResponseView,
    MAX_HEADERS,
};
use vstd::prelude::*;

verus! {

/// The answer of one step: the value, or that there is none yet.
#[derive(Debug, PartialEq, Eq)]
pub enum Async<T> {
    /// The handshake is complete, with this value.
    Ready(T),
    /// The handshake waits for the transport: for room to send, or for bytes
    /// of the response.
    NotReady,
}

/// Where a handshake stands.
#[derive(Debug, Clone, Copy, PartialEq, Eq, Structural)]
pub enum State {
    /// Bytes of the request are still to be sent.
    WritingRequest,
    /// The request is sent; the head of the response is not complete.
    AwaitingHeaders,
    /// The handshake is complete, and both buffers were handed out.
    Complete,
    /// The handshake failed.
    Failed,
}

/// What one round on the transport brought: how many bytes of the output it
/// took, the bytes it delivered, and whether the peer has closed the
/// connection.
#[derive(Debug, Clone, Copy)]
pub struct Transfer<'a> {
    /// The number of bytes at the front of the output that were written.
    pub sent: usize,
    /// The bytes that were read, in their order; empty where none came.
    pub received: &'a [u8],
    /// The peer has closed the connection.
    pub closed: bool,
}

/// The client's side of one opening handshake.
pub struct HandshakeProto<A> {
    input: Option<Vec<u8>>,
    output: Option<Vec<u8>>,
    authorizer: A,
    max_headers: u16,
    failed: bool,
}

/// What a handshake hands out when it is complete: the bytes of the output
/// that are not sent yet, the bytes received behind the head of the response,
/// and the authorizer's result.
pub type Upgrade<T> = (Vec<u8>, Vec<u8>, T);

impl<A: Authorizer> HandshakeProto<A> {
    /// The bytes received and not yet consumed; `None` once they are handed
    /// out or dropped.
    pub closed spec fn input(&self) -> Option<Seq<u8>> {
        match self.input {
            Some(input) => Some(input@),
            None => None,
        }
    }

    /// The bytes of the request that are still to be sent; `None` once they
    /// are handed out or dropped.
    pub closed spec fn output(&self) -> Option<Seq<u8>> {
        match self.output {
            Some(output) => Some(output@),
            None => None,
        }
    }

    /// The authorizer.
    pub closed spec fn authorizer(&self) -> A {
        self.authorizer
    }

    /// The largest number of headers that the response may have.
    pub closed spec fn spec_max_headers(&self) -> u16 {
        self.max_headers
    }

    /// The handshake has failed.
    pub closed spec fn has_failed(&self) -> bool {
        self.failed
    }

    /// Both buffers are there or neither is; after a failure neither is.
    pub open spec fn wf(&self) -> bool {
        &&& self.input() is Some <==> self.output() is Some
        &&& self.has_failed() ==> self.input() is None
    }

    /// Where the handshake stands.
    pub open spec fn spec_state(&self) -> State {
        if self.has_failed() {
            State::Failed
        } else {
            match self.output() {
                None => State::Complete,
                Some(output) => if output.len() > 0 {
                    State::WritingRequest
                } else {
                    State::AwaitingHeaders
                },
            }
        }
    }

    /// The handshake can take another step: it is neither complete nor
    /// failed.
    pub open spec fn is_active(&self) -> bool {
        self.wf() && self.input() is Some
    }

    /// A handshake for `authorizer`, with the usual limit on the number of
    /// headers. The authorizer writes the request at once, into an empty
    /// buffer; nothing is sent before the first step.
    pub fn new(authorizer: A) -> (proto: HandshakeProto<A>)
        requires
            authorizer.ready(),
        ensures
            proto.is_active(),
            !proto.has_failed(),
            proto.input() == Some(Seq::<u8>::empty()),
            proto.max_headers() == MAX_HEADERS,
            exists|request: Request|
                {
                    &&& request.wf()
                    &&& proto.output() == Some(request.bytes())
                    &&& #[trigger] A::wrote(authorizer, request, proto.authorizer())
                },
    {
        HandshakeProto::with_max_headers(authorizer, MAX_HEADERS)
    }

    /// A handshake for `authorizer` that fails on a response with more than
    /// `max_headers` headers.
    pub fn with_max_headers(authorizer: A, max_headers: u16) -> (proto: HandshakeProto<A>)
        requires
            authorizer.ready(),
        ensures
            proto.is_active(),
            !proto.has_failed(),
            proto.input() == Some(Seq::<u8>::empty()),
            proto.max_headers() == max_headers,
            exists|request: Request|
                {
                    &&& request.wf()
                    &&& proto.output() == Some(request.bytes())
                    &&& #[trigger] A::wrote(authorizer, request, proto.authorizer())
                },
    {
        let mut authorizer = authorizer;
        let ghost before = authorizer;
        let done = authorizer.write_headers(encoder(Vec::new()));
        let ghost request = done.request();
        let out = done.into_bytes();
        let proto = HandshakeProto {
            authorizer,
            input: Some(Vec::new()),
            output: Some(out),
            max_headers,
            failed: false,
        };
        proof {
            assert(out@ =~= request.bytes());
            assert(A::wrote(before, request, proto.authorizer()));
        }
        proto
    }

    /// Where the handshake stands.
    #[verifier::when_used_as_spec(spec_state)]
    pub fn state(&self) -> (state: State)
        ensures
            state == self.spec_state(),
    {
        if self.failed {
            State::Failed
        } else {
            match &self.output {
                None => State::Complete,
                Some(output) => if output.len() > 0 {
                    State::WritingRequest
                } else {
                    State::AwaitingHeaders
                },
            }
        }
    }

    /// The largest number of headers that the response may have.
    #[verifier::when_used_as_spec(spec_max_headers)]
    pub fn max_headers(&self) -> (limit: u16)
        ensures
            limit == self.spec_max_headers(),
    {
        self.max_headers
    }

    /// The bytes of the request that the transport has still to take; `None`
    /// once the handshake is complete or has failed.
    pub fn pending_output(&self) -> (bytes: Option<&[u8]>)
        ensures
            bytes is Some <==> self.output() is Some,
            bytes matches Some(b) ==> self.output() == Some(b@),
    {
        match &self.output {
            Some(output) => Some(output.as_slice()),
            None => None,
        }
    }

    /// The bytes received and not yet consumed; `None` once the handshake is
    /// complete or has failed.
    pub fn received(&self) -> (bytes: Option<&[u8]>)
        ensures
            bytes is Some <==> self.input() is Some,
            bytes matches Some(b) ==> self.input() == Some(b@),
    {
        match &self.input {
            Some(input) => Some(input.as_slice()),
            None => None,
        }
    }

    /// What `settle` does with the authorizer's answer: after `Ok` the head
    /// of the response is consumed and the result handed on; after `Err`
    /// the input stays and the error is the handshake's.
    pub open spec fn settled(
        pre: Self,
        consumed: nat,
        answer: Result<A::Result, Error>,
        post: Self,
        r: Result<Option<A::Result>, Error>,
    ) -> bool {
        match answer {
            Ok(x) => r == Ok::<Option<A::Result>, Error>(Some(x)) && post.input() == Some(
                pre.input()->0.skip(consumed as int),
            ),
            Err(e) => r == Err::<Option<A::Result>, Error>(e) && post.input() == pre.input(),
        }
    }

    /// Acts on the authorizer's answer to a response that takes `consumed`
    /// bytes of the input.
    pub fn settle(&mut self, consumed: usize, answer: Result<A::Result, Error>) -> (r: Result<
        Option<A::Result>,
        Error,
    >)
        requires
            old(self).is_active(),
            consumed <= old(self).input()->0.len(),
        ensures
            final(self).is_active(),
            final(self).output() == old(self).output(),
            final(self).authorizer() == old(self).authorizer(),
            final(self).max_headers() == old(self).max_headers(),
            final(self).has_failed() == old(self).has_failed(),
            Self::settled(*old(self), consumed as nat, answer, *final(self), r),
    {
        match answer {
            Ok(x) => {
                let mut input = self.input.take().unwrap();
                let rest = input.split_off(consumed);
                assert(rest@ =~= old(self).input()->0.skip(consumed as int));
                self.input = Some(rest);
                Ok(Some(x))
            },
            Err(e) => Err(e),
        }
    }

    /// What `parse_headers_at` does. The bytes received are parsed; what the
    /// parser found and whether the peer has closed decide alone on a failure
    /// and on waiting, as `outlook` says. A response to act on has no more
    /// headers than the limit; it is shown to the authorizer, whose answer
    /// decides the rest.
    pub open spec fn parsed_headers(
        pre: Self,
        closed: bool,
        post: Self,
        r: Result<Option<A::Result>, Error>,
    ) -> bool {
        match outlook(parse_within(pre.input()->0, pre.max_headers()), closed) {
            Err(e) => {
                &&& r == Err::<Option<A::Result>, Error>(e)
                &&& post.input() == pre.input()
                &&& post.authorizer() == pre.authorizer()
            },
            Ok(None) => {
                &&& r == Ok::<Option<A::Result>, Error>(None)
                &&& post.input() == pre.input()
                &&& post.authorizer() == pre.authorizer()
            },
            Ok(Some(response)) => {
                &&& response.headers.len() <= pre.max_headers()
                &&& response.consumed <= pre.input()->0.len()
                &&& match r {
                    Ok(Some(x)) => {
                        &&& A::answered(
                            pre.authorizer(),
                            head_view(response),
                            post.authorizer(),
                            Ok(x),
                        )
                        &&& post.input() == Some(pre.input()->0.skip(response.consumed as int))
                    },
                    Err(e) => {
                        &&& A::answered(
                            pre.authorizer(),
                            head_view(response),
                            post.authorizer(),
                            Err(e),
                        )
                        &&& post.input() == pre.input()
                    },
                    Ok(None) => false,
                }
            },
        }
    }

    /// Looks for the head of the response in the bytes received, while the
    /// connection is open. Where the head is complete, it is shown to the
    /// authorizer, and where the authorizer accepts it, its bytes are
    /// consumed: what was received behind it stays.
    pub fn parse_headers(&mut self) -> (r: Result<Option<A::Result>, Error>)
        requires
            old(self).is_active(),
        ensures
            final(self).is_active(),
            final(self).output() == old(self).output(),
            final(self).max_headers() == old(self).max_headers(),
            final(self).has_failed() == old(self).has_failed(),
            Self::parsed_headers(*old(self), false, *final(self), r),
    {
        self.parse_headers_at(false)
    }

    /// Looks for the head of the response in the bytes received, knowing
    /// whether the peer has closed the connection. A complete head counts
    /// whether the peer has closed or not; without one, a closed connection
    /// is a failure, since the missing bytes will not come.
    pub fn parse_headers_at(&mut self, closed: bool) -> (r: Result<Option<A::Result>, Error>)
        requires
            old(self).is_active(),
        ensures
            final(self).is_active(),
            final(self).output() == old(self).output(),
            final(self).max_headers() == old(self).max_headers(),
            final(self).has_failed() == old(self).has_failed(),
            Self::parsed_headers(*old(self), closed, *final(self), r),
    {
        let buf = self.input.as_ref().unwrap().as_slice();
        let parsed = parse_two_tier(buf, self.max_headers);
        if closed && !matches!(parsed, Parsed::Complete(_)) {
            return Err(Error::PrematureResponseHeaders);
        }
        match parsed.accept() {
            Err(e) => Err(Error::ParseError(e)),
            Ok(None) => Ok(None),
            Ok(Some(response)) => {
                let consumed: usize = response.consumed;
                let head = response.head().unwrap();
                let answer = self.authorizer.headers_received(&head);
                self.settle(consumed, answer)
            },
        }
    }

    /// Ends the handshake in failure: both buffers are dropped.
    fn fail(&mut self)
        ensures
            final(self).wf(),
            final(self).has_failed(),
            final(self).input() is None,
            final(self).authorizer() == old(self).authorizer(),
            final(self).max_headers() == old(self).max_headers(),
    {
        self.input = None;
        self.output = None;
        self.failed = true;
    }

    /// What one step does.
    ///
    /// An error of the transport fails the handshake, with that error. Else
    /// the bytes sent leave the output and the bytes received join the input,
    /// and the input is parsed as in `parse_headers_at`. A complete head is
    /// acted on, whether the peer has closed the connection or not: an
    /// accepted response completes the handshake, which hands out the rest of
    /// the output and the input behind the head. Without a complete head, a
    /// closed connection fails the handshake; on an open one, malformed bytes
    /// and too many headers fail it, and an incomplete head means waiting.
    /// Every failure is final.
    pub open spec fn polled(
        pre: Self,
        io: Result<Transfer, std::io::Error>,
        post: Self,
        r: Result<Async<Upgrade<A::Result>>, Error>,
    ) -> bool {
        match io {
            Err(e) => {
                &&& r == Err::<Async<Upgrade<A::Result>>, Error>(Error::Io(e))
                &&& post.has_failed()
                &&& post.authorizer() == pre.authorizer()
            },
            Ok(transfer) => {
                let input = pre.input()->0 + transfer.received@;
                let output = pre.output()->0.skip(transfer.sent as int);
                match outlook(parse_within(input, pre.max_headers()), transfer.closed) {
                    Err(e) => {
                        &&& r == Err::<Async<Upgrade<A::Result>>, Error>(e)
                        &&& post.has_failed()
                        &&& post.authorizer() == pre.authorizer()
                    },
                    Ok(None) => {
                        &&& r == Ok::<Async<Upgrade<A::Result>>, Error>(Async::NotReady)
                        &&& !post.has_failed()
                        &&& post.input() == Some(input)
                        &&& post.output() == Some(output)
                        &&& post.authorizer() == pre.authorizer()
                    },
                    Ok(Some(response)) => {
                        &&& response.headers.len() <= pre.max_headers()
                        &&& response.consumed <= input.len()
                        &&& match r {
                            Ok(Async::Ready((out, rest, x))) => {
                                &&& A::answered(
                                    pre.authorizer(),
                                    head_view(response),
                                    post.authorizer(),
                                    Ok(x),
                                )
                                &&& out@ == output
                                &&& rest@ == input.skip(response.consumed as int)
                                &&& !post.has_failed()
                                &&& post.input() is None
                            },
                            Err(e) => {
                                &&& A::answered(
                                    pre.authorizer(),
                                    head_view(response),
                                    post.authorizer(),
                                    Err(e),
                                )
                                &&& post.has_failed()
                            },
                            Ok(Async::NotReady) => false,
                        }
                    },
                }
            },
        }
    }

    /// A complete handshake loses no byte: the bytes received are those of
    /// the head, which the handshake consumed, and then those that it hands
    /// out, unchanged.
    pub proof fn lemma_remainder_preserved(
        pre: Self,
        transfer: Transfer,
        post: Self,
        out: Vec<u8>,
        rest: Vec<u8>,
        x: A::Result,
    )
        requires
            Self::polled(pre, Ok(transfer), post, Ok(Async::Ready((out, rest, x)))),
        ensures
            outlook(
                parse_within(pre.input()->0 + transfer.received@, pre.max_headers()),
                transfer.closed,
            ) matches Ok(Some(response)) && pre.input()->0 + transfer.received@ == (pre.input()->0
                + transfer.received@).take(response.consumed as int) + rest@,
    {
        let input = pre.input()->0 + transfer.received@;
        let response = outlook(parse_within(input, pre.max_headers()), transfer.closed)->Ok_0->0;
        assert(input =~= input.take(response.consumed as int) + input.skip(
            response.consumed as int,
        ));
    }

    /// Where a step leaves the handshake: failed after an error, complete
    /// after a result, and able to go on, with the connection open, where it
    /// has to wait. A closed connection never leaves it waiting.
    pub proof fn lemma_state_after_poll(
        pre: Self,
        io: Result<Transfer, std::io::Error>,
        post: Self,
        r: Result<Async<Upgrade<A::Result>>, Error>,
    )
        requires
            post.wf(),
            Self::polled(pre, io, post, r),
        ensures
            r is Err ==> post.spec_state() is Failed,
            r matches Ok(Async::Ready(_)) ==> post.spec_state() is Complete,
            r matches Ok(Async::NotReady) ==> post.is_active() && (io matches Ok(transfer)
                && !transfer.closed),
    {
    }

    /// Takes one step with what the transport brought.
    ///
    /// A handshake that is complete or has failed takes no further step.
    pub fn poll(&mut self, io: Result<Transfer, std::io::Error>) -> (r: Result<
        Async<Upgrade<A::Result>>,
        Error,
    >)
        requires
            old(self).is_active(),
            io matches Ok(transfer) ==> transfer.sent <= old(self).output()->0.len(),
        ensures
            final(self).wf(),
            final(self).max_headers() == old(self).max_headers(),
            Self::polled(*old(self), io, *final(self), r),
    {
        let transfer = match io {
            Ok(transfer) => transfer,
            Err(e) => {
                self.fail();
                return Err(Error::Io(e));
            },
        };
        let mut output = self.output.take().unwrap();
        let unsent = output.split_off(transfer.sent);
        assert(unsent@ =~= old(self).output()->0.skip(transfer.sent as int));
        self.output = Some(unsent);
        let mut input = self.input.take().unwrap();
        input.extend_from_slice(transfer.received);
        self.input = Some(input);
        assert(self.input() == Some(old(self).input()->0 + transfer.received@));
        assert(self.output() == Some(old(self).output()->0.skip(transfer.sent as int)));
        match self.parse_headers_at(transfer.closed) {
            Ok(Some(x)) => {
                let rest = self.input.take().unwrap();
                let out = self.output.take().unwrap();
                Ok(Async::Ready((out, rest, x)))
            },
            Ok(None) => Ok(Async::NotReady),
            Err(e) => {
                self.fail();
                Err(e)
            },
        }
    }
}

/// What the bytes received mean for a step, given what the parser found in
/// them and whether the peer has closed the connection: a response to act on,
/// nothing yet, or a failure. A complete response is judged as on an open
/// connection. Without one, a closed connection is premature; an open one
/// waits for more bytes or fails on what the parser refused.
pub open spec fn outlook(parsed: ParsedView, closed: bool) -> Result<Option<ResponseView>, Error> {
    if closed && !(parsed is Complete) {
        Err(Error::PrematureResponseHeaders)
    } else {
        match verdict(parsed) {
            Ok(found) => Ok(found),
            Err(e) => Err(Error::ParseError(e)),
        }
    }
}

/// The peer's closing the connection fails a step with
/// `PrematureResponseHeaders` exactly where the bytes received hold no
/// complete head: with a complete head the step goes on as on an open
/// connection, and on an open connection this error never comes from the
/// parser.
pub proof fn lemma_closure_and_complete_head(parsed: ParsedView, closed: bool)
    ensures
        parsed is Complete ==> outlook(parsed, closed) == outlook(parsed, false),
        closed && !(parsed is Complete) ==> outlook(parsed, closed) == Err::<
            Option<ResponseView>,
            Error,
        >(Error::PrematureResponseHeaders),
        !closed ==> !(outlook(parsed, closed) matches Err(Error::PrematureResponseHeaders)),
{
}

} // verus!
