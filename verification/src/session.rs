//! One channel pair at work, as a transition system.
//!
//! The two ends of a pair take their steps from
//! [`request_next`](crate::bidirectional_channel::request_next) and
//! [`serve_next`](crate::bidirectional_channel::serve_next). This module puts
//! them together with the two queues between them, each a bounded sequence
//! that is read in the order in which it was written, and with the rule that
//! the pool enforces: one caller at a time runs an exchange, to its end.
//!
//! What is proved of every run: a response is delivered for the request that
//! was submitted last, the results come in the order of the requests, no
//! sender ever waits for room, and an exchange whose worker is gone ends
//! instead of waiting. Of the pairs of a pool, which share nothing: what one
//! does never changes what another can do.

use crate::bidirectional_channel::request_next;
use crate::bidirectional_channel::serve_next;
use crate::bidirectional_channel::ChannelError;
use crate::bidirectional_channel::RequestAction;
use crate::bidirectional_channel::RequestEvent;
use crate::bidirectional_channel::ServeAction;
use crate::bidirectional_channel::ServeEvent;
use vstd::prelude::*;

verus! {

/// The state of one channel pair with its worker and its callers.
pub struct Link<Req, Resp> {
    /// The bound of each queue.
    pub capacity: nat,
    /// What the request queue holds, oldest first.
    pub requests: Seq<Req>,
    /// What the response queue holds, oldest first.
    pub responses: Seq<Resp>,
    /// The next step of the caller that holds the lock; `None` while the lock
    /// is free.
    pub caller: Option<RequestAction<Req, Resp>>,
    /// The next step of the worker's loop.
    pub worker: ServeAction<Req, Resp>,
    /// Whether the pool has dropped the requester's end.
    pub removed: bool,
    /// Whether the worker's execution context has ended, and the responder's
    /// end with it.
    pub gone: bool,
    /// Every request that was submitted, in order.
    pub submitted: Seq<Req>,
    /// The result of every exchange that has ended, in order.
    pub finished: Seq<Result<Resp, ChannelError>>,
}

/// One step of a channel pair.
pub enum Move<Req, Resp> {
    /// A caller takes the lock and hands in a request.
    Submit(Req),
    /// The caller that holds the lock takes its next step; with the last one
    /// it returns its result and releases the lock.
    Caller,
    /// The worker receives, sends or leaves its loop.
    Worker,
    /// The worker's handler answers the request that the worker holds.
    Answer(Resp),
    /// The pool drops the requester's end. It cannot do so while a caller
    /// holds the lock, for that caller borrows the pool.
    Remove,
    /// The worker's execution context ends, as it does after the loop and as
    /// it may at any time by a fault.
    Vanish,
}

impl<Req, Resp> Link<Req, Resp> {
    /// A new pair: empty queues, the lock free, the worker about to receive.
    pub open spec fn new(capacity: nat) -> Self {
        Link {
            capacity,
            requests: Seq::empty(),
            responses: Seq::empty(),
            caller: None,
            worker: serve_next(ServeEvent::Started),
            removed: false,
            gone: false,
            submitted: Seq::empty(),
            finished: Seq::empty(),
        }
    }

    /// Whether `mv` can be taken now. A step that is not enabled waits: a
    /// receiver for an entry, a sender for room. `fits` says which responses
    /// the handler may give to a request.
    pub open spec fn enabled(self, mv: Move<Req, Resp>, fits: spec_fn(Req, Resp) -> bool) -> bool {
        match mv {
            Move::Submit(_) => self.caller is None && !self.removed,
            Move::Caller => match self.caller {
                Some(RequestAction::Send(_)) => self.gone || self.requests.len() < self.capacity,
                Some(RequestAction::Receive) => self.responses.len() > 0 || self.gone,
                Some(RequestAction::Finish(_)) => true,
                None => false,
            },
            Move::Worker => !self.gone && match self.worker {
                ServeAction::Receive => self.requests.len() > 0 || self.removed,
                ServeAction::Handle(_) => false,
                ServeAction::Send(_) => self.removed || self.responses.len() < self.capacity,
                ServeAction::Stop => true,
            },
            Move::Answer(resp) => !self.gone && (self.worker matches ServeAction::Handle(req)
                && fits(req, resp)),
            Move::Remove => self.caller is None && !self.removed,
            Move::Vanish => !self.gone,
        }
    }

    /// The caller's step. Sending fails if the worker is gone; receiving
    /// yields what the queue holds and, from the empty queue of a worker that
    /// is gone, nothing.
    pub open spec fn caller_step(self) -> Self {
        match self.caller {
            Some(RequestAction::Send(req)) => if self.gone {
                Link { caller: Some(request_next(RequestEvent::Sent(false))), ..self }
            } else {
                Link {
                    requests: self.requests.push(req),
                    caller: Some(request_next(RequestEvent::Sent(true))),
                    ..self
                }
            },
            Some(RequestAction::Receive) => if self.responses.len() > 0 {
                Link {
                    responses: self.responses.drop_first(),
                    caller: Some(request_next(RequestEvent::Received(Some(self.responses.first())))),
                    ..self
                }
            } else {
                Link { caller: Some(request_next(RequestEvent::Received(None))), ..self }
            },
            Some(RequestAction::Finish(result)) => Link {
                caller: None,
                finished: self.finished.push(result),
                ..self
            },
            None => self,
        }
    }

    /// The worker's step. Receiving yields what the queue holds and, from the
    /// empty queue of a requester that was dropped, nothing; sending fails if
    /// the requester was dropped; leaving the loop ends the context.
    pub open spec fn worker_step(self) -> Self {
        match self.worker {
            ServeAction::Receive => if self.requests.len() > 0 {
                Link {
                    requests: self.requests.drop_first(),
                    worker: serve_next(ServeEvent::Received(Some(self.requests.first()))),
                    ..self
                }
            } else {
                Link { worker: serve_next(ServeEvent::Received(None)), ..self }
            },
            ServeAction::Handle(_) => self,
            ServeAction::Send(resp) => if self.removed {
                Link { worker: serve_next(ServeEvent::Sent(false)), ..self }
            } else {
                Link {
                    responses: self.responses.push(resp),
                    worker: serve_next(ServeEvent::Sent(true)),
                    ..self
                }
            },
            ServeAction::Stop => self.vanish(),
        }
    }

    /// The end of the worker's context: the responder's end is dropped, and
    /// what the request queue held is lost.
    pub open spec fn vanish(self) -> Self {
        Link { gone: true, requests: Seq::empty(), ..self }
    }

    /// The state after `mv`.
    pub open spec fn step(self, mv: Move<Req, Resp>) -> Self {
        match mv {
            Move::Submit(req) => Link {
                caller: Some(request_next(RequestEvent::Submitted(req))),
                submitted: self.submitted.push(req),
                ..self
            },
            Move::Caller => self.caller_step(),
            Move::Worker => self.worker_step(),
            Move::Answer(resp) => Link { worker: serve_next(ServeEvent::Handled(resp)), ..self },
            Move::Remove => Link { removed: true, responses: Seq::empty(), ..self },
            Move::Vanish => self.vanish(),
        }
    }

    /// Whether every move of `moves` is enabled when its turn comes.
    pub open spec fn admits(self, moves: Seq<Move<Req, Resp>>, fits: spec_fn(Req, Resp) -> bool) -> bool
        decreases moves.len(),
    {
        moves.len() == 0 || (self.admits(moves.drop_last(), fits) && self.run(
            moves.drop_last(),
        ).enabled(moves.last(), fits))
    }

    /// The state after `moves`, taken in order.
    pub open spec fn run(self, moves: Seq<Move<Req, Resp>>) -> Self
        decreases moves.len(),
    {
        if moves.len() == 0 {
            self
        } else {
            self.run(moves.drop_last()).step(moves.last())
        }
    }

    /// Whether the worker holds neither a request nor a response.
    pub open spec fn worker_idle(self) -> bool {
        self.worker is Receive || self.worker is Stop
    }

    /// Whether nothing is under way between the two ends.
    pub open spec fn quiet(self) -> bool {
        self.requests.len() == 0 && self.responses.len() == 0 && (self.gone || self.worker_idle())
    }

    /// Where the one request that is under way stands, with the response once
    /// there is one: in the request queue, with the handler, with the worker
    /// as a response that fits it, or in the response queue as one.
    pub open spec fn under_way(self, req: Req, fits: spec_fn(Req, Resp) -> bool) -> bool {
        ||| !self.gone && self.requests == seq![req] && self.responses.len() == 0
            && self.worker is Receive
        ||| !self.gone && self.requests.len() == 0 && self.responses.len() == 0 && self.worker
            == ServeAction::<Req, Resp>::Handle(req)
        ||| !self.gone && self.requests.len() == 0 && self.responses.len() == 0 && (
        self.worker matches ServeAction::Send(resp) && fits(req, resp))
        ||| self.requests.len() == 0 && self.responses.len() == 1 && fits(req, self.responses[0])
            && (self.gone || self.worker is Receive)
        ||| self.gone && self.requests.len() == 0 && self.responses.len() == 0
    }

    /// What holds of every state that a new pair can reach.
    ///
    /// Each exchange that has ended has its result, and the one that has not
    /// is the last request. A result that is a response fits its request; one
    /// that is an error means that the worker is gone. Between the two ends
    /// there is at most the one request under way, or its response.
    pub open spec fn inv(self, fits: spec_fn(Req, Resp) -> bool) -> bool {
        &&& self.capacity >= 1
        &&& self.finished.len() + (if self.caller is Some { 1nat } else { 0nat })
            == self.submitted.len()
        &&& forall|k: int|
            0 <= k < self.finished.len() ==> match #[trigger] self.finished[k] {
                Ok(resp) => fits(self.submitted[k], resp),
                Err(_) => self.gone,
            }
        &&& self.removed ==> self.caller is None
        &&& self.worker is Stop ==> self.removed
        &&& match self.caller {
            None => self.quiet(),
            Some(RequestAction::Send(req)) => req == self.submitted.last() && self.quiet(),
            Some(RequestAction::Receive) => self.under_way(self.submitted.last(), fits),
            Some(RequestAction::Finish(Ok(resp))) => fits(self.submitted.last(), resp)
                && self.quiet(),
            Some(RequestAction::Finish(Err(_))) => self.gone && self.quiet(),
        }
    }

    /// The invariant holds of a new pair.
    pub proof fn lemma_new_inv(capacity: nat, fits: spec_fn(Req, Resp) -> bool)
        requires
            capacity >= 1,
        ensures
            Self::new(capacity).inv(fits),
    {
    }

    /// Every enabled move keeps the invariant.
    pub proof fn lemma_step_inv(self, mv: Move<Req, Resp>, fits: spec_fn(Req, Resp) -> bool)
        requires
            self.inv(fits),
            self.enabled(mv, fits),
        ensures
            self.step(mv).inv(fits),
    {
        let after = self.step(mv);
        assert forall|k: int| 0 <= k < after.finished.len() implies match #[trigger] after.finished[k] {
            Ok(resp) => fits(after.submitted[k], resp),
            Err(_) => after.gone,
        } by {}
        if mv is Caller && !self.gone {
            if let Some(RequestAction::Send(req)) = self.caller {
                assert(after.requests =~= seq![req]);
            }
        }
    }

    /// The invariant holds after every run of a new pair.
    pub proof fn lemma_run_inv(
        capacity: nat,
        moves: Seq<Move<Req, Resp>>,
        fits: spec_fn(Req, Resp) -> bool,
    )
        requires
            capacity >= 1,
            Self::new(capacity).admits(moves, fits),
        ensures
            Self::new(capacity).run(moves).inv(fits),
        decreases moves.len(),
    {
        if moves.len() == 0 {
            Self::lemma_new_inv(capacity, fits);
        } else {
            Self::lemma_run_inv(capacity, moves.drop_last(), fits);
            Self::new(capacity).run(moves.drop_last()).lemma_step_inv(moves.last(), fits);
        }
    }

    /// Ordering: after every run of a new pair, the results are those of the
    /// first requests, one for one and in their order, and each response
    /// among them fits the request in its place. A request is submitted only
    /// when every earlier one has its result, so the result of an earlier
    /// request is delivered before that of a later one.
    pub proof fn lemma_results_follow_requests(
        capacity: nat,
        moves: Seq<Move<Req, Resp>>,
        fits: spec_fn(Req, Resp) -> bool,
    )
        requires
            capacity >= 1,
            Self::new(capacity).admits(moves, fits),
        ensures
            ({
                let end = Self::new(capacity).run(moves);
                &&& end.finished.len() <= end.submitted.len() <= end.finished.len() + 1
                &&& end.caller is None ==> end.finished.len() == end.submitted.len()
                &&& forall|k: int|
                    0 <= k < end.finished.len() ==> (#[trigger] end.finished[k] matches Ok(resp)
                        ==> fits(end.submitted[k], resp))
            }),
    {
        Self::lemma_run_inv(capacity, moves, fits);
    }

    /// Single flight: in every state that a new pair can reach, the two
    /// queues hold at most one entry between them, so a sender finds room
    /// whenever it is its turn.
    pub proof fn lemma_senders_never_wait(self, fits: spec_fn(Req, Resp) -> bool)
        requires
            self.inv(fits),
        ensures
            self.requests.len() + self.responses.len() <= 1,
            self.caller matches Some(RequestAction::Send(_)) ==> self.enabled(Move::Caller, fits),
            !self.gone && self.worker is Send ==> self.enabled(Move::Worker, fits),
    {
    }

    /// Closed channel: once the worker is gone, the caller that holds the
    /// lock never waits. Each of its steps is enabled, and after at most two
    /// of them it has returned: with the response if the worker had sent it,
    /// with the result it was about to return, or else with an error.
    pub proof fn lemma_exchange_ends_without_worker(self, fits: spec_fn(Req, Resp) -> bool)
        requires
            self.inv(fits),
            self.gone,
            self.caller is Some,
        ensures
            ({
                let moves = if self.caller.unwrap() is Finish {
                    seq![Move::<Req, Resp>::Caller]
                } else {
                    seq![Move::<Req, Resp>::Caller, Move::Caller]
                };
                let ended = self.run(moves);
                &&& self.admits(moves, fits)
                &&& ended.caller is None
                &&& ended.finished == self.finished.push(ended.finished.last())
                &&& match self.caller.unwrap() {
                    RequestAction::Send(_) => ended.finished.last() is Err,
                    RequestAction::Receive => if self.responses.len() > 0 {
                        ended.finished.last() == Ok::<Resp, ChannelError>(self.responses[0])
                    } else {
                        ended.finished.last() is Err
                    },
                    RequestAction::Finish(result) => ended.finished.last() == result,
                }
            }),
    {
        let c = Move::<Req, Resp>::Caller;
        let m1 = seq![c];
        let m2 = seq![c, c];
        assert(m1.drop_last() =~= Seq::empty());
        assert(m2.drop_last() =~= m1);
        assert(self.run(Seq::empty()) == self);
        assert(self.admits(Seq::empty(), fits));
        assert(self.admits(m1, fits));
    }
}

/// The channel pairs of a pool, each under the identifier of its maker.
pub struct Links<Req, Resp> {
    pub pairs: Map<Seq<char>, Link<Req, Resp>>,
}

impl<Req, Resp> Links<Req, Resp> {
    /// Whether the pair of `id` can take `mv` now. Nothing but that pair is
    /// asked: a caller takes the lock of the one maker, and no lock of the
    /// pool is held while it waits.
    pub open spec fn enabled(
        self,
        id: Seq<char>,
        mv: Move<Req, Resp>,
        fits: spec_fn(Req, Resp) -> bool,
    ) -> bool {
        self.pairs.contains_key(id) && self.pairs[id].enabled(mv, fits)
    }

    /// The pairs after the pair of `id` took `mv`.
    pub open spec fn step(self, id: Seq<char>, mv: Move<Req, Resp>) -> Self {
        Links { pairs: self.pairs.insert(id, self.pairs[id].step(mv)) }
    }

    /// The pairs after the pair of `id` took `moves`, in order.
    pub open spec fn run(self, id: Seq<char>, moves: Seq<Move<Req, Resp>>) -> Self
        decreases moves.len(),
    {
        if moves.len() == 0 {
            self
        } else {
            self.run(id, moves.drop_last()).step(id, moves.last())
        }
    }

    /// Isolation: whatever the pair of one maker does, and however long its
    /// handler takes, the pair of another maker is as it was. Every step that
    /// the other could take it can still take, with the same outcome.
    pub proof fn lemma_pairs_do_not_meet(
        self,
        id: Seq<char>,
        moves: Seq<Move<Req, Resp>>,
        other: Seq<char>,
        mv: Move<Req, Resp>,
        fits: spec_fn(Req, Resp) -> bool,
    )
        requires
            self.pairs.contains_key(id),
            self.pairs.contains_key(other),
            other != id,
        ensures
            self.run(id, moves).pairs.contains_key(id),
            self.run(id, moves).pairs[other] == self.pairs[other],
            self.run(id, moves).enabled(other, mv, fits) == self.enabled(other, mv, fits),
            self.run(id, moves).step(other, mv).pairs[other] == self.step(other, mv).pairs[other],
        decreases moves.len(),
    {
        if moves.len() > 0 {
            self.lemma_pairs_do_not_meet(id, moves.drop_last(), other, mv, fits);
        }
    }
}

} // verus!
