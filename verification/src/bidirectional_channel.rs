//! A channel pair: two bounded queues, one that carries requests to a worker
//! and one that carries its responses back.
//!
//! [`channel`] creates the pair and hands out its two ends. Waiting on a queue
//! is left to the caller, who owns the scheduler. What this module decides is
//! what each end does next once a queue operation has finished: see
//! [`Requester::request`] and [`Responder::handle`].
//!
//! A response carries no tag. It belongs to the request that went before it,
//! so at most one request may be under way on a pair at any time. The pair
//! does not enforce this; the owner of the requester's end does, by letting
//! one caller at a time run an exchange.

use vstd::prelude::*;

verus! {

/// `tokio::sync::mpsc::Sender`, the sending half of a bounded queue. The
/// library carries it and never looks into it.
#[verifier::external_type_specification]
#[verifier::external_body]
#[verifier::reject_recursive_types(T)]
pub struct ExSender<T>(tokio::sync::mpsc::Sender<T>);

/// `tokio::sync::mpsc::Receiver`, the receiving half of a bounded queue. The
/// library carries it and never looks into it.
#[verifier::external_type_specification]
#[verifier::external_body]
#[verifier::reject_recursive_types(T)]
pub struct ExReceiver<T>(tokio::sync::mpsc::Receiver<T>);

/// The largest bound that a queue can be created with: the most permits that
/// Tokio's semaphore can hold, which is `usize::MAX >> 3`.
pub const MAX_CAPACITY: usize = usize::MAX / 8;

/// Calls `tokio::sync::mpsc::channel`. That function panics on a bound of zero
/// and on one above the limit of its semaphore; the precondition leaves both
/// out. Nothing is claimed of the two halves it returns.
#[verifier::external_body]
fn bounded_queue<T>(buffer: usize) -> (ends: (
    tokio::sync::mpsc::Sender<T>,
    tokio::sync::mpsc::Receiver<T>,
))
    requires
        0 < buffer <= MAX_CAPACITY,
{
    tokio::sync::mpsc::channel(buffer)
}

/// Why an exchange ended without a response.
#[derive(Debug, Clone, Copy, PartialEq, Eq)]
pub enum ChannelError {
    /// The request queue was closed: the worker is gone.
    RequestChannelClosed,
    /// The response queue was closed before a response arrived.
    ResponseChannelClosed,
}

impl ChannelError {
    /// The error in words.
    pub open spec fn text(self) -> Seq<char> {
        match self {
            ChannelError::RequestChannelClosed => "Request channel closed"@,
            ChannelError::ResponseChannelClosed => "Response channel closed"@,
        }
    }

    /// The error in words.
    pub fn message(&self) -> (text: String)
        ensures
            text@ == self.text(),
    {
        match self {
            ChannelError::RequestChannelClosed => String::from_str("Request channel closed"),
            ChannelError::ResponseChannelClosed => String::from_str("Response channel closed"),
        }
    }
}

/// The end of a channel pair that submits requests and awaits responses.
#[verifier::reject_recursive_types(Req)]
#[verifier::reject_recursive_types(Resp)]
pub struct Requester<Req, Resp> {
    /// The sending half of the request queue.
    pub request_send: tokio::sync::mpsc::Sender<Req>,
    /// The receiving half of the response queue.
    pub response_recv: tokio::sync::mpsc::Receiver<Resp>,
    /// The bound that both queues were created with.
    pub capacity: usize,
}

/// The end of a channel pair that receives requests and replies to them.
#[verifier::reject_recursive_types(Req)]
#[verifier::reject_recursive_types(Resp)]
pub struct Responder<Req, Resp> {
    /// The receiving half of the request queue.
    pub request_recv: tokio::sync::mpsc::Receiver<Req>,
    /// The sending half of the response queue.
    pub response_send: tokio::sync::mpsc::Sender<Resp>,
    /// The bound that both queues were created with.
    pub capacity: usize,
}

/// What has just happened at the requester's end.
pub enum RequestEvent<Req, Resp> {
    /// A caller handed in a request.
    Submitted(Req),
    /// Sending on the request queue finished: `true` if the queue took the
    /// request, `false` if the queue is closed.
    Sent(bool),
    /// Receiving on the response queue finished, with a response or, from a
    /// queue that is closed and empty, with none.
    Received(Option<Resp>),
}

/// What the requester's end does next.
pub enum RequestAction<Req, Resp> {
    /// Put the request on the request queue, waiting while the queue is full.
    Send(Req),
    /// Take the next response from the response queue, waiting while it is
    /// empty.
    Receive,
    /// The exchange is over, with this result for the caller.
    Finish(Result<Resp, ChannelError>),
}

/// What has just happened at the responder's end.
pub enum ServeEvent<Req, Resp> {
    /// The loop was started.
    Started,
    /// Receiving on the request queue finished, with a request or, from a
    /// queue that is closed and empty, with none.
    Received(Option<Req>),
    /// The handler answered the request.
    Handled(Resp),
    /// Sending on the response queue finished: `true` if the queue took the
    /// response, `false` if the queue is closed.
    Sent(bool),
}

/// What the responder's end does next.
pub enum ServeAction<Req, Resp> {
    /// Take the next request from the request queue, waiting while it is
    /// empty.
    Receive,
    /// Hand the request to the handler.
    Handle(Req),
    /// Put the response on the response queue, waiting while the queue is
    /// full.
    Send(Resp),
    /// Leave the loop.
    Stop,
}

/// What sending a request yields, given whether the queue took it.
pub open spec fn send_result(accepted: bool) -> Result<(), ChannelError> {
    if accepted {
        Ok(())
    } else {
        Err(ChannelError::RequestChannelClosed)
    }
}

/// What receiving a response yields, given what the queue gave.
pub open spec fn recv_result<Resp>(received: Option<Resp>) -> Result<Resp, ChannelError> {
    match received {
        Some(resp) => Ok(resp),
        None => Err(ChannelError::ResponseChannelClosed),
    }
}

/// The step of an exchange that follows `event`: a submitted request is sent;
/// once it is sent, the response is awaited; a closed queue on either side
/// ends the exchange with the error of that side, and a response ends it with
/// success.
pub open spec fn request_next<Req, Resp>(event: RequestEvent<Req, Resp>) -> RequestAction<
    Req,
    Resp,
> {
    match event {
        RequestEvent::Submitted(req) => RequestAction::Send(req),
        RequestEvent::Sent(accepted) => match send_result(accepted) {
            Ok(_) => RequestAction::Receive,
            Err(e) => RequestAction::Finish(Err(e)),
        },
        RequestEvent::Received(received) => RequestAction::Finish(recv_result(received)),
    }
}

/// The step of a worker's loop that follows `event`: it receives a request,
/// hands it to the handler, sends the response and receives again. Only a
/// closed queue ends it: the request queue on receiving, or the response
/// queue on sending.
pub open spec fn serve_next<Req, Resp>(event: ServeEvent<Req, Resp>) -> ServeAction<Req, Resp> {
    match event {
        ServeEvent::Started => ServeAction::Receive,
        ServeEvent::Received(Some(req)) => ServeAction::Handle(req),
        ServeEvent::Received(None) => ServeAction::Stop,
        ServeEvent::Handled(resp) => ServeAction::Send(resp),
        ServeEvent::Sent(true) => ServeAction::Receive,
        ServeEvent::Sent(false) => ServeAction::Stop,
    }
}

impl<Req, Resp> Requester<Req, Resp> {
    /// Drives one exchange: tells what to do after `event`. The caller starts
    /// with `Submitted`, performs each action on this end's queues and
    /// reports how it went, until the action is `Finish`.
    pub fn request(event: RequestEvent<Req, Resp>) -> (action: RequestAction<Req, Resp>)
        ensures
            action == request_next(event),
    {
        match event {
            RequestEvent::Submitted(req) => RequestAction::Send(req),
            RequestEvent::Sent(accepted) => match Self::send(accepted) {
                Ok(_) => RequestAction::Receive,
                Err(e) => RequestAction::Finish(Err(e)),
            },
            RequestEvent::Received(received) => RequestAction::Finish(Self::recv(received)),
        }
    }

    /// The result of sending a request, given whether the request queue took
    /// it: a queue that did not is closed.
    pub fn send(accepted: bool) -> (result: Result<(), ChannelError>)
        ensures
            result == send_result(accepted),
    {
        if accepted {
            Ok(())
        } else {
            Err(ChannelError::RequestChannelClosed)
        }
    }

    /// The result of receiving a response, given what the response queue
    /// gave: a queue that gave none is closed.
    pub fn recv(received: Option<Resp>) -> (result: Result<Resp, ChannelError>)
        ensures
            result == recv_result(received),
    {
        match received {
            Some(resp) => Ok(resp),
            None => Err(ChannelError::ResponseChannelClosed),
        }
    }
}

impl<Req, Resp> Responder<Req, Resp> {
    /// Drives the worker's loop: tells what to do after `event`. The caller
    /// starts with `Started`, performs each action on this end's queues or
    /// with its handler and reports how it went, until the action is `Stop`.
    pub fn handle(event: ServeEvent<Req, Resp>) -> (action: ServeAction<Req, Resp>)
        ensures
            action == serve_next(event),
    {
        match event {
            ServeEvent::Started => ServeAction::Receive,
            ServeEvent::Received(Some(req)) => ServeAction::Handle(req),
            ServeEvent::Received(None) => ServeAction::Stop,
            ServeEvent::Handled(resp) => ServeAction::Send(resp),
            ServeEvent::Sent(true) => ServeAction::Receive,
            ServeEvent::Sent(false) => ServeAction::Stop,
        }
    }
}

/// Creates a channel pair whose two queues hold up to `buffer` entries each,
/// and returns its two ends.
pub fn channel<Req, Resp>(buffer: usize) -> (ends: (Requester<Req, Resp>, Responder<Req, Resp>))
    requires
        0 < buffer <= MAX_CAPACITY,
    ensures
        ends.0.capacity == buffer,
        ends.1.capacity == buffer,
{
    let (request_send, request_recv) = bounded_queue::<Req>(buffer);
    let (response_send, response_recv) = bounded_queue::<Resp>(buffer);
    (
        Requester { request_send, response_recv, capacity: buffer },
        Responder { request_recv, response_send, capacity: buffer },
    )
}

} // verus!
