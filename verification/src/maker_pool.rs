//! The pool of makers: the maker with its loop, and the registry that binds
//! identifiers to running makers.
//!
//! Each maker runs in an execution context of its own and is reached only
//! through its channel pair. The pool keeps the requester's end of each pair
//! behind a mutex: callers for one maker take turns, callers for different
//! makers never wait for each other.

use crate::bidirectional_channel::channel;
use crate::bidirectional_channel::request_next;
use crate::bidirectional_channel::serve_next;
use crate::bidirectional_channel::RequestAction;
use crate::bidirectional_channel::RequestEvent;
use crate::bidirectional_channel::Requester;
use crate::bidirectional_channel::Responder;
use crate::bidirectional_channel::ServeAction;
use crate::bidirectional_channel::ServeEvent;
use crate::handler::answers;
use crate::handler::handle_request;
use crate::handler::invalid_address_prefix;
use crate::handler::lemma_invalid_address_is_reported;
use crate::message::FeeRate;
use crate::message::MessageRequest;
use crate::message::MessageResponse;
use crate::message::ResponseView;
use crate::registry::Registry;
use crate::wallet::address_rejection;
use crate::wallet::MakerWalletAccess;
use vstd::prelude::*;

verus! {

/// A maker of either protocol.
pub enum MakerHandle<L, T> {
    /// A maker of the first protocol.
    Legacy(L),
    /// A maker of the taproot protocol.
    Taproot(T),
}

impl<L: MakerWalletAccess, T: MakerWalletAccess> MakerHandle<L, T> {
    /// Whether `reply` answers `request` on the maker that this handle holds.
    pub open spec fn answers(self, request: MessageRequest, reply: ResponseView) -> bool {
        match self {
            MakerHandle::Legacy(maker) => answers(&maker, request, reply),
            MakerHandle::Taproot(maker) => answers(&maker, request, reply),
        }
    }

    /// Answers one request on the maker that this handle holds.
    pub fn handle_request(&self, request: MessageRequest) -> (result: Result<
        MessageResponse,
        String,
    >)
        ensures
            result matches Ok(reply) && self.answers(request, reply@),
    {
        match self {
            MakerHandle::Legacy(maker) => handle_request(maker, request),
            MakerHandle::Taproot(maker) => handle_request(maker, request),
        }
    }
}

/// The bound of the two queues between the pool and a maker.
pub const CHANNEL_CAPACITY: usize = 100;

/// What the handler's result becomes on the way back to the caller: its
/// response, or its fault as an error response.
pub open spec fn fault_as_reply(result: Result<MessageResponse, String>) -> ResponseView {
    match result {
        Ok(reply) => reply@,
        Err(fault) => ResponseView::ServerError(fault@),
    }
}

/// Turns the handler's result into the response that is sent: a fault of the
/// handler becomes an error response, so that it never ends the loop.
pub fn response_or_error(result: Result<MessageResponse, String>) -> (reply: MessageResponse)
    ensures
        reply@ == fault_as_reply(result),
{
    match result {
        Ok(reply) => reply,
        Err(fault) => MessageResponse::ServerError(fault),
    }
}

/// What has just happened in a maker's loop.
pub enum LoopEvent {
    /// The loop was started.
    Started,
    /// Receiving on the request queue finished, with a request or, from a
    /// queue that is closed and empty, with none.
    Received(Option<MessageRequest>),
    /// Sending on the response queue finished: `true` if the queue took the
    /// response, `false` if the queue is closed.
    Sent(bool),
}

/// What a maker's loop does next. It never asks for a handler: it answers a
/// request itself.
pub enum LoopAction {
    /// Take the next request from the request queue, waiting while it is
    /// empty.
    Receive,
    /// Put the response on the response queue, waiting while the queue is
    /// full.
    Send(MessageResponse),
    /// Leave the loop.
    Stop,
}

impl LoopEvent {
    /// The event as one of a worker's loop.
    pub open spec fn as_serve(self) -> ServeEvent<MessageRequest, MessageResponse> {
        match self {
            LoopEvent::Started => ServeEvent::Started,
            LoopEvent::Received(received) => ServeEvent::Received(received),
            LoopEvent::Sent(sent) => ServeEvent::Sent(sent),
        }
    }
}

impl LoopAction {
    /// The action as one of a worker's loop.
    pub open spec fn as_serve(self) -> ServeAction<MessageRequest, MessageResponse> {
        match self {
            LoopAction::Receive => ServeAction::Receive,
            LoopAction::Send(response) => ServeAction::Send(response),
            LoopAction::Stop => ServeAction::Stop,
        }
    }
}

/// One maker with the responder's end of its channel pair: what its loop
/// owns. Nothing else reaches the maker while the loop runs.
pub struct MakerEntry<L, T> {
    pub inner: MakerHandle<L, T>,
    pub responder: Responder<MessageRequest, MessageResponse>,
}

impl<L: MakerWalletAccess, T: MakerWalletAccess> MakerEntry<L, T> {
    /// Creates the channel pair of a maker. Returns the maker with the
    /// responder's end, and the requester's end for the pool.
    pub fn new(inner: MakerHandle<L, T>) -> (made: (
        Self,
        Requester<MessageRequest, MessageResponse>,
    ))
        ensures
            made.0.inner == inner,
            made.0.responder.capacity == CHANNEL_CAPACITY,
            made.1.capacity == CHANNEL_CAPACITY,
    {
        let (requester, responder) = channel::<MessageRequest, MessageResponse>(CHANNEL_CAPACITY);
        (Self { inner, responder }, requester)
    }

    /// Whether `action` is the step of this maker's loop that follows
    /// `event`. A request that arrives is answered on the spot and the
    /// response sent; otherwise the loop moves as every worker's loop does.
    pub open spec fn runs(self, event: LoopEvent, action: LoopAction) -> bool {
        match event {
            LoopEvent::Received(Some(request)) => action matches LoopAction::Send(reply)
                && self.inner.answers(request, reply@),
            _ => action.as_serve() == serve_next(event.as_serve()),
        }
    }

    /// A maker's step on a request is two steps of a worker's loop in one:
    /// the request goes to the handler, and the handler's answer is sent.
    pub proof fn lemma_run_handles_in_place(self, request: MessageRequest, action: LoopAction)
        requires
            self.runs(LoopEvent::Received(Some(request)), action),
        ensures
            serve_next(LoopEvent::Received(Some(request)).as_serve())
                == ServeAction::<MessageRequest, MessageResponse>::Handle(request),
            exists|reply: MessageResponse| #[trigger]
                self.inner.answers(request, reply@) && action.as_serve() == serve_next::<
                    MessageRequest,
                    MessageResponse,
                >(ServeEvent::Handled(reply)),
    {
    }

    /// Drives the maker's loop: tells what to do after `event`. The caller
    /// starts with `Started`, performs each action on the responder's queues
    /// and reports how it went, until the action is `Stop`. Only a closed
    /// queue stops the loop; a `Stop` request is answered like any other.
    pub fn run(&self, event: LoopEvent) -> (action: LoopAction)
        ensures
            self.runs(event, action),
    {
        match event {
            LoopEvent::Started => LoopAction::Receive,
            LoopEvent::Received(Some(request)) => LoopAction::Send(
                response_or_error(self.inner.handle_request(request)),
            ),
            LoopEvent::Received(None) => LoopAction::Stop,
            LoopEvent::Sent(true) => LoopAction::Receive,
            LoopEvent::Sent(false) => LoopAction::Stop,
        }
    }
}

/// The identifier of a maker: chosen by the caller, unique within a pool.
pub type MakerId = String;

/// Why the pool refused an operation.
#[derive(Debug, PartialEq, Eq)]
pub enum PoolError {
    /// A maker is already registered under this identifier.
    DuplicateId(MakerId),
    /// No maker is registered under this identifier.
    NotFound(MakerId),
}

impl PoolError {
    /// The error in words.
    pub open spec fn text(self) -> Seq<char> {
        match self {
            PoolError::DuplicateId(id) => "Maker with id '"@ + id@ + "' already exists"@,
            PoolError::NotFound(id) => "Maker with id '"@ + id@ + "' not found"@,
        }
    }

    /// The error in words.
    pub fn message(&self) -> (text: String)
        ensures
            text@ == self.text(),
    {
        match self {
            PoolError::DuplicateId(id) => String::from_str("Maker with id '").concat(
                id.as_str(),
            ).concat("' already exists"),
            PoolError::NotFound(id) => String::from_str("Maker with id '").concat(
                id.as_str(),
            ).concat("' not found"),
        }
    }
}

/// `tokio::sync::Mutex`, the asynchronous mutex. The library carries it and
/// never looks into it.
#[verifier::external_type_specification]
#[verifier::external_body]
#[verifier::reject_recursive_types(T)]
pub struct ExMutex<T: ?Sized>(tokio::sync::Mutex<T>);

/// Calls `tokio::sync::Mutex::new`, which wraps the value in an unlocked
/// mutex. Nothing is claimed of the mutex it returns.
#[verifier::external_body]
fn guarded<T>(value: T) -> (lock: tokio::sync::Mutex<T>) {
    tokio::sync::Mutex::new(value)
}

/// What the pool keeps for a running maker.
#[verifier::reject_recursive_types(J)]
pub struct MakerPoolEntry<J> {
    /// The requester's end of the maker's channel pair. The mutex admits one
    /// caller at a time, so that one exchange ends before the next begins.
    pub requester: tokio::sync::Mutex<Requester<MessageRequest, MessageResponse>>,
    /// The handle of the execution context that runs the maker's loop.
    pub thread_handle: J,
}

/// A request on its way to a maker that the pool has found.
#[verifier::reject_recursive_types(J)]
pub struct Forward<'a, J> {
    /// The maker's entry in the pool.
    pub entry: &'a MakerPoolEntry<J>,
    /// The request to submit once the entry's mutex is held.
    pub request: MessageRequest,
}

/// Whether `result` is what a request for `id` yields on a pool that holds
/// `makers`: the request with the entry of `id`, or `NotFound` with the
/// identifier where the pool has no such maker.
pub open spec fn forwards<J>(
    makers: Registry<MakerPoolEntry<J>>,
    id: Seq<char>,
    req: MessageRequest,
    result: Result<Forward<'_, J>, PoolError>,
) -> bool {
    if makers.contains(id) {
        result matches Ok(forward) && *forward.entry == makers.entry(id) && forward.request == req
    } else {
        result matches Err(PoolError::NotFound(missing)) && missing@ == id
    }
}

/// Whether `result` and `after` are what registering `maker` under `id` with
/// `start` yields on a pool that held `before`. An identifier that is taken
/// gives `DuplicateId` and the pool as it was. Otherwise `start` ran on an
/// entry that holds the maker, and the pool has one more slot, with the
/// handle that `start` returned.
pub open spec fn spawned<J, L, T, F: FnOnce(MakerEntry<L, T>) -> J>(
    before: Registry<MakerPoolEntry<J>>,
    id: MakerId,
    maker: MakerHandle<L, T>,
    start: F,
    result: Result<(), PoolError>,
    after: Registry<MakerPoolEntry<J>>,
) -> bool {
    if before.contains(id@) {
        result == Err::<(), PoolError>(PoolError::DuplicateId(id)) && after == before
    } else {
        result is Ok && exists|entry: MakerEntry<L, T>, added: MakerPoolEntry<J>|
            entry.inner == maker && #[trigger] call_ensures(start, (entry,), added.thread_handle)
                && after == before.spawn(id@, added)
    }
}

/// Uniqueness: whatever came of registering a maker under an identifier, a
/// second registration under it is refused with `DuplicateId`, starts
/// nothing, and leaves the pool, and with it the maker that stands under the
/// identifier, as it was.
pub proof fn lemma_second_spawn_is_refused<J, L, T, F, G>(
    before: Registry<MakerPoolEntry<J>>,
    id: MakerId,
    first: MakerHandle<L, T>,
    start: F,
    result: Result<(), PoolError>,
    between: Registry<MakerPoolEntry<J>>,
    again: MakerId,
    second: MakerHandle<L, T>,
    restart: G,
    refusal: Result<(), PoolError>,
    after: Registry<MakerPoolEntry<J>>,
) where F: FnOnce(MakerEntry<L, T>) -> J, G: FnOnce(MakerEntry<L, T>) -> J
    requires
        before.wf(),
        again@ == id@,
        spawned(before, id, first, start, result, between),
        spawned(between, again, second, restart, refusal, after),
    ensures
        between.wf(),
        between.contains(id@),
        refusal == Err::<(), PoolError>(PoolError::DuplicateId(again)),
        after == between,
        after.entry(id@) == between.entry(id@),
{
    if !before.contains(id@) {
        let added = choose|added: MakerPoolEntry<J>| between == before.spawn(id@, added);
        before.lemma_spawn(id@, added);
    }
}

/// After a maker was removed, a request for its identifier finds nothing: it
/// fails with `NotFound`, whatever the request.
pub proof fn lemma_request_after_remove<J>(
    before: Registry<MakerPoolEntry<J>>,
    id: Seq<char>,
    req: MessageRequest,
    result: Result<Forward<'_, J>, PoolError>,
)
    requires
        before.wf(),
        forwards(before.remove(id), id, req, result),
    ensures
        result matches Err(PoolError::NotFound(missing)) && missing@ == id,
{
    before.lemma_remove(id);
}

/// Requests for one maker all reach the one entry of that maker, each as it
/// was handed in. Its mutex is therefore the one that every caller for the
/// maker takes, and the callers take their turns.
pub proof fn lemma_one_maker_one_entry<J>(
    makers: Registry<MakerPoolEntry<J>>,
    id: Seq<char>,
    first: MessageRequest,
    found: Result<Forward<'_, J>, PoolError>,
    second: MessageRequest,
    again: Result<Forward<'_, J>, PoolError>,
)
    requires
        makers.contains(id),
        forwards(makers, id, first, found),
        forwards(makers, id, second, again),
    ensures
        found matches Ok(x) && again matches Ok(y) && *x.entry == *y.entry && x.request == first
            && y.request == second,
{
}

/// Requests for two makers reach two entries, in two slots of the pool:
/// neither caller takes the mutex of the other's maker.
pub proof fn lemma_two_makers_two_entries<J>(
    makers: Registry<MakerPoolEntry<J>>,
    id: Seq<char>,
    req: MessageRequest,
    found: Result<Forward<'_, J>, PoolError>,
    other: Seq<char>,
    other_req: MessageRequest,
    other_found: Result<Forward<'_, J>, PoolError>,
)
    requires
        makers.contains(id),
        makers.contains(other),
        other != id,
        forwards(makers, id, req, found),
        forwards(makers, other, other_req, other_found),
    ensures
        makers.position(id) != makers.position(other),
        found matches Ok(x) && *x.entry == makers.slots[makers.position(id)].1,
        other_found matches Ok(y) && *y.entry == makers.slots[makers.position(other)].1,
{
    makers.lemma_slots_apart(id, other);
}

/// Error as data, from the pool to the caller: a payment to a text that is
/// no address is forwarded as it is; the maker's loop answers it with an
/// error response that opens with the words for an invalid address; the
/// exchange ends with that response as its success; and the loop, once the
/// response is sent, receives again.
pub proof fn lemma_invalid_payment_is_delivered<J, L: MakerWalletAccess, T: MakerWalletAccess>(
    makers: Registry<MakerPoolEntry<J>>,
    id: Seq<char>,
    address: String,
    amount: u64,
    feerate: FeeRate,
    found: Result<Forward<'_, J>, PoolError>,
    entry: MakerEntry<L, T>,
    action: LoopAction,
)
    requires
        makers.contains(id),
        address_rejection(address@) is Some,
        forwards(makers, id, MessageRequest::SendToAddress { address, amount, feerate }, found),
        found matches Ok(forward) && entry.runs(
            LoopEvent::Received(Some(forward.request)),
            action,
        ),
    ensures
        action matches LoopAction::Send(reply) && (reply@ matches ResponseView::ServerError(text)
            && invalid_address_prefix().is_prefix_of(text)) && request_next::<
            MessageRequest,
            MessageResponse,
        >(RequestEvent::Received(Some(reply))) == RequestAction::<
            MessageRequest,
            MessageResponse,
        >::Finish(Ok(reply)),
        forall|next: LoopAction| #[trigger] entry.runs(LoopEvent::Sent(true), next) ==> next is Receive,
{
    let reply = action->Send_0;
    match entry.inner {
        MakerHandle::Legacy(maker) => lemma_invalid_address_is_reported(
            &maker,
            address,
            amount,
            feerate,
            reply@,
        ),
        MakerHandle::Taproot(maker) => lemma_invalid_address_is_reported(
            &maker,
            address,
            amount,
            feerate,
            reply@,
        ),
    }
}

/// The pool: the makers that run, each under its identifier.
#[verifier::reject_recursive_types(J)]
pub struct MakerPool<J> {
    makers: Vec<(MakerId, MakerPoolEntry<J>)>,
}

impl<J> View for MakerPool<J> {
    type V = Registry<MakerPoolEntry<J>>;

    closed spec fn view(&self) -> Registry<MakerPoolEntry<J>> {
        Registry {
            slots: self.makers@.map_values(|slot: (MakerId, MakerPoolEntry<J>)| (slot.0@, slot.1)),
        }
    }
}

impl<J> MakerPool<J> {
    #[verifier::type_invariant]
    spec fn inv(self) -> bool {
        self@.wf()
    }

    /// Creates an empty pool.
    pub fn new() -> (pool: Self)
        ensures
            pool@ == Registry::<MakerPoolEntry<J>>::empty(),
            pool@.wf(),
    {
        let pool = Self { makers: Vec::new() };
        assert(pool@.slots =~= Seq::empty());
        pool
    }

    /// The slot that holds `id`, if one does.
    fn position(&self, id: &MakerId) -> (found: Option<usize>)
        ensures
            self@.wf(),
            match found {
                Some(i) => self@.at(id@, i as int) && self@.contains(id@) && self@.position(id@) == i,
                None => !self@.contains(id@),
            },
    {
        proof {
            use_type_invariant(self);
        }
        let mut i: usize = 0;
        while i < self.makers.len()
            invariant
                i <= self.makers.len(),
                self@.wf(),
                forall|k: int| 0 <= k < i ==> !self@.at(id@, k),
            decreases self.makers.len() - i,
        {
            if self.makers[i].0 == *id {
                assert(self@.at(id@, i as int));
                return Some(i);
            }
            i += 1;
        }
        None
    }

    /// Whether a maker is registered under `id`.
    pub fn contains(&self, id: &MakerId) -> (found: bool)
        ensures
            found == self@.contains(id@),
            self@.wf(),
    {
        self.position(id).is_some()
    }

    /// The number of makers in the pool.
    pub fn len(&self) -> (count: usize)
        ensures
            count == self@.len(),
            self@.wf(),
    {
        proof {
            use_type_invariant(self);
        }
        self.makers.len()
    }

    /// Whether the pool holds no maker.
    pub fn is_empty(&self) -> (empty: bool)
        ensures
            empty == (self@.len() == 0),
            self@.wf(),
    {
        proof {
            use_type_invariant(self);
        }
        self.makers.len() == 0
    }

    /// Registers `maker` under `id` and starts it.
    ///
    /// An identifier that is taken is refused, and then nothing is created or
    /// started and the pool stays as it was. Otherwise the maker gets its
    /// channel pair, `start` receives the maker with the responder's end and
    /// returns the handle of the execution context that runs the loop, and
    /// the pool keeps the requester's end, behind a mutex, with that handle.
    pub fn spawn_maker<L, T, F>(&mut self, id: MakerId, maker: MakerHandle<L, T>, start: F) -> (result:
        Result<(), PoolError>) where
        L: MakerWalletAccess,
        T: MakerWalletAccess,
        F: FnOnce(MakerEntry<L, T>) -> J,

        requires
            forall|entry: MakerEntry<L, T>|
                entry.inner == maker ==> #[trigger] call_requires(start, (entry,)),
        ensures
            spawned(old(self)@, id, maker, start, result, final(self)@),
            old(self)@.wf(),
            final(self)@.wf(),
    {
        if self.position(&id).is_some() {
            return Err(PoolError::DuplicateId(id));
        }
        let ghost before = self@;
        let (entry, requester) = MakerEntry::new(maker);
        let thread_handle = start(entry);
        let added = MakerPoolEntry { requester: guarded(requester), thread_handle };
        let mut makers = Vec::new();
        std::mem::swap(&mut makers, &mut self.makers);
        makers.push((id, added));
        let ghost after = Registry {
            slots: makers@.map_values(|slot: (MakerId, MakerPoolEntry<J>)| (slot.0@, slot.1)),
        };
        proof {
            assert(after.slots =~= before.slots.push((id@, added)));
            assert forall|i: int, j: int| 0 <= i < j < after.slots.len() implies (
            #[trigger] after.slots[i]).0 != (#[trigger] after.slots[j]).0 by {
                if j == before.slots.len() {
                    assert(!before.at(id@, i));
                }
            }
            assert(call_ensures(start, (entry,), added.thread_handle));
        }
        self.makers = makers;
        Ok(())
    }

    /// Finds the maker that a request is for.
    ///
    /// Fails with `NotFound` if no maker is registered under `id`. Otherwise
    /// returns the request with the maker's entry. The caller then takes the
    /// entry's mutex, runs one exchange on the requester's end and releases
    /// the mutex; callers for one maker so take their turns, and callers for
    /// different makers do not wait for each other.
    pub fn request<'a>(&'a self, id: &MakerId, req: MessageRequest) -> (result: Result<
        Forward<'a, J>,
        PoolError,
    >)
        ensures
            forwards(self@, id@, req, result),
            self@.wf(),
    {
        match self.position(id) {
            Some(i) => Ok(Forward { entry: &self.makers[i].1, request: req }),
            None => Err(PoolError::NotFound(id.clone())),
        }
    }

    /// The identifiers of all makers in the pool, oldest first.
    pub fn list_makers(&self) -> (ids: Vec<&MakerId>)
        ensures
            ids@.len() == self@.len(),
            forall|i: int| 0 <= i < ids@.len() ==> (#[trigger] ids@[i])@ == self@.ids()[i],
            self@.wf(),
    {
        proof {
            use_type_invariant(self);
        }
        let mut ids: Vec<&MakerId> = Vec::new();
        let mut i: usize = 0;
        while i < self.makers.len()
            invariant
                i <= self.makers.len(),
                ids@.len() == i,
                forall|k: int| 0 <= k < i ==> (#[trigger] ids@[k])@ == self@.ids()[k],
            decreases self.makers.len() - i,
        {
            ids.push(&self.makers[i].0);
            i += 1;
        }
        ids
    }

    /// Removes the maker under `id` from the pool and returns the handle of
    /// its execution context, or `None` if there is no such maker.
    ///
    /// The requester's end is dropped with the entry. That closes the request
    /// queue, and the maker's loop stops when it next receives. The pool does
    /// not wait for that.
    pub fn remove_maker(&mut self, id: &MakerId) -> (handle: Option<J>)
        ensures
            final(self)@ == old(self)@.remove(id@),
            old(self)@.contains(id@) ==> handle == Some(old(self)@.entry(id@).thread_handle),
            !old(self)@.contains(id@) ==> handle is None,
            old(self)@.wf(),
            final(self)@.wf(),
    {
        match self.position(id) {
            Some(i) => {
                let mut makers = Vec::new();
                std::mem::swap(&mut makers, &mut self.makers);
                let ghost before = makers@;
                let removed = makers.remove(i);
                proof {
                    let slot = |slot: (MakerId, MakerPoolEntry<J>)| (slot.0@, slot.1);
                    assert(makers@.map_values(slot) =~= before.map_values(slot).remove(i as int));
                }
                self.makers = makers;
                Some(removed.1.thread_handle)
            },
            None => None,
        }
    }
}

impl<J> Default for MakerPool<J> {
    fn default() -> (pool: Self)
        ensures
            pool@ == Registry::<MakerPoolEntry<J>>::empty(),
            pool@.wf(),
    {
        Self::new()
    }
}

} // verus!
