//! Requests that are passed on to an instance.
use vstd::prelude::*;

use crate::http;
use crate::http::{Failure, Status};

verus! {

/// A request in progress: each state names what the host has to do next. `N` is the
/// length of the address of an instance.
pub enum ConnectState<const N: usize> {
    /// Prepare a query to the instance in slot `slot` of `address`.
    PrepareQuery { address: [u8; N], slot: u8, path: Option<String> },
    /// Look up the command channel of the instance in slot `slot` of `address`.
    FindSender { address: [u8; N], slot: u8, path: Option<String> },
    /// Pass the request on, under the path `target`.
    Connect { target: String },
    /// Send back what the instance answered.
    Answered,
    /// Send back the failure.
    Refused { failure: Failure },
}

/// What the host has done.
pub enum ConnectEvent {
    /// The query is prepared, or the error text says why it is not.
    QueryPrepared(Result<(), String>),
    /// The look up of the command channel is done; whether there is one.
    SenderLookedUp(bool),
    /// The instance answered, or the error text says why it did not.
    Connected(Result<(), String>),
}

/// What the state of a request says.
pub ghost enum ConnectView {
    PrepareQuery { address: Seq<u8>, slot: u8, path: Option<Seq<char>> },
    FindSender { address: Seq<u8>, slot: u8, path: Option<Seq<char>> },
    Connect { target: Seq<char> },
    Answered,
    Refused { failure: http::FailureView },
}

/// What an event of a request says.
pub ghost enum ConnectEventView {
    QueryPrepared(Result<(), Seq<char>>),
    SenderLookedUp(bool),
    Connected(Result<(), Seq<char>>),
}

/// The characters of a text that may be missing.
pub open spec fn text_view(text: Option<String>) -> Option<Seq<char>> {
    match text {
        None => None,
        Some(t) => Some(t@),
    }
}

/// The error text of an outcome, as characters.
pub open spec fn outcome_view(outcome: Result<(), String>) -> Result<(), Seq<char>> {
    match outcome {
        Ok(_) => Ok(()),
        Err(message) => Err(message@),
    }
}

impl<const N: usize> View for ConnectState<N> {
    type V = ConnectView;

    open spec fn view(&self) -> ConnectView {
        match *self {
            ConnectState::PrepareQuery { address, slot, path } => ConnectView::PrepareQuery {
                address: address@,
                slot,
                path: text_view(path),
            },
            ConnectState::FindSender { address, slot, path } => ConnectView::FindSender {
                address: address@,
                slot,
                path: text_view(path),
            },
            ConnectState::Connect { target } => ConnectView::Connect { target: target@ },
            ConnectState::Answered => ConnectView::Answered,
            ConnectState::Refused { failure } => ConnectView::Refused { failure: failure@ },
        }
    }
}

impl View for ConnectEvent {
    type V = ConnectEventView;

    open spec fn view(&self) -> ConnectEventView {
        match *self {
            ConnectEvent::QueryPrepared(outcome) => ConnectEventView::QueryPrepared(
                outcome_view(outcome),
            ),
            ConnectEvent::SenderLookedUp(found) => ConnectEventView::SenderLookedUp(found),
            ConnectEvent::Connected(outcome) => ConnectEventView::Connected(outcome_view(outcome)),
        }
    }
}

/// The state in which a request is refused.
pub open spec fn refused(status: Status, message: Seq<char>) -> ConnectView {
    ConnectView::Refused { failure: http::FailureView { status, message } }
}

/// The first state of a request for the instance `id` under `path`, which is `None`
/// where the path is no text.
pub open spec fn first_state(id: Seq<u8>, path: Option<Seq<char>>, n: nat) -> ConnectView {
    if id.len() == n {
        ConnectView::PrepareQuery { address: id, slot: 0, path }
    } else {
        refused(Status::BadRequest, "invalid address"@)
    }
}

/// The state that follows `state` when the host reports `event`. An event that does
/// not answer what `state` asks for changes nothing.
pub open spec fn next_state(state: ConnectView, event: ConnectEventView) -> ConnectView {
    match (state, event) {
        (
            ConnectView::PrepareQuery { address, slot, path },
            ConnectEventView::QueryPrepared(outcome),
        ) => match outcome {
            Ok(_) => ConnectView::FindSender { address, slot, path },
            Err(message) => refused(Status::NotFound, message),
        },
        (ConnectView::FindSender { path, .. }, ConnectEventView::SenderLookedUp(found)) => {
            if !found {
                refused(Status::NotFound, Seq::empty())
            } else {
                match path {
                    Some(text) => ConnectView::Connect { target: text },
                    None => refused(Status::BadRequest, "invalid path"@),
                }
            }
        },
        (ConnectView::Connect { .. }, ConnectEventView::Connected(outcome)) => match outcome {
            Ok(_) => ConnectView::Answered,
            Err(message) => refused(Status::InternalServerError, message),
        },
        _ => state,
    }
}

/// The address that `id` holds, if it has the length of one.
pub fn vm_address<const N: usize>(id: &Vec<u8>) -> (address: Option<[u8; N]>)
    ensures
        address is Some <==> id@.len() == N,
        address matches Some(a) ==> a@ == id@,
{
    if id.len() != N {
        return None;
    }
    let mut address: [u8; N] = [0u8; N];
    let mut i: usize = 0;
    while i < N
        invariant
            i <= N,
            id@.len() == N,
            address@.len() == N,
            forall|k: int| 0 <= k < i ==> address@[k] == id@[k],
        decreases N - i,
    {
        address[i] = id[i];
        i += 1;
    }
    assert(address@ == id@);
    Some(address)
}

/// Starts to pass a request on to the instance `id`. `path` is the rest of the path of
/// the request, `None` where that is no text.
pub fn connect_vm<const N: usize>(id: Vec<u8>, path: Option<String>) -> (state: ConnectState<N>)
    ensures
        state@ == first_state(id@, text_view(path), N as nat),
        id@.len() == N ==> (state matches ConnectState::PrepareQuery { address, slot, path: p }
            && address@ == id@ && slot == 0 && p == path),
        id@.len() != N ==> (state matches ConnectState::Refused { failure } && failure.status
            == Status::BadRequest && failure.message@ == "invalid address"@),
{
    match vm_address::<N>(&id) {
        Some(address) => ConnectState::PrepareQuery { address, slot: 0, path },
        None => ConnectState::Refused {
            failure: Failure {
                status: Status::BadRequest,
                message: "invalid address".to_owned(),
            },
        },
    }
}

impl<const N: usize> ConnectState<N> {
    /// The state that follows when the host reports `event`.
    pub fn step(self, event: ConnectEvent) -> (next: ConnectState<N>)
        ensures
            next@ == next_state(self@, event@),
            match (self, event) {
                (
                    ConnectState::PrepareQuery { address, slot, path },
                    ConnectEvent::QueryPrepared(Ok(_)),
                ) => next == (ConnectState::<N>::FindSender { address, slot, path }),
                (
                    ConnectState::PrepareQuery { .. },
                    ConnectEvent::QueryPrepared(Err(message)),
                ) => next == (ConnectState::<N>::Refused {
                    failure: (Failure { status: Status::NotFound, message }),
                }),
                (
                    ConnectState::FindSender { path: Some(text), .. },
                    ConnectEvent::SenderLookedUp(true),
                ) => next == (ConnectState::<N>::Connect { target: text }),
                (
                    ConnectState::FindSender { path: None, .. },
                    ConnectEvent::SenderLookedUp(true),
                ) => next matches ConnectState::Refused { failure } && failure.status
                    == Status::BadRequest && failure.message@ == "invalid path"@,
                (
                    ConnectState::FindSender { .. },
                    ConnectEvent::SenderLookedUp(false),
                ) => next matches ConnectState::Refused { failure } && failure.status
                    == Status::NotFound && failure.message@.len() == 0,
                (
                    ConnectState::Connect { .. },
                    ConnectEvent::Connected(Ok(_)),
                ) => next is Answered,
                (
                    ConnectState::Connect { .. },
                    ConnectEvent::Connected(Err(message)),
                ) => next == (ConnectState::<N>::Refused {
                    failure: (Failure { status: Status::InternalServerError, message }),
                }),
                (state, _) => next == state,
            },
    {
        match (self, event) {
            (
                ConnectState::PrepareQuery { address, slot, path },
                ConnectEvent::QueryPrepared(outcome),
            ) => match outcome {
                Ok(_) => ConnectState::FindSender { address, slot, path },
                Err(message) => ConnectState::Refused {
                    failure: Failure { status: Status::NotFound, message },
                },
            },
            (
                ConnectState::FindSender { address: _, slot: _, path },
                ConnectEvent::SenderLookedUp(found),
            ) => {
                if !found {
                    ConnectState::Refused {
                        failure: Failure { status: Status::NotFound, message: String::new() },
                    }
                } else {
                    match path {
                        Some(text) => ConnectState::Connect { target: text },
                        None => ConnectState::Refused {
                            failure: Failure {
                                status: Status::BadRequest,
                                message: "invalid path".to_owned(),
                            },
                        },
                    }
                }
            },
            (ConnectState::Connect { target: _ }, ConnectEvent::Connected(outcome)) => {
                match outcome {
                    Ok(_) => ConnectState::Answered,
                    Err(message) => ConnectState::Refused {
                        failure: Failure { status: Status::InternalServerError, message },
                    },
                }
            },
            (state, _) => state,
        }
    }
}

/// What a request ends in, given all that the host can report of it: the address is
/// looked at first, then the query, the command channel, the path and the connection,
/// and the first of them that fails decides.
pub proof fn law_first_failure_decides(
    id: Seq<u8>,
    path: Option<Seq<char>>,
    n: nat,
    prepared: Result<(), Seq<char>>,
    found: bool,
    connected: Result<(), Seq<char>>,
)
    ensures
        next_state(
            next_state(
                next_state(
                    first_state(id, path, n),
                    ConnectEventView::QueryPrepared(prepared),
                ),
                ConnectEventView::SenderLookedUp(found),
            ),
            ConnectEventView::Connected(connected),
        ) == (if id.len() != n {
            refused(Status::BadRequest, "invalid address"@)
        } else if prepared is Err {
            refused(Status::NotFound, prepared->Err_0)
        } else if !found {
            refused(Status::NotFound, Seq::empty())
        } else if path is None {
            refused(Status::BadRequest, "invalid path"@)
        } else if connected is Err {
            refused(Status::InternalServerError, connected->Err_0)
        } else {
            ConnectView::Answered
        }),
{
}

/// A request that is answered or refused stays so, whatever is reported afterwards.
pub proof fn law_end_is_final(state: ConnectView, event: ConnectEventView)
    requires
        state is Answered || state is Refused,
    ensures
        next_state(state, event) == state,
{
}

/// A request for an instance goes to that instance, in slot zero, under exactly the path
/// that it came with, and what the instance answers is sent back.
pub proof fn law_request_reaches_its_instance(id: Seq<u8>, path: Seq<char>)
    ensures
        ({
            let first = first_state(id, Some(path), id.len());
            let prepared = next_state(first, ConnectEventView::QueryPrepared(Ok(())));
            let found = next_state(prepared, ConnectEventView::SenderLookedUp(true));
            let connected = next_state(found, ConnectEventView::Connected(Ok(())));
            &&& first == (ConnectView::PrepareQuery { address: id, slot: 0, path: Some(path) })
            &&& prepared == (ConnectView::FindSender { address: id, slot: 0, path: Some(path) })
            &&& found == (ConnectView::Connect { target: path })
            &&& connected == ConnectView::Answered
        }),
{
}

/// Each refusal has its status and its whole text: that of the error where there is one,
/// and a fixed text where there is none.
pub proof fn law_refusals_say_why(
    id: Seq<u8>,
    path: Option<Seq<char>>,
    n: nat,
    slot: u8,
    target: Seq<char>,
    message: Seq<char>,
)
    ensures
        id.len() != n ==> first_state(id, path, n) == (ConnectView::Refused {
            failure: http::FailureView {
                status: Status::BadRequest,
                message: "invalid address"@,
            },
        }),
        next_state(
            ConnectView::PrepareQuery { address: id, slot, path },
            ConnectEventView::QueryPrepared(Err(message)),
        ) == (ConnectView::Refused {
            failure: http::FailureView { status: Status::NotFound, message },
        }),
        next_state(
            ConnectView::FindSender { address: id, slot, path },
            ConnectEventView::SenderLookedUp(false),
        ) == (ConnectView::Refused {
            failure: http::FailureView { status: Status::NotFound, message: Seq::empty() },
        }),
        next_state(
            ConnectView::FindSender { address: id, slot, path: None },
            ConnectEventView::SenderLookedUp(true),
        ) == (ConnectView::Refused {
            failure: http::FailureView { status: Status::BadRequest, message: "invalid path"@ },
        }),
        next_state(
            ConnectView::Connect { target },
            ConnectEventView::Connected(Err(message)),
        ) == (ConnectView::Refused {
            failure: http::FailureView { status: Status::InternalServerError, message },
        }),
{
}

/// Each step keeps what the next ones need, whatever it is.
pub proof fn law_steps_keep_the_request(
    address: Seq<u8>,
    slot: u8,
    path: Option<Seq<char>>,
    text: Seq<char>,
)
    ensures
        next_state(
            ConnectView::PrepareQuery { address, slot, path },
            ConnectEventView::QueryPrepared(Ok(())),
        ) == (ConnectView::FindSender { address, slot, path }),
        next_state(
            ConnectView::FindSender { address, slot, path: Some(text) },
            ConnectEventView::SenderLookedUp(true),
        ) == (ConnectView::Connect { target: text }),
        first_state(address, path, address.len()) == (ConnectView::PrepareQuery {
            address,
            slot: 0,
            path,
        }),
{
}

/// What does not answer the question of a state changes nothing.
pub proof fn law_other_events_change_nothing(state: ConnectView, event: ConnectEventView)
    requires
        !(state is PrepareQuery && event is QueryPrepared),
        !(state is FindSender && event is SenderLookedUp),
        !(state is Connect && event is Connected),
    ensures
        next_state(state, event) == state,
{
}

/// The view of a request holds all that its state holds.
pub proof fn law_state_view<const N: usize>(state: ConnectState<N>)
    ensures
        match state {
            ConnectState::PrepareQuery { address, slot, path } => {
                &&& state@ matches ConnectView::PrepareQuery { address: a, slot: s, path: p }
                &&& a == address@
                &&& s == slot
                &&& path is None ==> p is None
                &&& path is Some ==> p == Some(path->0@)
            },
            ConnectState::FindSender { address, slot, path } => {
                &&& state@ matches ConnectView::FindSender { address: a, slot: s, path: p }
                &&& a == address@
                &&& s == slot
                &&& path is None ==> p is None
                &&& path is Some ==> p == Some(path->0@)
            },
            ConnectState::Connect { target } => state@ == (ConnectView::Connect {
                target: target@,
            }),
            ConnectState::Answered => state@ == ConnectView::Answered,
            ConnectState::Refused { failure } => {
                &&& state@ matches ConnectView::Refused { failure: f }
                &&& f.status == failure.status
                &&& f.message == failure.message@
            },
        },
{
}

/// The view of an event holds all that the event holds.
pub proof fn law_event_view(event: ConnectEvent)
    ensures
        match event {
            ConnectEvent::QueryPrepared(Ok(_)) => event@ == ConnectEventView::QueryPrepared(
                Ok(()),
            ),
            ConnectEvent::QueryPrepared(Err(message)) => event@ == ConnectEventView::QueryPrepared(
                Err(message@),
            ),
            ConnectEvent::SenderLookedUp(found) => event@ == ConnectEventView::SenderLookedUp(
                found,
            ),
            ConnectEvent::Connected(Ok(_)) => event@ == ConnectEventView::Connected(Ok(())),
            ConnectEvent::Connected(Err(message)) => event@ == ConnectEventView::Connected(
                Err(message@),
            ),
        },
{
}

} // verus!
