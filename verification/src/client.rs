//! The client: it waits until the link is up, then until the stack has an
//! address, makes one request, and idles.

use reqwless::request::Method;
use vstd::prelude::*;
use vstd::string::*;
use vstd::utf8::{decode_utf8, valid_utf8};

verus! {

/// Milliseconds between two wake-ups of the idle client.
pub const IDLE_INTERVAL_MS: u64 = 600;

/// Where the one request goes.
pub const ENDPOINT: &'static str = "https://api.cloudflare.com/";

/// One HTTP request: its method and its address.
#[derive(Clone, Copy, Debug)]
pub struct Request {
    pub method: Method,
    pub url: &'static str,
}

/// The request that the client makes: a GET of [`ENDPOINT`].
pub fn request() -> (request: Request)
    ensures
        request.method == Method::GET,
        request.url@ == ENDPOINT@,
{
    Request { method: Method::GET, url: ENDPOINT }
}

/// The body of a response was no text.
#[derive(Clone, Copy, Debug, PartialEq, Eq, Structural)]
pub enum BodyError {
    /// The bytes are not valid UTF-8.
    NotUtf8,
}

/// Reads the body of a response as text. A body of valid UTF-8 comes back as
/// the text that it encodes, and any other as an error: never as an empty
/// text, unless the body is empty.
pub fn decode_body(body: &[u8]) -> (text: Result<&str, BodyError>)
    ensures
        text is Ok <==> valid_utf8(body@),
        text matches Ok(decoded) ==> decoded.spec_bytes() == body@ && decoded@ == decode_utf8(
            body@,
        ),
        text matches Err(error) ==> error == BodyError::NotUtf8,
{
    match core::str::from_utf8(body) {
        Ok(decoded) => {
            proof {
                vstd::utf8::encode_utf8_decode_utf8(decoded@);
            }
            Ok(decoded)
        },
        Err(_) => Err(BodyError::NotUtf8),
    }
}

/// What the client is busy with.
#[derive(Clone, Copy, Debug, PartialEq, Eq, Structural)]
pub enum Phase {
    /// Waiting for the link to come up.
    AwaitingLink,
    /// Waiting for the stack to get its address.
    AwaitingAddress,
    /// Making the request.
    Requesting,
    /// Done; waking up now and then.
    Idle,
}

/// What the client is told.
#[derive(Clone, Copy, Debug, PartialEq, Eq, Structural)]
pub enum Event {
    /// The link came up.
    LinkUp,
    /// The stack got its address.
    AddressUp,
    /// The request was answered, or failed.
    Answered,
    /// The idle client woke up.
    Tick,
}

/// The event that `phase` waits for.
pub open spec fn awaited(phase: Phase) -> Event {
    match phase {
        Phase::AwaitingLink => Event::LinkUp,
        Phase::AwaitingAddress => Event::AddressUp,
        Phase::Requesting => Event::Answered,
        Phase::Idle => Event::Tick,
    }
}

/// The phase that follows `phase` once its event came.
pub open spec fn next_phase(phase: Phase) -> Phase {
    match phase {
        Phase::AwaitingLink => Phase::AwaitingAddress,
        Phase::AwaitingAddress => Phase::Requesting,
        Phase::Requesting => Phase::Idle,
        Phase::Idle => Phase::Idle,
    }
}

/// An event came that the client was not waiting for.
#[derive(Clone, Copy, Debug, PartialEq, Eq, Structural)]
pub struct Untimely {
    /// The phase that the client is in.
    pub phase: Phase,
}

/// The sequence of one client. Its view is the phase that it is in.
#[derive(Clone, Copy, Debug)]
pub struct Client {
    phase: Phase,
}

impl View for Client {
    type V = Phase;

    closed spec fn view(&self) -> Phase {
        self.phase
    }
}

impl Client {
    /// A client that waits for the link.
    pub fn new() -> (client: Client)
        ensures
            client@ == Phase::AwaitingLink,
    {
        Client { phase: Phase::AwaitingLink }
    }

    /// The phase that the client is in.
    pub fn phase(&self) -> (phase: Phase)
        ensures
            phase == self@,
    {
        self.phase
    }

    /// Takes an event. The one that the client waits for moves it to its next
    /// phase, which is returned; any other is refused and changes nothing.
    pub fn advance(&mut self, event: Event) -> (reply: Result<Phase, Untimely>)
        ensures
            event == awaited(old(self)@) ==> final(self)@ == next_phase(old(self)@) && reply == Ok::<
                Phase,
                Untimely,
            >(next_phase(old(self)@)),
            event != awaited(old(self)@) ==> final(self)@ == old(self)@ && reply == Err::<
                Phase,
                Untimely,
            >(Untimely { phase: old(self)@ }),
    {
        let next = match (self.phase, event) {
            (Phase::AwaitingLink, Event::LinkUp) => Phase::AwaitingAddress,
            (Phase::AwaitingAddress, Event::AddressUp) => Phase::Requesting,
            (Phase::Requesting, Event::Answered) => Phase::Idle,
            (Phase::Idle, Event::Tick) => Phase::Idle,
            _ => { return Err(Untimely { phase: self.phase }); },
        };
        self.phase = next;
        Ok(next)
    }
}

/// The phase of a new client after it was told `events`, one by one. A
/// refused event changes nothing.
pub open spec fn phase_after(events: Seq<Event>) -> Phase
    decreases events.len(),
{
    if events.len() == 0 {
        Phase::AwaitingLink
    } else {
        let before = phase_after(events.drop_last());
        if events.last() == awaited(before) {
            next_phase(before)
        } else {
            before
        }
    }
}

/// How many times a new client that was told `events` began a request.
pub open spec fn requests_begun(events: Seq<Event>) -> nat
    decreases events.len(),
{
    if events.len() == 0 {
        0
    } else {
        let earlier = requests_begun(events.drop_last());
        if phase_after(events.drop_last()) == Phase::AwaitingAddress && events.last()
            == Event::AddressUp {
            earlier + 1
        } else {
            earlier
        }
    }
}

/// Whether `events` tells of the link coming up and, later, of the address.
pub open spec fn link_then_address(events: Seq<Event>) -> bool {
    exists|i: int, j: int|
        0 <= i < j < events.len() && #[trigger] events[i] == Event::LinkUp && #[trigger] events[j]
            == Event::AddressUp
}

/// No request before the link is up and the stack has its address, in that
/// order; and one request, never a second.
pub proof fn lemma_request_after_link_and_address(events: Seq<Event>)
    ensures
        phase_after(events) == Phase::Requesting || phase_after(events) == Phase::Idle
            ==> link_then_address(events),
        phase_after(events) != Phase::AwaitingLink ==> exists|i: int|
            0 <= i < events.len() && #[trigger] events[i] == Event::LinkUp,
        requests_begun(events) == if phase_after(events) == Phase::Requesting || phase_after(events)
            == Phase::Idle {
            1nat
        } else {
            0nat
        },
    decreases events.len(),
{
    if events.len() > 0 {
        let earlier = events.drop_last();
        let last = events.len() - 1;
        lemma_request_after_link_and_address(earlier);
        if phase_after(events) != Phase::AwaitingLink {
            if phase_after(earlier) == Phase::AwaitingLink {
                assert(events[last] == Event::LinkUp);
            } else {
                let i = choose|i: int| 0 <= i < earlier.len() && #[trigger] earlier[i] == Event::LinkUp;
                assert(events[i] == Event::LinkUp);
            }
        }
        if phase_after(events) == Phase::Requesting || phase_after(events) == Phase::Idle {
            if phase_after(earlier) == Phase::AwaitingAddress {
                let i = choose|i: int| 0 <= i < earlier.len() && #[trigger] earlier[i] == Event::LinkUp;
                assert(events[i] == Event::LinkUp && events[last] == Event::AddressUp);
            } else {
                let (i, j) = choose|i: int, j: int|
                    0 <= i < j < earlier.len() && #[trigger] earlier[i] == Event::LinkUp
                        && #[trigger] earlier[j] == Event::AddressUp;
                assert(events[i] == Event::LinkUp && events[j] == Event::AddressUp);
            }
        }
    }
}

} // verus!
