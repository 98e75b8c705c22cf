//! Draining a body: the frames it yields are gathered into one contiguous
//! buffer, trailers are dropped, and a read error ends the drain.

use vstd::prelude::*;

verus! {

/// The `http` crate's header collection, carried through as an opaque value.
#[verifier::external_type_specification]
#[verifier::external_body]
#[verifier::reject_recursive_types(T)]
pub struct ExHeaderMap<T>(http::HeaderMap<T>);

/// The `http` crate's header value.
#[verifier::external_type_specification]
#[verifier::external_body]
pub struct ExHeaderValue(http::HeaderValue);

/// Relies on HeaderMap's Clone impl, which copies the map; nothing is stated
/// of the copy.
pub assume_specification<T: Clone>[ <http::HeaderMap<T> as Clone>::clone ](
    map: &http::HeaderMap<T>,
) -> http::HeaderMap<T>;

/// One frame of a body: a chunk of data, or the trailers that end it.
pub enum BodyFrame {
    Data(Vec<u8>),
    Trailers(http::HeaderMap),
}

/// What polling a body for its next frame gives.
pub enum BodyEvent<E> {
    /// The body yielded a frame.
    Frame(BodyFrame),
    /// The body failed while being read.
    Failed(E),
    /// The body has no more frames.
    End,
}

/// The payload bytes that a frame adds to the buffer.
pub open spec fn frame_bytes(f: BodyFrame) -> Seq<u8> {
    match f {
        BodyFrame::Data(d) => d@,
        BodyFrame::Trailers(_) => seq![],
    }
}

/// The payloads of the frames, in order, one after another.
pub open spec fn frames_bytes(frames: Seq<BodyFrame>) -> Seq<u8>
    decreases frames.len(),
{
    if frames.len() == 0 {
        seq![]
    } else {
        frame_bytes(frames[0]) + frames_bytes(frames.drop_first())
    }
}

/// Each frame as the event that delivers it.
pub open spec fn frame_events<E>(frames: Seq<BodyFrame>) -> Seq<BodyEvent<E>> {
    frames.map_values(|f: BodyFrame| BodyEvent::Frame(f))
}

/// The outcome of draining `events` with `acc` gathered so far: `None` while
/// the events end before the body does.
pub open spec fn drained<E>(acc: Seq<u8>, events: Seq<BodyEvent<E>>) -> Option<Result<Seq<u8>, E>>
    decreases events.len(),
{
    if events.len() == 0 {
        None
    } else {
        match events[0] {
            BodyEvent::Frame(f) => drained(acc + frame_bytes(f), events.drop_first()),
            BodyEvent::Failed(e) => Some(Err(e)),
            BodyEvent::End => Some(Ok(acc)),
        }
    }
}

/// The bytes gathered so far from a body that is being drained.
pub struct Collector {
    buf: Vec<u8>,
}

/// Where a drain stands after one event.
pub enum Step<E> {
    /// The body goes on: poll it again and hand the event to this collector.
    Continue(Collector),
    /// The drain is over, with the whole body or with the read error.
    Done(Result<Vec<u8>, E>),
}

impl View for Collector {
    type V = Seq<u8>;

    closed spec fn view(&self) -> Seq<u8> {
        self.buf@
    }
}

impl Collector {
    /// A collector that holds nothing yet.
    pub fn new() -> (r: Collector)
        ensures
            r@ == Seq::<u8>::empty(),
    {
        Collector { buf: Vec::new() }
    }

    /// Takes one event of the body: a data frame's bytes are appended,
    /// trailers are dropped, a failure ends the drain with its error and
    /// discards what was gathered, and the end yields the gathered bytes.
    pub fn step<E>(self, event: BodyEvent<E>) -> (r: Step<E>)
        ensures
            match event {
                BodyEvent::Frame(f) => r matches Step::Continue(c) && c@ == self@ + frame_bytes(f),
                BodyEvent::Failed(e) => r matches Step::Done(Err(x)) && x == e,
                BodyEvent::End => r matches Step::Done(Ok(b)) && b@ == self@,
            },
    {
        let mut buf = self.buf;
        match event {
            BodyEvent::Frame(BodyFrame::Data(d)) => {
                let mut d = d;
                buf.append(&mut d);
                Step::Continue(Collector { buf })
            },
            BodyEvent::Frame(BodyFrame::Trailers(_)) => Step::Continue(Collector { buf }),
            BodyEvent::Failed(e) => Step::Done(Err(e)),
            BodyEvent::End => Step::Done(Ok(buf)),
        }
    }
}

/// The outcome of a drain with its buffer seen as a sequence of bytes.
pub open spec fn outcome_view<E>(r: Option<Result<Vec<u8>, E>>) -> Option<Result<Seq<u8>, E>> {
    match r {
        None => None,
        Some(Ok(b)) => Some(Ok(b@)),
        Some(Err(e)) => Some(Err(e)),
    }
}

/// Drains events that were already polled from a body, in order, stopping at
/// the first failure or end; `None` when they run out before the body ends.
pub fn drain<E>(events: Vec<BodyEvent<E>>) -> (r: Option<Result<Vec<u8>, E>>)
    ensures
        outcome_view(r) == drained(Seq::<u8>::empty(), events@),
{
    let mut rest = events;
    let mut collector = Collector::new();
    while rest.len() > 0
        invariant
            drained(collector@, rest@) == drained(Seq::<u8>::empty(), events@),
        decreases rest.len(),
    {
        let ghost before = rest@;
        let event = rest.remove(0);
        assert(before.drop_first() =~= rest@);
        match collector.step(event) {
            Step::Continue(next) => {
                collector = next;
            },
            Step::Done(result) => {
                return Some(result);
            },
        }
    }
    None
}

/// Draining frames that end with the body's end gathers exactly the
/// concatenation of their payloads, in order, after what was gathered before.
pub proof fn lemma_drain_concatenates<E>(acc: Seq<u8>, frames: Seq<BodyFrame>)
    ensures
        drained(acc, frame_events::<E>(frames).push(BodyEvent::End)) == Some(
            Ok::<Seq<u8>, E>(acc + frames_bytes(frames)),
        ),
    decreases frames.len(),
{
    let events = frame_events::<E>(frames).push(BodyEvent::End);
    if frames.len() == 0 {
        assert(events[0] == BodyEvent::<E>::End);
        assert(acc + frames_bytes(frames) =~= acc);
    } else {
        let rest = frames.drop_first();
        lemma_drain_concatenates::<E>(acc + frame_bytes(frames[0]), rest);
        assert(events.drop_first() =~= frame_events::<E>(rest).push(BodyEvent::End));
        assert(acc + frame_bytes(frames[0]) + frames_bytes(rest) =~= acc + frames_bytes(frames));
    }
}

/// A read error after any frames ends the drain with that error, whatever
/// would have followed it: no partial data is returned.
pub proof fn lemma_drain_fails_on_error<E>(
    acc: Seq<u8>,
    frames: Seq<BodyFrame>,
    e: E,
    rest: Seq<BodyEvent<E>>,
)
    ensures
        drained(acc, frame_events::<E>(frames) + seq![BodyEvent::Failed(e)] + rest) == Some(
            Err::<Seq<u8>, E>(e),
        ),
    decreases frames.len(),
{
    let events = frame_events::<E>(frames) + seq![BodyEvent::Failed(e)] + rest;
    if frames.len() == 0 {
        assert(events[0] == BodyEvent::<E>::Failed(e));
    } else {
        let tail = frames.drop_first();
        lemma_drain_fails_on_error::<E>(acc + frame_bytes(frames[0]), tail, e, rest);
        assert(events.drop_first() =~= frame_events::<E>(tail) + seq![BodyEvent::Failed(e)] + rest);
    }
}

} // verus!
