use vstd::prelude::*;

use crate::span::{spec_end, SpanRecord};

verus! {

/// One observation the consumer of a proxied response body can make:
/// a data-pull that yielded a chunk, a data-pull that signalled the end
/// of the data, or a trailer-pull that completed.
#[derive(Clone, Copy, Debug, PartialEq, Eq)]
pub enum BodyEvent {
    Chunk,
    DataEnd,
    Trailers,
}

/// How one body event moves the wrapped span: a chunk passes through and
/// leaves the span open; the end of the data closes the span, because
/// the consumer may never pull trailers; a trailer-pull closes it as
/// well, which is a no-op when the data end already did.
pub open spec fn proxy_step(s: SpanRecord, e: BodyEvent) -> SpanRecord {
    match e {
        BodyEvent::Chunk => s,
        BodyEvent::DataEnd => spec_end(s),
        BodyEvent::Trailers => spec_end(s),
    }
}

/// The span after a whole sequence of body events.
pub open spec fn proxy_run(s: SpanRecord, events: Seq<BodyEvent>) -> SpanRecord
    decreases events.len(),
{
    if events.len() == 0 {
        s
    } else {
        proxy_run(proxy_step(s, events[0]), events.skip(1))
    }
}

/// A sequence of body events holds a terminal one: the end of the data,
/// or a trailer-pull.
pub open spec fn has_terminal(events: Seq<BodyEvent>) -> bool {
    exists|i: int| 0 <= i < events.len() && events[i] != BodyEvent::Chunk
}

/// The proxy around one outgoing response body. It owns the record of
/// the span opened for the request, and closes that span at the right
/// point of body consumption — never while data is still flowing, and
/// exactly once over the whole life of the response.
///
/// A proxy dropped before a terminal event — a consumer that disconnects
/// mid-stream — leaves the span open. That gap is kept deliberately
/// rather than papered over with a close-on-drop guard.
pub struct BodyProxy {
    pub span: SpanRecord,
}

impl BodyProxy {
    /// Wrap the span of a successful response. The middleware hands the
    /// span over still open.
    pub fn new(span: SpanRecord) -> (p: Self)
        ensures
            p.span == span,
    {
        BodyProxy { span }
    }

    /// Record the outcome of one data-pull. A chunk (`had_chunk`) passes
    /// through unchanged and the span stays as it was. The end of the
    /// data closes the span at this point, before control returns to the
    /// consumer, because the consumer is free never to pull trailers.
    pub fn on_data(&mut self, had_chunk: bool)
        requires
            old(self).span.exports < u64::MAX,
        ensures
            final(self).span == proxy_step(
                old(self).span,
                if had_chunk {
                    BodyEvent::Chunk
                } else {
                    BodyEvent::DataEnd
                },
            ),
    {
        if !had_chunk {
            self.span.end();
        }
    }

    /// Record a completed trailer-pull: the response is over, close the
    /// span. Where the end of the data already closed it, this changes
    /// nothing — closing twice is deliberately a no-op rather than extra
    /// suppression state.
    pub fn on_trailers(&mut self)
        requires
            old(self).span.exports < u64::MAX,
        ensures
            final(self).span == proxy_step(old(self).span, BodyEvent::Trailers),
    {
        self.span.end();
    }

    /// Whether the wrapped span has been closed.
    pub fn span_ended(&self) -> (r: bool)
        ensures
            r == self.span.ended,
    {
        self.span.ended
    }
}

/// Law: while data is still flowing, the span stays open. A body
/// consumed through any number of chunk-yielding data-pulls, with no
/// terminal event yet, leaves the span exactly as the middleware handed
/// it over.
pub proof fn lemma_open_while_streaming(s: SpanRecord, events: Seq<BodyEvent>)
    requires
        !has_terminal(events),
    ensures
        proxy_run(s, events) == s,
    decreases events.len(),
{
    if events.len() > 0 {
        assert(events[0] == BodyEvent::Chunk);
        assert(!has_terminal(events.skip(1))) by {
            assert forall|i: int| 0 <= i < events.skip(1).len() implies events.skip(1)[i]
                == BodyEvent::Chunk by {
                assert(events.skip(1)[i] == events[i + 1]);
            }
        }
        lemma_open_while_streaming(s, events.skip(1));
    }
}

/// Law: over any sequence of body events, the span ends exactly when a
/// terminal event has occurred, and a well-formed open span is exported
/// exactly once by the first terminal event — no matter how many
/// terminal events follow it.
pub proof fn lemma_closed_exactly_once(s: SpanRecord, events: Seq<BodyEvent>)
    requires
        s.wf(),
    ensures
        proxy_run(s, events).wf(),
        proxy_run(s, events).ended == (s.ended || has_terminal(events)),
        proxy_run(s, events).exports == if s.ended || has_terminal(events) {
            1u64
        } else {
            0u64
        },
    decreases events.len(),
{
    if events.len() > 0 {
        let s1 = proxy_step(s, events[0]);
        assert(s1.wf());
        lemma_closed_exactly_once(s1, events.skip(1));
        assert(has_terminal(events) == (events[0] != BodyEvent::Chunk || has_terminal(
            events.skip(1),
        ))) by {
            if events[0] != BodyEvent::Chunk {
                assert(has_terminal(events));
            }
            if has_terminal(events.skip(1)) {
                let i = choose|i: int|
                    0 <= i < events.skip(1).len() && events.skip(1)[i] != BodyEvent::Chunk;
                assert(events[i + 1] != BodyEvent::Chunk);
                assert(has_terminal(events));
            }
            if has_terminal(events) && events[0] == BodyEvent::Chunk {
                let i = choose|i: int| 0 <= i < events.len() && events[i] != BodyEvent::Chunk;
                assert(events.skip(1)[i - 1] != BodyEvent::Chunk);
                assert(has_terminal(events.skip(1)));
            }
        }
    }
}

} // verus!
