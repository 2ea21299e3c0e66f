use vstd::prelude::*;

verus! {

/// The identifying handle of a span as it travels between processes:
/// a sixteen-byte trace identifier, an eight-byte span identifier, and a
/// flag telling a remotely extracted context apart from a local one.
#[derive(Clone, Copy, Debug, PartialEq, Eq)]
pub struct SpanContext {
    pub trace_id: [u8; 16],
    pub span_id: [u8; 8],
    pub remote: bool,
}

/// The parent of a new span: either none (a root span), or a context
/// extracted from the incoming request's trace-propagation headers.
#[derive(Clone, Copy, Debug, PartialEq, Eq)]
pub enum Upstream {
    Root,
    Remote(SpanContext),
}

/// The kind a span is created with; this crate only ever creates
/// server-kind spans.
#[derive(Clone, Copy, Debug, PartialEq, Eq)]
pub enum SpanKind {
    Internal,
    Server,
    Client,
    Producer,
    Consumer,
}

/// The attribute keys this crate records on a request span.
#[derive(Clone, Copy, Debug, PartialEq, Eq)]
pub enum AttrKey {
    HttpMethod,
    HttpFlavor,
    HttpUrl,
    HttpTarget,
    HttpUserAgent,
    HttpStatusCode,
}

impl AttrKey {
    /// The wire name of the key, as the tracing back end expects it.
    pub open spec fn spec_name(self) -> Seq<char> {
        match self {
            AttrKey::HttpMethod => "http.method"@,
            AttrKey::HttpFlavor => "http.flavor"@,
            AttrKey::HttpUrl => "http.url"@,
            AttrKey::HttpTarget => "http.target"@,
            AttrKey::HttpUserAgent => "http.user_agent"@,
            AttrKey::HttpStatusCode => "http.status_code"@,
        }
    }

    pub fn name(&self) -> (r: &'static str)
        ensures
            r@ == self.spec_name(),
    {
        match self {
            AttrKey::HttpMethod => "http.method",
            AttrKey::HttpFlavor => "http.flavor",
            AttrKey::HttpUrl => "http.url",
            AttrKey::HttpTarget => "http.target",
            AttrKey::HttpUserAgent => "http.user_agent",
            AttrKey::HttpStatusCode => "http.status_code",
        }
    }
}

/// An attribute value: either text or a signed number.
#[derive(Clone, Debug, PartialEq, Eq)]
pub enum AttrValue {
    Text(String),
    Number(i64),
}

/// One key/value attribute recorded on a span.
#[derive(Clone, Debug, PartialEq, Eq)]
pub struct Attr {
    pub key: AttrKey,
    pub value: AttrValue,
}

/// The status classification of a span. It starts unset; on a server
/// error or a failed handler it becomes `Error` with a message.
#[derive(Clone, Debug, PartialEq, Eq)]
pub enum SpanStatus {
    Unset,
    Error { message: String },
}

/// The record of one span: what has been written to it so far, whether it
/// has been closed, and how often it was handed to the exporter.
///
/// The lifecycle invariant of the whole crate lives here: attributes,
/// status and exception events may only be written while the span is
/// open, and `end` exports the span exactly once no matter how often it
/// is called.
#[derive(Clone, Debug, PartialEq, Eq)]
pub struct SpanRecord {
    pub name: String,
    pub kind: SpanKind,
    pub parent: Upstream,
    pub links: Vec<SpanContext>,
    pub attributes: Vec<Attr>,
    pub status: SpanStatus,
    pub exceptions: Vec<String>,
    pub ended: bool,
    pub exports: u64,
}

/// Closing a span: the first close marks it ended and exports it; any
/// later close is a no-op.
pub open spec fn spec_end(s: SpanRecord) -> SpanRecord {
    SpanRecord {
        ended: true,
        exports: if s.ended {
            s.exports
        } else {
            (s.exports + 1) as u64
        },
        ..s
    }
}

impl SpanRecord {
    /// A span is well formed when it has been exported exactly once if
    /// and only if it has ended.
    pub open spec fn wf(self) -> bool {
        self.exports == if self.ended {
            1u64
        } else {
            0u64
        }
    }

    /// A freshly created span: open, unset status, nothing exported yet.
    pub fn new(
        name: String,
        kind: SpanKind,
        parent: Upstream,
        links: Vec<SpanContext>,
        attributes: Vec<Attr>,
    ) -> (s: SpanRecord)
        ensures
            s.name == name,
            s.kind == kind,
            s.parent == parent,
            s.links == links,
            s.attributes == attributes,
            s.status == SpanStatus::Unset,
            s.exceptions@ == Seq::<String>::empty(),
            !s.ended,
            s.exports == 0,
            s.wf(),
    {
        SpanRecord {
            name,
            kind,
            parent,
            links,
            attributes,
            status: SpanStatus::Unset,
            exceptions: Vec::new(),
            ended: false,
            exports: 0,
        }
    }

    /// Record one attribute. Spans are write-only before `end`: the
    /// caller must not write to a span that has been closed.
    pub fn set_attribute(&mut self, key: AttrKey, value: AttrValue)
        requires
            !old(self).ended,
        ensures
            final(self).attributes@ == old(self).attributes@.push(Attr { key, value }),
            *final(self) == (SpanRecord { attributes: final(self).attributes, ..*old(self) }),
    {
        self.attributes.push(Attr { key, value });
    }

    /// Set the status classification. Only legal while the span is open.
    pub fn set_status(&mut self, status: SpanStatus)
        requires
            !old(self).ended,
        ensures
            final(self).status == status,
            *final(self) == (SpanRecord { status: final(self).status, ..*old(self) }),
    {
        self.status = status;
    }

    /// Record an error as an exception event. Only legal while the span
    /// is open.
    pub fn record_exception(&mut self, message: String)
        requires
            !old(self).ended,
        ensures
            final(self).exceptions@ == old(self).exceptions@.push(message),
            *final(self) == (SpanRecord { exceptions: final(self).exceptions, ..*old(self) }),
    {
        self.exceptions.push(message);
    }

    /// Close the span. Safe to call more than once: only the first call
    /// ends the span and exports it, every later call changes nothing.
    pub fn end(&mut self)
        requires
            old(self).exports < u64::MAX,
        ensures
            *final(self) == spec_end(*old(self)),
    {
        if !self.ended {
            self.ended = true;
            self.exports = self.exports + 1;
        }
    }
}

/// Law: ending a span is idempotent. Ending an already ended span — as
/// happens when a body is polled to exhaustion and its trailers are then
/// fetched — changes nothing: no duplicate export, no other write.
pub proof fn lemma_end_idempotent(s: SpanRecord)
    ensures
        spec_end(spec_end(s)) == spec_end(s),
{
}

/// Law: the first close of an open span exports it exactly once.
pub proof fn lemma_first_end_exports_once(s: SpanRecord)
    requires
        !s.ended,
        s.exports < u64::MAX,
    ensures
        spec_end(s).ended,
        spec_end(s).exports == s.exports + 1,
{
}

} // verus!
