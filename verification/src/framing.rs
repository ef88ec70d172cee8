//! Line framing: the received byte stream is cut at line feeds into
//! protocol lines, a trailing carriage return is stripped, a partial
//! line is carried until the next read, and a line longer than the fixed
//! 128-byte bound (counting an eventual carriage return) is discarded
//! with an error event instead of a line.

use vstd::prelude::*;

use crate::linebuf::linebuf_as_slice;
use crate::linebuf::linebuf_clear;
use crate::linebuf::linebuf_len;
use crate::linebuf::linebuf_new;
use crate::linebuf::linebuf_push;
use crate::linebuf::linebuf_view;
use crate::protocol::dispatch_rel;
use crate::protocol::line_too_long_error;
use crate::protocol::opt_view;
use crate::protocol::spec_too_long_error;
use crate::protocol::PixelflutClient;
use crate::state::PixelflutIOWorkerState;

verus! {

/// `s` with one trailing carriage return removed, if it ends in one.
pub open spec fn strip_cr(s: Seq<u8>) -> Seq<u8> {
    if s.len() > 0 && s.last() == 13 {
        s.drop_last()
    } else {
        s
    }
}

/// The mathematical state of the assembler: the bytes of the line being
/// read, and whether that line already ran past the bound.
#[verifier::ext_equal]
pub struct AsmView {
    pub pending: Seq<u8>,
    pub overflowed: bool,
}

/// One framed outcome the assembler hands on.
pub enum LineEvent {
    /// A complete line, terminator and trailing carriage return removed.
    Line(Vec<u8>),
    /// A line ran past the bound and was discarded.
    TooLong,
}

/// The mathematical content of a [`LineEvent`].
pub enum LineEventView {
    Line(Seq<u8>),
    TooLong,
}

impl View for LineEvent {
    type V = LineEventView;

    open spec fn view(&self) -> LineEventView {
        match self {
            LineEvent::Line(l) => LineEventView::Line(l@),
            LineEvent::TooLong => LineEventView::TooLong,
        }
    }
}

/// The contents of a sequence of events.
pub open spec fn events_view(v: Seq<LineEvent>) -> Seq<LineEventView> {
    Seq::new(v.len(), |i: int| v[i]@)
}

/// How one received byte moves the assembler: a line feed completes the
/// pending line (or reports the overflow and recovers); any other byte
/// joins the pending line while it stays within the bound, and trips the
/// overflow marker once it would not.
pub open spec fn step(st: AsmView, b: u8) -> (AsmView, Option<LineEventView>) {
    if b == 10 {
        if st.overflowed {
            (AsmView { pending: Seq::empty(), overflowed: false }, Some(LineEventView::TooLong))
        } else {
            (
                AsmView { pending: Seq::empty(), overflowed: false },
                Some(LineEventView::Line(strip_cr(st.pending))),
            )
        }
    } else if st.overflowed {
        (st, None)
    } else if st.pending.len() < 128 {
        (AsmView { pending: st.pending.push(b), ..st }, None)
    } else {
        (AsmView { overflowed: true, ..st }, None)
    }
}

/// The events of an optional single event.
pub open spec fn opt_event(o: Option<LineEventView>) -> Seq<LineEventView> {
    match o {
        None => Seq::empty(),
        Some(e) => seq![e],
    }
}

/// The assembler state and the emitted events after a whole chunk of
/// received bytes, first byte first.
pub open spec fn run(st: AsmView, chunk: Seq<u8>) -> (AsmView, Seq<LineEventView>)
    decreases chunk.len(),
{
    if chunk.len() == 0 {
        (st, Seq::empty())
    } else {
        let first = step(st, chunk[0]);
        let rest = run(first.0, chunk.drop_first());
        (rest.0, opt_event(first.1) + rest.1)
    }
}

/// Feeding one more byte after a chunk acts on the state the chunk left
/// and appends that byte's events.
pub proof fn lemma_run_snoc(st: AsmView, chunk: Seq<u8>, b: u8)
    ensures
        run(st, chunk.push(b)).0 == step(run(st, chunk).0, b).0,
        run(st, chunk.push(b)).1 == run(st, chunk).1 + opt_event(step(run(st, chunk).0, b).1),
    decreases chunk.len(),
{
    let p = chunk.push(b);
    if chunk.len() == 0 {
        assert(p[0] == b);
        assert(p.drop_first() =~= Seq::<u8>::empty());
        assert(run(st, p) == (run(step(st, b).0, p.drop_first()).0, opt_event(step(st, b).1)
            + run(step(st, b).0, p.drop_first()).1));
        assert(run(step(st, b).0, p.drop_first()) == (step(st, b).0, Seq::<
            LineEventView,
        >::empty()));
        assert(run(st, chunk) == (st, Seq::<LineEventView>::empty()));
        assert(run(st, p).1 =~= run(st, chunk).1 + opt_event(step(run(st, chunk).0, b).1));
    } else {
        assert(p[0] == chunk[0]);
        assert(p.drop_first() =~= chunk.drop_first().push(b));
        lemma_run_snoc(step(st, chunk[0]).0, chunk.drop_first(), b);
        assert(run(st, p) == (run(step(st, p[0]).0, p.drop_first()).0, opt_event(
            step(st, p[0]).1,
        ) + run(step(st, p[0]).0, p.drop_first()).1));
        assert(run(st, chunk) == (run(step(st, chunk[0]).0, chunk.drop_first()).0, opt_event(
            step(st, chunk[0]).1,
        ) + run(step(st, chunk[0]).0, chunk.drop_first()).1));
        assert(run(st, p).1 =~= run(st, chunk).1 + opt_event(step(run(st, chunk).0, b).1));
    }
}

/// The per-connection line assembler: carries the partial line between
/// reads and hands out one event per completed line.
pub struct LineAssembler {
    linebuf: arrayvec::ArrayVec<u8, 128>,
    too_long: bool,
}

impl View for LineAssembler {
    type V = AsmView;

    closed spec fn view(&self) -> AsmView {
        AsmView { pending: linebuf_view(self.linebuf), overflowed: self.too_long }
    }
}

/// Copy the buffered line out, stripping one trailing carriage return.
fn take_line(buf: &arrayvec::ArrayVec<u8, 128>) -> (line: Vec<u8>)
    ensures
        line@ == strip_cr(linebuf_view(*buf)),
{
    let s: &[u8] = linebuf_as_slice(buf);
    let n: usize = s.len();
    let m: usize = if n > 0 && s[n - 1] == 13 {
        n - 1
    } else {
        n
    };
    let mut line: Vec<u8> = Vec::new();
    let mut i: usize = 0;
    while i < m
        invariant
            i <= m,
            m <= n,
            n == s@.len(),
            line@ == s@.take(i as int),
        decreases m - i,
    {
        line.push(s[i]);
        proof {
            assert(s@.take(i as int).push(s@[i as int]) =~= s@.take(i as int + 1));
        }
        i = i + 1;
    }
    proof {
        assert(line@ =~= strip_cr(linebuf_view(*buf)));
    }
    line
}

impl LineAssembler {
    /// The pending line always fits the bound.
    pub open spec fn wf(self) -> bool {
        self@.pending.len() <= 128
    }

    /// A fresh assembler: nothing pending, nothing overflowed.
    pub fn new() -> (a: Self)
        ensures
            a.wf(),
            a@ == (AsmView { pending: Seq::<u8>::empty(), overflowed: false }),
    {
        LineAssembler { linebuf: linebuf_new(), too_long: false }
    }

    /// Feed one received chunk: every line it completes becomes one
    /// event, in order, and the bytes after the last line feed stay
    /// pending for the next read.
    pub fn feed(&mut self, chunk: &[u8]) -> (events: Vec<LineEvent>)
        requires
            old(self).wf(),
        ensures
            final(self).wf(),
            final(self)@ == run(old(self)@, chunk@).0,
            events_view(events@) == run(old(self)@, chunk@).1,
    {
        let ghost st0 = self@;
        let mut events: Vec<LineEvent> = Vec::new();
        let n: usize = chunk.len();
        let mut i: usize = 0;
        proof {
            assert(chunk@.take(0) =~= Seq::<u8>::empty());
            assert(events_view(events@) =~= Seq::<LineEventView>::empty());
        }
        while i < n
            invariant
                i <= n,
                n == chunk@.len(),
                self.wf(),
                self@ == run(st0, chunk@.take(i as int)).0,
                events_view(events@) == run(st0, chunk@.take(i as int)).1,
            decreases n - i,
        {
            let ghost pre = self@;
            let ghost evs_pre = events_view(events@);
            let b = chunk[i];
            if b == 10 {
                if self.too_long {
                    self.too_long = false;
                    linebuf_clear(&mut self.linebuf);
                    events.push(LineEvent::TooLong);
                } else {
                    let line = take_line(&self.linebuf);
                    linebuf_clear(&mut self.linebuf);
                    events.push(LineEvent::Line(line));
                }
            } else if self.too_long {
                // the line already ran past the bound: drop the byte
            } else {
                let len = linebuf_len(&self.linebuf);
                if len < 128 {
                    linebuf_push(&mut self.linebuf, b);
                } else {
                    self.too_long = true;
                }
            }
            proof {
                lemma_run_snoc(st0, chunk@.take(i as int), b);
                assert(chunk@.take(i as int).push(b) =~= chunk@.take(i as int + 1));
                assert(self@ =~= step(pre, b).0);
                assert(events_view(events@) =~= evs_pre + opt_event(step(pre, b).1));
            }
            i = i + 1;
        }
        proof {
            assert(chunk@.take(n as int) =~= chunk@);
        }
        events
    }
}

/// How one framed event answers: a completed line is dispatched as a
/// protocol line; an overflowed line answers the too-long error and
/// changes nothing.
pub open spec fn event_rel(
    pre: PixelflutClient,
    pre_w: PixelflutIOWorkerState,
    ev: LineEventView,
    post: PixelflutClient,
    post_w: PixelflutIOWorkerState,
    resp: Option<Seq<u8>>,
) -> bool {
    match ev {
        LineEventView::Line(l) => dispatch_rel(pre, pre_w, l, post, post_w, resp),
        LineEventView::TooLong => {
            &&& post == pre
            &&& post_w == pre_w
            &&& resp == Some(spec_too_long_error())
        },
    }
}

/// Handle one framed event for a session: dispatch the line, or answer
/// the too-long error.
pub fn handle_line_event(
    client: &mut PixelflutClient,
    ev: &LineEvent,
    worker: &mut PixelflutIOWorkerState,
) -> (resp: Option<Vec<u8>>)
    requires
        old(worker).wf(),
    ensures
        final(worker).wf(),
        event_rel(
            *old(client),
            *old(worker),
            ev@,
            *final(client),
            *final(worker),
            opt_view(resp),
        ),
{
    match ev {
        LineEvent::Line(l) => client.dispatch_line(l.as_slice(), worker),
        LineEvent::TooLong => Some(line_too_long_error()),
    }
}

} // verus!
