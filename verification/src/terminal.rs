//! The terminal core: a bounded FIFO queue hands characters from the
//! interrupt-side producer (`put_char`) to the task-side consumer
//! (`process`), which assembles them into command lines with the
//! backspace/enter/overflow policy and re-arms itself as a one-shot task.
//!
//! The queue drops the incoming character when it is full: a lost keystroke
//! degrades gracefully, while growing from interrupt context would not.

use vstd::prelude::*;

verus! {

/// Capacity of the line buffer; filling it completes the line at once.
pub const LINE_CAPACITY: usize = 256;

/// Capacity of the pending-character queue; a character offered to a full
/// queue is dropped.
pub const QUEUE_CAPACITY: usize = 256;

/// Carriage return: completes the current line.
pub const CHAR_CR: u32 = 13;

/// Line feed, emitted after a carriage return when echoing.
pub const CHAR_LF: u32 = 10;

/// Backspace: removes the last buffered byte, if any.
pub const CHAR_BACKSPACE: u32 = 8;

/// Space, used in the visual erase sequence echoed for a backspace.
pub const CHAR_SPACE: u32 = 32;

/// The low byte of a character code, which is what the line buffer stores.
pub open spec fn low_byte(c: u32) -> u8 {
    (c % 256) as u8
}

/// The line buffer after feeding one character `c` to a buffer holding
/// `line`: carriage return and a filled buffer reset it, backspace shortens
/// it when possible, any other character is appended.
pub open spec fn line_after(line: Seq<u8>, c: u32) -> Seq<u8> {
    if c == CHAR_CR {
        Seq::empty()
    } else if c == CHAR_BACKSPACE {
        if line.len() > 0 {
            line.drop_last()
        } else {
            line
        }
    } else if line.len() + 1 == LINE_CAPACITY {
        Seq::empty()
    } else {
        line.push(low_byte(c))
    }
}

/// The completed command line, if feeding `c` completes one: a carriage
/// return dispatches the buffered bytes (possibly none), and the character
/// that fills the buffer dispatches the full buffer at once.
pub open spec fn completed_after(line: Seq<u8>, c: u32) -> Option<Seq<u8>> {
    if c == CHAR_CR {
        Some(line)
    } else if c == CHAR_BACKSPACE {
        None
    } else if line.len() + 1 == LINE_CAPACITY {
        Some(line.push(low_byte(c)))
    } else {
        None
    }
}

/// The characters echoed to the output while feeding `c`: a line break for
/// a completion, a visual erase sequence for an effective backspace, the
/// character itself otherwise. A backspace on an empty buffer echoes
/// nothing.
pub open spec fn echo_after(line: Seq<u8>, c: u32) -> Seq<u32> {
    if c == CHAR_CR {
        seq![CHAR_CR, CHAR_LF]
    } else if c == CHAR_BACKSPACE {
        if line.len() > 0 {
            seq![CHAR_BACKSPACE, CHAR_SPACE, CHAR_BACKSPACE]
        } else {
            Seq::empty()
        }
    } else if line.len() + 1 == LINE_CAPACITY {
        seq![c, CHAR_CR, CHAR_LF]
    } else {
        seq![c]
    }
}

/// The queue contents after offering `c` to a queue holding `pending`:
/// appended at the tail while there is room, dropped otherwise.
pub open spec fn put_spec(pending: Seq<u32>, c: u32) -> Seq<u32> {
    if pending.len() < QUEUE_CAPACITY {
        pending.push(c)
    } else {
        pending
    }
}

/// The views of the completed lines, in the order they were dispatched.
pub open spec fn lines_view(s: Seq<Vec<u8>>) -> Seq<Seq<u8>> {
    s.map_values(|v: Vec<u8>| v@)
}

/// The view of an optional completed line.
pub open spec fn completed_view(r: Option<Vec<u8>>) -> Option<Seq<u8>> {
    match r {
        Some(v) => Some(v@),
        None => None,
    }
}

/// What draining a queue holding `pending` into a line buffer holding
/// `line` produces, processing the characters strictly in queue order:
/// the final buffer contents, the completed lines in dispatch order, and
/// everything echoed along the way.
pub open spec fn drain_spec(line: Seq<u8>, pending: Seq<u32>) -> (Seq<u8>, Seq<Seq<u8>>, Seq<u32>)
    decreases pending.len(),
{
    if pending.len() == 0 {
        (line, Seq::empty(), Seq::empty())
    } else {
        let c = pending[0];
        let rest = drain_spec(line_after(line, c), pending.drop_first());
        let lines = match completed_after(line, c) {
            Some(l) => seq![l] + rest.1,
            None => rest.1,
        };
        (rest.0, lines, echo_after(line, c) + rest.2)
    }
}

/// What one character produced: the echoed characters, and the completed
/// command line if the character completed one.
pub struct CharOutcome {
    /// Characters to echo to the output.
    pub echo: Vec<u32>,
    /// The dispatched command line, if this character completed one.
    pub completed: Option<Vec<u8>>,
}

/// What one drain cycle produced: every completed command line in dispatch
/// order, and everything echoed along the way.
pub struct DrainOutcome {
    /// Completed command lines, in the order they were dispatched.
    pub lines: Vec<Vec<u8>>,
    /// Characters to echo to the output.
    pub echo: Vec<u32>,
}

/// The terminal core state: the pending-character queue filled from
/// interrupt context, the in-progress command line, and whether a drain
/// task is currently outstanding in the scheduler.
pub struct Terminal {
    queue: Vec<u32>,
    line: Vec<u8>,
    armed: bool,
}

impl Terminal {
    /// The pending characters, oldest first.
    pub closed spec fn pending(self) -> Seq<u32> {
        self.queue@
    }

    /// The bytes of the in-progress command line.
    pub closed spec fn line(self) -> Seq<u8> {
        self.line@
    }

    /// Whether a drain task is outstanding in the scheduler. The protocol
    /// keeps this a single yes/no: arming demands that no task is
    /// outstanding, and only the outstanding task itself drains and re-arms.
    pub closed spec fn armed(self) -> bool {
        self.armed
    }

    /// How many drain tasks are outstanding; never more than one.
    pub open spec fn outstanding_drains(self) -> nat {
        if self.armed() {
            1
        } else {
            0
        }
    }

    /// Well-formedness: the cursor stays strictly below the capacity
    /// (filling the buffer completes the line on the same character), and
    /// the queue never exceeds its bound.
    pub open spec fn wf(self) -> bool {
        &&& self.line().len() < LINE_CAPACITY
        &&& self.pending().len() <= QUEUE_CAPACITY
    }

    /// How many characters are pending in the queue.
    pub fn pending_len(&self) -> (n: usize)
        ensures
            n == self.pending().len(),
    {
        self.queue.len()
    }

    /// How many bytes the in-progress command line holds.
    pub fn line_len(&self) -> (n: usize)
        ensures
            n == self.line().len(),
    {
        self.line.len()
    }

    /// Whether a drain task is outstanding in the scheduler.
    pub fn is_armed(&self) -> (b: bool)
        ensures
            b == self.armed(),
    {
        self.armed
    }

    /// A fresh terminal: nothing pending, an empty line, no drain task
    /// outstanding yet.
    pub fn new() -> (t: Terminal)
        ensures
            t.wf(),
            t.pending() == Seq::<u32>::empty(),
            t.line() == Seq::<u8>::empty(),
            !t.armed(),
    {
        Terminal { queue: Vec::new(), line: Vec::new(), armed: false }
    }

    /// Records that the drain routine has been submitted to the scheduler
    /// as a one-shot task. Demanding that none is outstanding is what keeps
    /// the scheduler from ever holding two drain tasks at once.
    pub fn wait_char(&mut self)
        requires
            !old(self).armed(),
        ensures
            final(self).armed(),
            final(self).pending() == old(self).pending(),
            final(self).line() == old(self).line(),
    {
        self.armed = true;
    }

    /// Offers one character from interrupt context: appended to the queue
    /// tail while there is room, silently dropped otherwise. Never blocks,
    /// never allocates beyond the queue's bound, never touches the line
    /// buffer.
    pub fn put_char(&mut self, c: u32)
        requires
            old(self).wf(),
        ensures
            final(self).wf(),
            final(self).pending() == put_spec(old(self).pending(), c),
            final(self).line() == old(self).line(),
            final(self).armed() == old(self).armed(),
    {
        if self.queue.len() < QUEUE_CAPACITY {
            self.queue.push(c);
        }
    }

    /// Removes and returns the oldest pending character, or reports that
    /// none is pending. This single removal is the only step a bare-metal
    /// port performs with interrupts masked.
    pub fn get_pending_char(&mut self) -> (r: Option<u32>)
        requires
            old(self).wf(),
        ensures
            final(self).wf(),
            final(self).line() == old(self).line(),
            final(self).armed() == old(self).armed(),
            old(self).pending().len() == 0 ==> r is None && final(self).pending()
                == old(self).pending(),
            old(self).pending().len() > 0 ==> r == Some(old(self).pending()[0])
                && final(self).pending() == old(self).pending().drop_first(),
    {
        if self.queue.len() > 0 {
            let c = self.queue.remove(0);
            Some(c)
        } else {
            None
        }
    }

    /// Feeds one character through the line-assembly policy: carriage
    /// return completes the line (even an empty one), backspace shortens
    /// the line when it is non-empty and does nothing at all otherwise,
    /// any other character is stored; storing the byte that fills the
    /// buffer completes the line on that same character.
    pub fn process_char(&mut self, c: u32) -> (r: CharOutcome)
        requires
            old(self).wf(),
        ensures
            final(self).wf(),
            final(self).line() == line_after(old(self).line(), c),
            final(self).pending() == old(self).pending(),
            final(self).armed() == old(self).armed(),
            r.echo@ == echo_after(old(self).line(), c),
            completed_view(r.completed) == completed_after(old(self).line(), c),
    {
        let mut echo: Vec<u32> = Vec::new();
        if c == CHAR_CR {
            echo.push(CHAR_CR);
            echo.push(CHAR_LF);
            let mut done: Vec<u8> = Vec::new();
            core::mem::swap(&mut done, &mut self.line);
            CharOutcome { echo, completed: Some(done) }
        } else if c == CHAR_BACKSPACE {
            if self.line.len() > 0 {
                echo.push(CHAR_BACKSPACE);
                echo.push(CHAR_SPACE);
                echo.push(CHAR_BACKSPACE);
                self.line.pop();
            }
            CharOutcome { echo, completed: None }
        } else {
            let b: u8 = (c % 256) as u8;
            self.line.push(b);
            echo.push(c);
            if self.line.len() == LINE_CAPACITY {
                echo.push(CHAR_CR);
                echo.push(CHAR_LF);
                let mut done: Vec<u8> = Vec::new();
                core::mem::swap(&mut done, &mut self.line);
                CharOutcome { echo, completed: Some(done) }
            } else {
                CharOutcome { echo, completed: None }
            }
        }
    }

    /// Drains every pending character through the line-assembly policy,
    /// strictly in the order the characters were queued, then re-arms the
    /// drain task. Runs only as the body of the one outstanding drain task;
    /// when the queue is already empty it performs no transition and
    /// re-arms immediately.
    pub fn process(&mut self) -> (r: DrainOutcome)
        requires
            old(self).wf(),
            old(self).armed(),
        ensures
            final(self).wf(),
            final(self).armed(),
            final(self).pending() == Seq::<u32>::empty(),
            final(self).line() == drain_spec(old(self).line(), old(self).pending()).0,
            lines_view(r.lines@) == drain_spec(old(self).line(), old(self).pending()).1,
            r.echo@ == drain_spec(old(self).line(), old(self).pending()).2,
            old(self).pending().len() == 0 ==> r.lines@.len() == 0 && r.echo@.len() == 0
                && final(self).line() == old(self).line(),
    {
        // Running means the scheduler has consumed the one-shot descriptor:
        // no drain task is outstanding until this run re-arms at the end.
        self.armed = false;
        let mut lines: Vec<Vec<u8>> = Vec::new();
        let mut echo: Vec<u32> = Vec::new();
        let ghost l0 = self.line();
        let ghost q0 = self.pending();
        loop
            invariant
                self.wf(),
                !self.armed(),
                drain_spec(l0, q0).0 == drain_spec(self.line(), self.pending()).0,
                drain_spec(l0, q0).1 == lines_view(lines@) + drain_spec(
                    self.line(),
                    self.pending(),
                ).1,
                drain_spec(l0, q0).2 == echo@ + drain_spec(self.line(), self.pending()).2,
            ensures
                self.wf(),
                !self.armed(),
                self.pending().len() == 0,
                self.line() == drain_spec(l0, q0).0,
                lines_view(lines@) == drain_spec(l0, q0).1,
                echo@ == drain_spec(l0, q0).2,
            decreases self.pending().len(),
        {
            let next = self.get_pending_char();
            match next {
                None => {
                    break ;
                },
                Some(c) => {
                    let out = self.process_char(c);
                    let mut e = out.echo;
                    echo.append(&mut e);
                    match out.completed {
                        Some(l) => {
                            lines.push(l);
                        },
                        None => {},
                    }
                },
            }
        }
        self.wait_char();
        DrainOutcome { lines, echo }
    }
}

/// At any instant at most one drain task is outstanding in the scheduler:
/// arming demands that none is, and only the outstanding task itself, once
/// running, re-arms.
pub proof fn lemma_at_most_one_drain(t: Terminal)
    ensures
        t.outstanding_drains() <= 1,
{
}

/// Backspace safety: fed to an empty line buffer, a backspace changes
/// nothing, completes nothing, and echoes nothing.
pub proof fn lemma_backspace_safe(line: Seq<u8>)
    requires
        line.len() == 0,
    ensures
        line_after(line, CHAR_BACKSPACE) == line,
        completed_after(line, CHAR_BACKSPACE) is None,
        echo_after(line, CHAR_BACKSPACE) == Seq::<u32>::empty(),
{
}

/// Buffer bound: one step never leaves the cursor at or beyond the
/// capacity, and the very character that would fill the buffer completes
/// the line instead, dispatching all the buffered bytes.
pub proof fn lemma_buffer_bound(line: Seq<u8>, c: u32)
    requires
        line.len() < LINE_CAPACITY,
    ensures
        line_after(line, c).len() < LINE_CAPACITY,
        line.len() + 1 == LINE_CAPACITY && c != CHAR_CR && c != CHAR_BACKSPACE
            ==> completed_after(line, c) == Some(line.push(low_byte(c)))
            && line_after(line, c).len() == 0,
{
}

/// Idempotent drain-on-empty: draining an empty queue performs no
/// line-assembler transition, dispatches nothing, and echoes nothing.
pub proof fn lemma_drain_empty(line: Seq<u8>)
    ensures
        drain_spec(line, Seq::empty()) == (line, Seq::<Seq<u8>>::empty(), Seq::<u32>::empty()),
{
}

/// The queue contents after offering every character of `cs` in order to a
/// queue holding `pending`, with no drain in between.
pub open spec fn put_all(pending: Seq<u32>, cs: Seq<u32>) -> Seq<u32>
    decreases cs.len(),
{
    if cs.len() == 0 {
        pending
    } else {
        put_all(put_spec(pending, cs[0]), cs.drop_first())
    }
}

/// FIFO ordering under the drop-newest overflow policy: offering `cs` to a
/// queue holding `pending` keeps the queued characters in offer order, and
/// keeps exactly the earliest offers for which there was room — every later
/// offer is the one dropped.
pub proof fn lemma_fifo_order(pending: Seq<u32>, cs: Seq<u32>)
    requires
        pending.len() <= QUEUE_CAPACITY,
    ensures
        put_all(pending, cs) == pending + cs.take(
            if pending.len() + cs.len() <= QUEUE_CAPACITY {
                cs.len() as int
            } else {
                QUEUE_CAPACITY - pending.len()
            },
        ),
    decreases cs.len(),
{
    if cs.len() == 0 {
        assert(pending + cs.take(0) =~= pending);
    } else {
        let c = cs[0];
        let rest = cs.drop_first();
        if pending.len() < QUEUE_CAPACITY {
            lemma_fifo_order(pending.push(c), rest);
            let keep = if pending.len() + 1 + rest.len() <= QUEUE_CAPACITY {
                rest.len() as int
            } else {
                QUEUE_CAPACITY - pending.len() - 1
            };
            assert(pending.push(c) + rest.take(keep) =~= pending + cs.take(keep + 1));
        } else {
            lemma_fifo_order(pending, rest);
            assert(pending + rest.take(0) =~= pending + cs.take(0));
        }
    }
}

/// Drop-newest from empty: offering `cs` to an initially empty queue, with
/// no drain in between, queues exactly the earliest characters that fit —
/// so the next drain observes them in offer order and every later offer is
/// the one provably dropped.
pub proof fn lemma_drop_newest_from_empty(cs: Seq<u32>)
    ensures
        put_all(Seq::empty(), cs) == cs.take(
            if cs.len() <= QUEUE_CAPACITY {
                cs.len() as int
            } else {
                QUEUE_CAPACITY as int
            },
        ),
{
    lemma_fifo_order(Seq::empty(), cs);
    let keep = if cs.len() <= QUEUE_CAPACITY {
        cs.len() as int
    } else {
        QUEUE_CAPACITY as int
    };
    assert(Seq::empty() + cs.take(keep) =~= cs.take(keep));
}

} // verus!
