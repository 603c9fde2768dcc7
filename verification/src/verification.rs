//! The one-shot verification protocol between the input-reading task and
//! the render loop. The input task compares each submitted line against the
//! hidden code; the first match — and only the first — asks for the single
//! solved signal to be sent over the channel. The transport itself (a
//! channel polled non-blockingly by the render loop) is plumbing around
//! this logic and carries exactly the signal message defined here.

use vstd::prelude::*;

verus! {

/// The solved signal: the ASCII bytes of `SOLVED`.
pub open spec fn spec_is_solved_signal(m: Seq<u8>) -> bool {
    m == seq![83u8, 79u8, 76u8, 86u8, 69u8, 68u8]
}

/// The message the input task sends when the code is first matched.
pub fn solved_message() -> (r: Vec<u8>)
    ensures
        spec_is_solved_signal(r@),
{
    let mut r: Vec<u8> = Vec::new();
    r.push(83);
    r.push(79);
    r.push(76);
    r.push(86);
    r.push(69);
    r.push(68);
    proof {
        assert(r@ =~= seq![83u8, 79u8, 76u8, 86u8, 69u8, 68u8]);
    }
    r
}

/// True exactly when `msg` is the solved signal.
pub fn is_solved_message(msg: &Vec<u8>) -> (r: bool)
    ensures
        r == spec_is_solved_signal(msg@),
{
    let expected = solved_message();
    let r = *msg == expected;
    proof {
        if msg@.len() == expected@.len() && (forall|i: int|
            0 <= i < msg@.len() ==> msg@[i] == expected@[i]) {
            assert(msg@ =~= expected@);
        }
        if msg@ == expected@ {
            assert(msg@.len() == expected@.len());
        }
    }
    r
}

/// What the input task does with one submitted line.
#[derive(Clone, Copy, Debug, PartialEq, Eq, Structural)]
pub enum LineOutcome {
    /// The line matches the hidden code for the first time: the single
    /// solved signal is to be sent.
    Signal,
    /// The line matches, but the signal was already sent: report success
    /// again, send nothing.
    AlreadySolved,
    /// The line does not match the hidden code.
    Mismatch,
}

/// The outcome the protocol prescribes for one line compared against
/// `code`, given whether the signal was already `sent`.
pub open spec fn spec_outcome(code: Seq<u8>, sent: bool, line: Seq<u8>) -> LineOutcome {
    if line == code {
        if sent {
            LineOutcome::AlreadySolved
        } else {
            LineOutcome::Signal
        }
    } else {
        LineOutcome::Mismatch
    }
}

/// The input task's state: the hidden code it compares submitted lines
/// against, held by value for the whole process lifetime, and whether the
/// one solved signal has been sent. `sent` only ever moves from false to
/// true.
pub struct InputTask {
    code: Vec<u8>,
    sent: bool,
}

impl InputTask {
    /// The code to match.
    pub closed spec fn spec_code(&self) -> Seq<u8> {
        self.code@
    }

    /// Whether the solved signal has been sent.
    pub closed spec fn spec_sent(&self) -> bool {
        self.sent
    }

    /// A task holding `code`, with the signal not yet sent.
    pub fn new(code: Vec<u8>) -> (r: InputTask)
        ensures
            r.spec_code() == code@,
            !r.spec_sent(),
    {
        InputTask { code, sent: false }
    }

    /// Classifies one submitted line and latches the sent flag on the
    /// first match. Returns `Signal` exactly when the caller must send the
    /// solved message; every later match is an `AlreadySolved` no-op.
    pub fn process_line(&mut self, line: &Vec<u8>) -> (r: LineOutcome)
        ensures
            final(self).spec_code() == old(self).spec_code(),
            final(self).spec_sent() == (old(self).spec_sent() || line@ == old(self).spec_code()),
            r == spec_outcome(old(self).spec_code(), old(self).spec_sent(), line@),
    {
        let matches = *line == self.code;
        proof {
            if line@.len() == self.code@.len() && (forall|i: int|
                0 <= i < line@.len() ==> line@[i] == self.code@[i]) {
                assert(line@ =~= self.code@);
            }
            if line@ == self.code@ {
                assert(line@.len() == self.code@.len());
            }
        }
        if matches {
            if self.sent {
                LineOutcome::AlreadySolved
            } else {
                self.sent = true;
                LineOutcome::Signal
            }
        } else {
            LineOutcome::Mismatch
        }
    }
}

/// Whether the signal counts as sent after processing `lines` in order,
/// starting from `sent`.
pub open spec fn sent_after(code: Seq<u8>, sent: bool, lines: Seq<Seq<u8>>) -> bool
    decreases lines.len(),
{
    if lines.len() == 0 {
        sent
    } else {
        sent_after(code, sent || lines[0] == code, lines.drop_first())
    }
}

/// How many solved signals processing `lines` in order emits, starting
/// from `sent`.
pub open spec fn signals_sent(code: Seq<u8>, sent: bool, lines: Seq<Seq<u8>>) -> int
    decreases lines.len(),
{
    if lines.len() == 0 {
        0
    } else {
        (if spec_outcome(code, sent, lines[0]) == LineOutcome::Signal {
            1int
        } else {
            0int
        }) + signals_sent(code, sent || lines[0] == code, lines.drop_first())
    }
}

/// Once the signal was sent, no later line emits another one.
pub proof fn lemma_no_signal_after_sent(code: Seq<u8>, lines: Seq<Seq<u8>>)
    ensures
        signals_sent(code, true, lines) == 0,
    decreases lines.len(),
{
    if lines.len() > 0 {
        lemma_no_signal_after_sent(code, lines.drop_first());
    }
}

/// Law: across the whole process lifetime — any sequence of submitted
/// lines — the solved signal is sent at most once, however many of the
/// lines match the hidden code.
pub proof fn lemma_signal_at_most_once(code: Seq<u8>, lines: Seq<Seq<u8>>)
    ensures
        signals_sent(code, false, lines) <= 1,
    decreases lines.len(),
{
    if lines.len() > 0 {
        if lines[0] == code {
            lemma_no_signal_after_sent(code, lines.drop_first());
        } else {
            lemma_signal_at_most_once(code, lines.drop_first());
        }
    }
}

} // verus!
