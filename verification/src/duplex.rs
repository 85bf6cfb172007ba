use vstd::prelude::*;
use vstd::string::is_ascii;
use vstd::string::StrSliceExecFns;
use vstd::string::StringExecFns;
use vstd::string::StringSliceAdditionalSpecFns;

verus! {

/// The view of an operator line once it has been framed for transmission:
/// the line itself followed by exactly one carriage-return terminator,
/// whether or not the line already ended with one.
pub open spec fn framed_view(line: Seq<char>) -> Seq<char> {
    line.push('\r')
}

/// Append the carriage-return terminator to one operator line.
pub fn frame_line(line: &str) -> (framed: String)
    ensures
        framed@ == framed_view(line@),
{
    let framed = String::from_str(line).concat("\r");
    proof {
        reveal_strlit("\r");
        assert(framed@ =~= line@.push('\r'));
    }
    framed
}

/// The bytes placed on the wire for one framed line: its UTF-8 bytes.
/// For ASCII text — the whole of the command language — they are exactly
/// the line's characters' byte values, terminator included.
pub fn transmit_payload(framed: &str) -> (bytes: Vec<u8>)
    ensures
        bytes@ == framed.spec_bytes(),
        is_ascii(framed) ==> bytes@ == Seq::new(framed@.len(), |i: int| framed@[i] as u8),
{
    let bytes = framed.as_bytes_vec();
    proof {
        broadcast use vstd::string::is_ascii_spec_bytes;

        if is_ascii(framed) {
            assert(bytes@ =~= Seq::new(framed@.len(), |i: int| framed@[i] as u8));
        }
    }
    bytes
}

/// The states of the duplex loop. One full iteration runs
/// `AwaitingInput -> Transmitting -> Receiving -> AwaitingInput`;
/// `Exiting` is terminal and is reached only from `AwaitingInput`.
#[derive(Clone, Copy, Debug, PartialEq, Eq, Structural)]
pub enum LoopState {
    AwaitingInput,
    Transmitting,
    Receiving,
    Exiting,
}

/// What the line editor hands back for one prompt: a submitted line,
/// an interrupt signal, an end-of-input signal, or some other failure.
pub enum OperatorEvent {
    Line(String),
    Interrupted,
    EndOfInput,
    Failed(String),
}

/// What the loop asks its caller to do after an operator event:
/// transmit the framed line over the channel, or wind the session down.
pub enum OperatorAction {
    Transmit(String),
    Finish,
}

/// The outcome of one write to the channel. A timeout is a liveness
/// bound, not a failure: the loop treats it exactly like completion.
pub enum TransmitOutcome {
    Completed(usize),
    TimedOut,
    Failed(String),
}

/// The outcome of one read from the channel: `Data(n)` means the first
/// `n` bytes of the caller's buffer were filled. A timeout means only
/// that no data arrived within the window.
pub enum ReceiveOutcome {
    Data(usize),
    TimedOut,
    Failed(String),
}

/// What the loop asks its caller to do after a receive outcome:
/// `output` is forwarded verbatim to the output stream, `report` goes
/// to the observability stream. Timeouts produce neither.
pub struct ReceiveEffect {
    pub output: Option<Vec<u8>>,
    pub report: Option<String>,
}

/// One interactive session: the loop's current state and the ordered,
/// append-only history of framed lines submitted so far.
pub struct Session {
    pub state: LoopState,
    pub history: Vec<String>,
}

/// The session model after a line is submitted while awaiting input:
/// the framed line is appended to the history and transmission begins.
pub open spec fn line_step(history: Seq<Seq<char>>, line: Seq<char>) -> (LoopState, Seq<
    Seq<char>,
>) {
    (LoopState::Transmitting, history.push(framed_view(line)))
}

/// The session model after a transmit outcome: receiving begins and the
/// history is untouched, whatever the outcome was.
pub open spec fn transmit_step(history: Seq<Seq<char>>, outcome: TransmitOutcome) -> (LoopState,
    Seq<Seq<char>>) {
    (LoopState::Receiving, history)
}

/// The session model after a receive outcome: the loop returns to the
/// prompt and the history is untouched, whatever the outcome was.
pub open spec fn receive_step(history: Seq<Seq<char>>, outcome: ReceiveOutcome) -> (LoopState,
    Seq<Seq<char>>) {
    (LoopState::AwaitingInput, history)
}

impl Session {
    /// Start a session at the prompt, with the history loaded by the
    /// history store (empty on a first run).
    pub fn begin(history: Vec<String>) -> (s: Session)
        ensures
            s.state == LoopState::AwaitingInput,
            s.history == history,
    {
        Session { state: LoopState::AwaitingInput, history }
    }

    /// React to one operator event at the prompt. A submitted line is
    /// framed with exactly one carriage return, recorded in the history,
    /// and handed back for transmission; an interrupt, end-of-input or
    /// editor failure ends the session.
    pub fn on_operator_event(&mut self, event: OperatorEvent) -> (action: OperatorAction)
        requires
            old(self).state == LoopState::AwaitingInput,
        ensures
            match event {
                OperatorEvent::Line(line) => {
                    &&& (final(self).state, final(self).history.deep_view()) == line_step(
                        old(self).history.deep_view(),
                        line@,
                    )
                    &&& final(self).history@.len() == old(self).history@.len() + 1
                    &&& final(self).history@.subrange(0, old(self).history@.len() as int) == old(
                        self,
                    ).history@
                    &&& (action matches OperatorAction::Transmit(payload) && payload@
                        == framed_view(line@))
                },
                _ => {
                    &&& final(self).state == LoopState::Exiting
                    &&& final(self).history == old(self).history
                    &&& action is Finish
                },
            },
    {
        match event {
            OperatorEvent::Line(line) => {
                let framed = frame_line(line.as_str());
                self.history.push(framed.clone());
                self.state = LoopState::Transmitting;
                proof {
                    assert(self.history.deep_view() =~= old(self).history.deep_view().push(
                        framed_view(line@),
                    ));
                    assert(self.history@.subrange(0, old(self).history@.len() as int) =~= old(
                        self,
                    ).history@);
                }
                OperatorAction::Transmit(framed)
            },
            _ => {
                self.state = LoopState::Exiting;
                OperatorAction::Finish
            },
        }
    }

    /// React to the outcome of one transmit. The loop always proceeds to
    /// receiving; a timeout is silent by design, and any other failure is
    /// handed back verbatim for the observability stream.
    pub fn on_transmit_outcome(&mut self, outcome: &TransmitOutcome) -> (report: Option<String>)
        requires
            old(self).state == LoopState::Transmitting,
        ensures
            (final(self).state, final(self).history.deep_view()) == transmit_step(
                old(self).history.deep_view(),
                *outcome,
            ),
            final(self).history == old(self).history,
            match outcome {
                TransmitOutcome::Failed(cause) => report matches Some(r) && r@ == cause@,
                _ => report is None,
            },
    {
        self.state = LoopState::Receiving;
        match outcome {
            TransmitOutcome::Failed(cause) => Some(cause.clone()),
            _ => None,
        }
    }

    /// React to the outcome of one receive. On `Data(n)` exactly the
    /// first `n` bytes of the buffer are forwarded to output, and nothing
    /// else; a timeout forwards nothing and reports nothing; any other
    /// failure is handed back for the observability stream. The loop
    /// always returns to the prompt.
    pub fn on_receive_outcome(&mut self, buffer: &Vec<u8>, outcome: &ReceiveOutcome) -> (effect:
        ReceiveEffect)
        requires
            old(self).state == LoopState::Receiving,
            outcome matches ReceiveOutcome::Data(n) ==> n <= buffer.len(),
        ensures
            (final(self).state, final(self).history.deep_view()) == receive_step(
                old(self).history.deep_view(),
                *outcome,
            ),
            final(self).history == old(self).history,
            match outcome {
                ReceiveOutcome::Data(n) => {
                    &&& (effect.output matches Some(bytes) && bytes@ == buffer@.subrange(
                        0,
                        *n as int,
                    ))
                    &&& effect.report is None
                },
                ReceiveOutcome::TimedOut => effect.output is None && effect.report is None,
                ReceiveOutcome::Failed(cause) => effect.output is None && (
                effect.report matches Some(r) && r@ == cause@),
            },
    {
        self.state = LoopState::AwaitingInput;
        match outcome {
            ReceiveOutcome::Data(n) => ReceiveEffect {
                output: Some(take_prefix(buffer, *n)),
                report: None,
            },
            ReceiveOutcome::TimedOut => ReceiveEffect { output: None, report: None },
            ReceiveOutcome::Failed(cause) => ReceiveEffect {
                output: None,
                report: Some(cause.clone()),
            },
        }
    }

    /// End the session, surrendering the history for persistence in
    /// submission order.
    pub fn finish(self) -> (history: Vec<String>)
        requires
            self.state == LoopState::Exiting,
        ensures
            history == self.history,
    {
        self.history
    }
}

/// Copy exactly the first `n` bytes of a read buffer: the bytes the
/// transport filled, and no others.
pub fn take_prefix(buffer: &Vec<u8>, n: usize) -> (out: Vec<u8>)
    requires
        n <= buffer.len(),
    ensures
        out@ == buffer@.subrange(0, n as int),
{
    let mut out: Vec<u8> = Vec::new();
    let mut i: usize = 0;
    while i < n
        invariant
            i <= n <= buffer.len(),
            out@ == buffer@.subrange(0, i as int),
        decreases n - i,
    {
        out.push(buffer[i]);
        i = i + 1;
        proof {
            assert(out@ =~= buffer@.subrange(0, i as int));
        }
    }
    out
}

/// A cycle in which transmit, receive or both merely time out leaves the
/// session model exactly as a cycle in which both complete: state and
/// history agree; only that iteration's output can differ.
pub proof fn lemma_timed_out_cycle_idempotent(
    history: Seq<Seq<char>>,
    line: Seq<char>,
    transmit: TransmitOutcome,
    receive: ReceiveOutcome,
)
    ensures
        ({
            let (s1, h1) = line_step(history, line);
            let (s2, h2) = transmit_step(h1, TransmitOutcome::TimedOut);
            let (s3, h3) = receive_step(h2, ReceiveOutcome::TimedOut);
            let (t2, g2) = transmit_step(h1, transmit);
            let (t3, g3) = receive_step(g2, receive);
            s3 == t3 && h3 == g3
        }),
{
}

} // verus!
