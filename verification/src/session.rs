//! The running RDP session: what to do with what the browser asks, what the
//! server sends, and what the protocol stack answers.
use crate::input;
use crate::input::{slow_input_events_from_client, InputEvent};
use crate::rdp::ClientEvent;
use crate::text;
use vstd::prelude::*;

verus! {

/// How long the server may stay silent while the session is set up.
pub const CONNECT_READ_TIMEOUT_MILLIS: u64 = 5000;

/// How long one wait for the server takes while the session runs.
pub const READ_TIMEOUT_MILLIS: u64 = 5;

/// What the session does next.
#[derive(Debug, Clone, Copy, PartialEq, Eq, Structural)]
pub enum Phase {
    /// It looks for the next event of the browser.
    DrainControl,
    /// It asks the server for another desktop size.
    SendResize,
    /// It sends input events.
    SendInput,
    /// It waits a short while for the next frame of the server.
    ReadFrame,
    /// It hands a frame of the server to the protocol stack.
    ProcessFrame,
    /// It sends what the protocol stack answered.
    SendResponse,
    /// Nothing: the session is over.
    Ended,
}

/// Where sending a resize or input failed.
#[derive(Debug, Clone, Copy, PartialEq, Eq, Structural)]
pub enum SendStep {
    Encode,
    Write,
    Flush,
}

/// Where sending a response failed.
#[derive(Debug, Clone, Copy, PartialEq, Eq, Structural)]
pub enum ResponseStep {
    Write,
    Flush,
}

/// What was found when the session looked for an event of the browser.
#[derive(Debug)]
pub enum ControlPoll {
    Event(ClientEvent),
    Empty,
    Closed,
}

/// What to do about an event of the browser.
#[derive(Debug)]
pub enum ControlAction {
    /// Ask the server for another desktop size.
    Resize { width: u32, height: u32 },
    /// Send the input events.
    SendInput(Vec<InputEvent>),
    /// Nothing.
    Nothing,
}

/// What was found when the session looked for a frame of the server.
#[derive(Debug)]
pub enum ReadPoll {
    /// A frame.
    Frame,
    /// The read would have to wait.
    WouldBlock,
    /// The read took too long.
    TimedOut,
    /// The read failed.
    Failed(String),
}

/// What the protocol stack wants done behind a frame.
#[derive(Debug)]
pub enum StageOutput {
    /// Send this to the server.
    ResponseFrame(Vec<u8>),
    /// A part of the classic bitmap changed.
    GraphicsUpdate,
    /// End the session, for this reason.
    Terminate(String),
    /// Anything else.
    Other,
}

/// The frames to send, in order, and then the error that ends the session, if
/// there is one.
#[derive(Debug)]
pub struct OutputPlan {
    pub frames: Vec<Vec<u8>>,
    pub failure: Option<String>,
}

/// A `ControlAction` with its input events as a sequence.
pub enum ControlActionView {
    Resize { width: u32, height: u32 },
    SendInput(Seq<InputEvent>),
    Nothing,
}

impl View for ControlAction {
    type V = ControlActionView;

    open spec fn view(&self) -> ControlActionView {
        match *self {
            ControlAction::Resize { width, height } => ControlActionView::Resize { width, height },
            ControlAction::SendInput(events) => ControlActionView::SendInput(events@),
            ControlAction::Nothing => ControlActionView::Nothing,
        }
    }
}

/// The input events of a browser event.
pub open spec fn input_of(event: ClientEvent) -> Seq<InputEvent> {
    input::slow_events(input::one_or_none(input::fast_event(event)))
}

/// What is done about an event of the browser.
pub open spec fn answer_to(event: ClientEvent) -> ControlActionView {
    match event {
        ClientEvent::Resize { width, height } => ControlActionView::Resize {
            width: width as u32,
            height: height as u32,
        },
        _ => if input_of(event).len() == 0 {
            ControlActionView::Nothing
        } else {
            ControlActionView::SendInput(input_of(event))
        },
    }
}

/// What is done behind a look for an event of the browser.
pub open spec fn action_of(poll: ControlPoll) -> ControlActionView {
    match poll {
        ControlPoll::Event(event) => answer_to(event),
        ControlPoll::Empty | ControlPoll::Closed => ControlActionView::Nothing,
    }
}

/// The phase in which an answer is carried out.
pub open spec fn phase_of_answer(answer: ControlActionView) -> Phase {
    match answer {
        ControlActionView::Resize { .. } => Phase::SendResize,
        ControlActionView::SendInput(_) => Phase::SendInput,
        ControlActionView::Nothing => Phase::DrainControl,
    }
}

/// The phase behind a look for an event of the browser.
pub open spec fn phase_behind_control(poll: ControlPoll) -> Phase {
    match poll {
        ControlPoll::Event(event) => phase_of_answer(answer_to(event)),
        ControlPoll::Empty => Phase::ReadFrame,
        ControlPoll::Closed => Phase::Ended,
    }
}

/// The error of sending a resize or input that failed.
pub open spec fn send_failure(phase: Phase, step: SendStep) -> Seq<char> {
    match (phase, step) {
        (Phase::SendResize, SendStep::Encode) => "encode RDP resize"@,
        (Phase::SendResize, SendStep::Write) => "write resize frame"@,
        (Phase::SendResize, SendStep::Flush) => "flush resize frame"@,
        (_, SendStep::Encode) => "encode RDP input"@,
        (_, SendStep::Write) => "write RDP input frame"@,
        (_, SendStep::Flush) => "flush RDP input frame"@,
    }
}

/// The error of sending a response that failed.
pub open spec fn response_failure(step: ResponseStep) -> Seq<char> {
    match step {
        ResponseStep::Write => "write RDP response"@,
        ResponseStep::Flush => "flush RDP response"@,
    }
}

/// The frames that the outputs want sent, up to the first that ends the session.
pub open spec fn frames_of(outputs: Seq<StageOutput>) -> Seq<Seq<u8>>
    decreases outputs.len(),
{
    if outputs.len() == 0 {
        Seq::empty()
    } else {
        match outputs[0] {
            StageOutput::ResponseFrame(frame) => seq![frame@] + frames_of(outputs.drop_first()),
            StageOutput::Terminate(_) => Seq::empty(),
            _ => frames_of(outputs.drop_first()),
        }
    }
}

/// The error of the first output that ends the session.
pub open spec fn failure_of(outputs: Seq<StageOutput>) -> Option<Seq<char>>
    decreases outputs.len(),
{
    if outputs.len() == 0 {
        None
    } else {
        match outputs[0] {
            StageOutput::Terminate(reason) => Some("RDP session terminated: "@ + reason@),
            _ => failure_of(outputs.drop_first()),
        }
    }
}

/// What happens to a session.
pub enum SessionEvent {
    /// It looked for an event of the browser.
    Control(ControlPoll),
    /// It sent a resize or input, or failed to.
    Sent(Option<SendStep>),
    /// It looked for a frame of the server.
    Read(ReadPoll),
    /// The protocol stack took the frame, or failed to.
    Processed(Option<Vec<StageOutput>>),
    /// It sent the responses, or failed to.
    Responded(Option<ResponseStep>),
}

/// The state of a session: what it does next, and the error that ended it or
/// will end it once the responses are sent.
pub struct SessionState {
    pub phase: Phase,
    pub failure: Option<Seq<char>>,
}

/// A session that goes on.
pub open spec fn goes_on(phase: Phase) -> SessionState {
    SessionState { phase, failure: None }
}

/// A session that ended with an error.
pub open spec fn fails(error: Seq<char>) -> SessionState {
    SessionState { phase: Phase::Ended, failure: Some(error) }
}

/// Whether the event is one that a session waits for in the phase.
pub open spec fn expects(phase: Phase, event: SessionEvent) -> bool {
    match event {
        SessionEvent::Control(_) => phase == Phase::DrainControl,
        SessionEvent::Sent(_) => phase == Phase::SendResize || phase == Phase::SendInput,
        SessionEvent::Read(_) => phase == Phase::ReadFrame,
        SessionEvent::Processed(_) => phase == Phase::ProcessFrame,
        SessionEvent::Responded(_) => phase == Phase::SendResponse,
    }
}

/// The state of a session behind an event.
pub open spec fn next_state(state: SessionState, event: SessionEvent) -> SessionState {
    match event {
        SessionEvent::Control(poll) => goes_on(phase_behind_control(poll)),
        SessionEvent::Sent(None) => goes_on(Phase::DrainControl),
        SessionEvent::Sent(Some(step)) => fails(send_failure(state.phase, step)),
        SessionEvent::Read(ReadPoll::Frame) => goes_on(Phase::ProcessFrame),
        SessionEvent::Read(ReadPoll::WouldBlock) | SessionEvent::Read(ReadPoll::TimedOut) => goes_on(
            Phase::DrainControl,
        ),
        SessionEvent::Read(ReadPoll::Failed(error)) => fails("read RDP frame: "@ + error@),
        SessionEvent::Processed(Some(outputs)) => SessionState {
            phase: Phase::SendResponse,
            failure: failure_of(outputs@),
        },
        SessionEvent::Processed(None) => fails("process RDP frame"@),
        SessionEvent::Responded(None) => match state.failure {
            Some(error) => fails(error),
            None => goes_on(Phase::DrainControl),
        },
        SessionEvent::Responded(Some(step)) => fails(response_failure(step)),
    }
}

/// The loop of a running session, one step at a time.
#[derive(Debug)]
pub struct SessionDriver {
    pub phase: Phase,
    /// The error that ended the session, or that will end it once the responses
    /// are sent.
    pub failure: Option<String>,
}

impl View for SessionDriver {
    type V = SessionState;

    open spec fn view(&self) -> SessionState {
        SessionState { phase: self.phase, failure: text::optional(self.failure) }
    }
}

impl SessionDriver {
    /// A session that has just begun.
    pub fn new() -> (driver: SessionDriver)
        ensures
            driver@ == goes_on(Phase::DrainControl),
    {
        SessionDriver { phase: Phase::DrainControl, failure: None }
    }

    /// Takes what was found of the browser, and says what to do about it. Once
    /// nothing more is found the session reads from the server; once the browser
    /// is gone the session ends.
    pub fn control(&mut self, poll: ControlPoll) -> (action: ControlAction)
        requires
            old(self).phase == Phase::DrainControl,
        ensures
            action@ == action_of(poll),
            final(self)@ == next_state(old(self)@, SessionEvent::Control(poll)),
    {
        self.failure = None;
        match poll {
            ControlPoll::Event(ClientEvent::Resize { width, height }) => {
                self.phase = Phase::SendResize;
                ControlAction::Resize { width: width as u32, height: height as u32 }
            },
            ControlPoll::Event(event) => {
                let events = slow_input_events_from_client(&event);
                if events.is_empty() {
                    ControlAction::Nothing
                } else {
                    self.phase = Phase::SendInput;
                    ControlAction::SendInput(events)
                }
            },
            ControlPoll::Empty => {
                self.phase = Phase::ReadFrame;
                ControlAction::Nothing
            },
            ControlPoll::Closed => {
                self.phase = Phase::Ended;
                ControlAction::Nothing
            },
        }
    }

    /// Takes note of how sending a resize or input came out: a failure, given by
    /// where it came, ends the session.
    pub fn sent(&mut self, failed: Option<SendStep>)
        requires
            old(self).phase == Phase::SendResize || old(self).phase == Phase::SendInput,
        ensures
            final(self)@ == next_state(old(self)@, SessionEvent::Sent(failed)),
    {
        let resize = self.phase == Phase::SendResize;
        match failed {
            None => {
                self.phase = Phase::DrainControl;
                self.failure = None;
            },
            Some(step) => {
                let error = match step {
                    SendStep::Encode => if resize {
                        "encode RDP resize"
                    } else {
                        "encode RDP input"
                    },
                    SendStep::Write => if resize {
                        "write resize frame"
                    } else {
                        "write RDP input frame"
                    },
                    SendStep::Flush => if resize {
                        "flush resize frame"
                    } else {
                        "flush RDP input frame"
                    },
                };
                self.phase = Phase::Ended;
                self.failure = Some(error.to_owned());
            },
        }
    }

    /// Takes what was found of the server. A failed read ends the session; a
    /// read that only took too long does not.
    pub fn read(&mut self, poll: ReadPoll)
        requires
            old(self).phase == Phase::ReadFrame,
        ensures
            final(self)@ == next_state(old(self)@, SessionEvent::Read(poll)),
    {
        match poll {
            ReadPoll::Frame => {
                self.phase = Phase::ProcessFrame;
                self.failure = None;
            },
            ReadPoll::WouldBlock | ReadPoll::TimedOut => {
                self.phase = Phase::DrainControl;
                self.failure = None;
            },
            ReadPoll::Failed(error) => {
                self.phase = Phase::Ended;
                self.failure = Some("read RDP frame: ".to_owned().concat(error.as_str()));
            },
        }
    }

    /// Takes what the protocol stack wants done behind a frame, and gives the
    /// frames to send. A frame that the stack could not take ends the session.
    pub fn processed(&mut self, outputs: Option<Vec<StageOutput>>) -> (frames: Vec<Vec<u8>>)
        requires
            old(self).phase == Phase::ProcessFrame,
        ensures
            frames.deep_view() == match outputs {
                Some(outputs) => frames_of(outputs@),
                None => Seq::empty(),
            },
            final(self)@ == next_state(old(self)@, SessionEvent::Processed(outputs)),
    {
        match outputs {
            Some(outputs) => {
                let plan = write_outputs(outputs);
                self.phase = Phase::SendResponse;
                self.failure = plan.failure;
                plan.frames
            },
            None => {
                self.phase = Phase::Ended;
                self.failure = Some("process RDP frame".to_owned());
                let frames: Vec<Vec<u8>> = Vec::new();
                assert(frames.deep_view() =~= Seq::empty());
                frames
            },
        }
    }

    /// Takes note of how sending the responses came out. A failure, given by
    /// where it came, ends the session; otherwise it ends if the protocol stack
    /// wants it ended.
    pub fn responded(&mut self, failed: Option<ResponseStep>)
        requires
            old(self).phase == Phase::SendResponse,
        ensures
            final(self)@ == next_state(old(self)@, SessionEvent::Responded(failed)),
    {
        match failed {
            None => {
                self.phase = if self.failure.is_some() {
                    Phase::Ended
                } else {
                    Phase::DrainControl
                };
            },
            Some(step) => {
                let error = match step {
                    ResponseStep::Write => "write RDP response",
                    ResponseStep::Flush => "flush RDP response",
                };
                self.phase = Phase::Ended;
                self.failure = Some(error.to_owned());
            },
        }
    }
}

/// The frames to send behind a frame of the server, and the error that ends the
/// session, if the protocol stack wants it ended.
pub fn write_outputs(outputs: Vec<StageOutput>) -> (plan: OutputPlan)
    ensures
        plan.frames.deep_view() == frames_of(outputs@),
        text::optional(plan.failure) == failure_of(outputs@),
{
    let ghost all = outputs@;
    let mut frames: Vec<Vec<u8>> = Vec::new();
    assert(all.skip(0) =~= all);
    for output in it: outputs
        invariant
            it.seq() == all,
            frames_of(all) == frames.deep_view() + frames_of(all.skip(it.index() as int)),
            failure_of(all) == failure_of(all.skip(it.index() as int)),
    {
        let ghost rest = all.skip(it.index() as int);
        let ghost before = frames.deep_view();
        assert(rest[0] == output);
        assert(rest.drop_first() =~= all.skip(it.index() + 1));
        match output {
            StageOutput::ResponseFrame(frame) => {
                let ghost bytes = frame@;
                assert(frame.deep_view() =~= bytes);
                frames.push(frame);
                assert(frames.deep_view() =~= before.push(bytes));
                assert(before + (seq![bytes] + frames_of(rest.drop_first())) =~= before.push(bytes)
                    + frames_of(rest.drop_first()));
            },
            StageOutput::Terminate(reason) => {
                assert(before + Seq::<Seq<u8>>::empty() =~= before);
                return OutputPlan {
                    frames,
                    failure: Some(
                        "RDP session terminated: ".to_owned().concat(reason.as_str()),
                    ),
                };
            },
            StageOutput::GraphicsUpdate | StageOutput::Other => {},
        }
    }
    assert(all.skip(all.len() as int) =~= Seq::empty());
    assert(frames.deep_view() + Seq::<Seq<u8>>::empty() =~= frames.deep_view());
    OutputPlan { frames, failure: None }
}

}
