//! What holds of every run of a session.
use crate::input_laws;
use crate::rdp::ClientEvent;
use crate::session;
use crate::session::{
    ControlActionView, ControlPoll, Phase, ReadPoll, ResponseStep, SendStep, SessionEvent,
    SessionState, StageOutput,
};
use vstd::prelude::*;

verus! {

/// The state of a session behind a series of events.
pub open spec fn after(events: Seq<SessionEvent>) -> SessionState
    decreases events.len(),
{
    if events.len() == 0 {
        session::goes_on(Phase::DrainControl)
    } else {
        session::next_state(after(events.drop_last()), events.last())
    }
}

/// A run of a session: each event is one that the session waits for.
pub open spec fn is_run(events: Seq<SessionEvent>) -> bool
    decreases events.len(),
{
    events.len() > 0 ==> {
        &&& is_run(events.drop_last())
        &&& session::expects(after(events.drop_last()).phase, events.last())
    }
}

/// The browser is gone.
pub open spec fn browser_gone(event: SessionEvent) -> bool {
    event == SessionEvent::Control(ControlPoll::Closed)
}

/// The error of a resize or input that could not be sent, by what the browser had
/// asked for.
pub open spec fn sending_error(asked: SessionEvent, step: SendStep) -> Seq<char> {
    let resize = asked matches SessionEvent::Control(ControlPoll::Event(event)) && event is Resize;
    match step {
        SendStep::Encode => if resize {
            "encode RDP resize"@
        } else {
            "encode RDP input"@
        },
        SendStep::Write => if resize {
            "write resize frame"@
        } else {
            "write RDP input frame"@
        },
        SendStep::Flush => if resize {
            "flush resize frame"@
        } else {
            "flush RDP input frame"@
        },
    }
}

/// The error of the first output that ends the session, if one does.
pub open spec fn termination(outputs: Seq<StageOutput>) -> Option<Seq<char>> {
    if exists|i: int| is_first_end(outputs, i) {
        let i = choose|i: int| is_first_end(outputs, i);
        Some("RDP session terminated: "@ + outputs[i]->Terminate_0@)
    } else {
        None
    }
}

/// The output at `i` ends the session, and none before it does.
pub open spec fn is_first_end(outputs: Seq<StageOutput>, i: int) -> bool {
    &&& 0 <= i < outputs.len()
    &&& outputs[i] is Terminate
    &&& forall|j: int| 0 <= j < i ==> !(#[trigger] outputs[j] is Terminate)
}

/// The error that the last event of a run ends the session with, if it does.
pub open spec fn error_at_end(events: Seq<SessionEvent>) -> Option<Seq<char>> {
    match events.last() {
        SessionEvent::Sent(Some(step)) => Some(sending_error(events.drop_last().last(), step)),
        SessionEvent::Read(ReadPoll::Failed(error)) => Some("read RDP frame: "@ + error@),
        SessionEvent::Processed(None) => Some("process RDP frame"@),
        SessionEvent::Responded(Some(ResponseStep::Write)) => Some("write RDP response"@),
        SessionEvent::Responded(Some(ResponseStep::Flush)) => Some("flush RDP response"@),
        SessionEvent::Responded(None) => match events.drop_last().last() {
            SessionEvent::Processed(Some(outputs)) => termination(outputs@),
            _ => None,
        },
        _ => None,
    }
}

/// The events of the browser in a run, in order.
pub open spec fn heard(events: Seq<SessionEvent>) -> Seq<ClientEvent>
    decreases events.len(),
{
    if events.len() == 0 {
        Seq::empty()
    } else if let SessionEvent::Control(ControlPoll::Event(event)) = events.last() {
        heard(events.drop_last()).push(event)
    } else {
        heard(events.drop_last())
    }
}

/// What the session did about the browser's events in a run, in order.
pub open spec fn answered(events: Seq<SessionEvent>) -> Seq<ControlActionView>
    decreases events.len(),
{
    if events.len() == 0 {
        Seq::empty()
    } else {
        match events.last() {
            SessionEvent::Control(poll) if poll is Event => answered(events.drop_last()).push(
                session::action_of(poll),
            ),
            _ => answered(events.drop_last()),
        }
    }
}

proof fn lemma_run_prefix(events: Seq<SessionEvent>, n: int)
    requires
        is_run(events),
        0 <= n <= events.len(),
    ensures
        is_run(events.take(n)),
    decreases events.len(),
{
    if n == events.len() {
        assert(events.take(n) =~= events);
    } else {
        assert(events.drop_last().take(n) =~= events.take(n));
        lemma_run_prefix(events.drop_last(), n);
    }
}

/// What goes before and behind each step of a run.
proof fn lemma_step(events: Seq<SessionEvent>, i: int)
    requires
        is_run(events),
        0 <= i < events.len(),
    ensures
        is_run(events.take(i)),
        session::expects(after(events.take(i)).phase, events[i]),
        after(events.take(i + 1)) == session::next_state(after(events.take(i)), events[i]),
{
    lemma_run_prefix(events, i);
    lemma_run_prefix(events, i + 1);
    assert(events.take(i + 1).drop_last() =~= events.take(i));
}

/// A session ends without an error exactly when the browser is gone, and any
/// other end carries the error of the step that brought it.
pub proof fn law_only_the_browser_ends_a_session_well(events: Seq<SessionEvent>)
    requires
        is_run(events),
        events.len() > 0,
    ensures
        browser_gone(events.last()) <==> after(events).phase == Phase::Ended
            && after(events).failure is None,
        after(events).phase == Phase::Ended && !browser_gone(events.last())
            ==> error_at_end(events) is Some && after(events).failure == error_at_end(events),
        after(events).phase != Phase::Ended ==> error_at_end(events) is None,
{
    let before = events.drop_last();
    if events.last() is Responded {
        assert(before.len() > 0);
        assert(after(before).phase == Phase::SendResponse);
        assert(before.last() is Processed);
        if let SessionEvent::Processed(Some(outputs)) = before.last() {
            law_first_termination_ends_the_session(outputs@);
        }
    }
    if events.last() is Sent {
        assert(before.len() > 0);
        assert(before.last() is Control);
    }
}

/// A session that has ended does nothing more.
pub proof fn law_nothing_behind_the_end(events: Seq<SessionEvent>, i: int)
    requires
        is_run(events),
        0 <= i < events.len(),
    ensures
        after(events.take(i)).phase != Phase::Ended,
{
    lemma_step(events, i);
}

/// Every event of the browser is answered once, in the order in which they came.
pub proof fn law_every_event_is_answered_once(events: Seq<SessionEvent>)
    requires
        is_run(events),
    ensures
        answered(events) == heard(events).map_values(
            |event: ClientEvent| session::answer_to(event),
        ),
    decreases events.len(),
{
    let answer = |event: ClientEvent| session::answer_to(event);
    if events.len() > 0 {
        law_every_event_is_answered_once(events.drop_last());
        assert(answered(events) =~= heard(events).map_values(answer));
    } else {
        assert(answered(events) =~= heard(events).map_values(answer));
    }
}

/// What is to be done about an event is done, or fails, before anything else
/// happens; and nothing is sent that no event asked for.
pub proof fn law_answers_are_carried_out(events: Seq<SessionEvent>, i: int)
    requires
        is_run(events),
        0 <= i,
        i + 1 < events.len(),
    ensures
        events[i + 1] is Sent <==> {
            &&& events[i] matches SessionEvent::Control(ControlPoll::Event(event))
            &&& session::answer_to(event) !is Nothing
        },
{
    lemma_step(events, i);
    lemma_step(events, i + 1);
}

/// Once no event of the browser is left, the server is read from next.
pub proof fn law_server_is_read_when_the_browser_is_silent(events: Seq<SessionEvent>, i: int)
    requires
        is_run(events),
        0 <= i,
        i + 1 < events.len(),
    ensures
        events[i + 1] is Read <==> events[i] == SessionEvent::Control(ControlPoll::Empty),
{
    lemma_step(events, i);
    lemma_step(events, i + 1);
}

/// The server is only read from once every event of the browser that is there
/// has been seen to.
pub proof fn law_browser_is_heard_before_each_read(events: Seq<SessionEvent>, i: int)
    requires
        is_run(events),
        0 <= i < events.len(),
        events[i] is Read,
    ensures
        i > 0,
        events[i - 1] == SessionEvent::Control(ControlPoll::Empty),
{
    lemma_step(events, i);
    if i > 0 {
        lemma_step(events, i - 1);
    } else {
        assert(events.take(0) =~= Seq::empty());
    }
}

/// A frame of the server is handed to the protocol stack, and its responses are
/// sent, before anything else happens.
pub proof fn law_frames_are_answered(events: Seq<SessionEvent>, i: int)
    requires
        is_run(events),
        0 <= i,
        i + 1 < events.len(),
    ensures
        events[i + 1] is Processed <==> events[i] == SessionEvent::Read(ReadPoll::Frame),
        events[i + 1] is Responded <==> {
            &&& events[i] matches SessionEvent::Processed(outputs)
            &&& outputs is Some
        },
{
    lemma_step(events, i);
    lemma_step(events, i + 1);
}

/// A resize asks the server for the width and the height that the browser asks
/// for.
pub proof fn law_resize_is_passed_on(width: u16, height: u16)
    ensures
        session::answer_to(ClientEvent::Resize { width, height }) matches ControlActionView::Resize {
            width: asked_width,
            height: asked_height,
        } && asked_width == width && asked_height == height,
{
}

/// A resize is asked for exactly if the browser resized; two browsers that ask for
/// different sizes are answered differently.
pub proof fn law_resizes_are_told_apart(one: ClientEvent, other: ClientEvent)
    requires
        session::answer_to(one) is Resize,
        session::answer_to(one) == session::answer_to(other),
    ensures
        one is Resize,
        other is Resize,
        one->Resize_width == other->Resize_width,
        one->Resize_height == other->Resize_height,
{
}

/// Any other event is answered by the input events that it is sent as, or not at
/// all if it is sent as none.
pub proof fn law_input_is_passed_on(event: ClientEvent)
    requires
        event !is Resize,
    ensures
        input_laws::sent(event).len() == 0 ==> session::answer_to(event) is Nothing,
        input_laws::sent(event).len() > 0 ==> session::answer_to(event)
            == ControlActionView::SendInput(input_laws::sent(event)),
{
}

/// Only an event that is input is sent as input, and never an empty list.
pub proof fn law_no_empty_input(event: ClientEvent)
    ensures
        session::answer_to(event) matches ControlActionView::SendInput(events) ==> {
            &&& event !is Resize
            &&& events.len() > 0
        },
{
}

/// Outputs that come in two parts are handled as if they came in one, as long
/// as the first part does not end the session; if it does, the second part is
/// not looked at.
pub proof fn law_outputs_in_parts(first: Seq<StageOutput>, second: Seq<StageOutput>)
    ensures
        session::failure_of(first) is None ==> {
            &&& session::frames_of(first + second) == session::frames_of(first) + session::frames_of(second)
            &&& session::failure_of(first + second) == session::failure_of(second)
        },
        session::failure_of(first) is Some ==> {
            &&& session::frames_of(first + second) == session::frames_of(first)
            &&& session::failure_of(first + second) == session::failure_of(first)
        },
    decreases first.len(),
{
    if first.len() == 0 {
        assert(first + second =~= second);
        assert(Seq::<Seq<u8>>::empty() + session::frames_of(second) =~= session::frames_of(second));
    } else {
        assert((first + second).drop_first() =~= first.drop_first() + second);
        law_outputs_in_parts(first.drop_first(), second);
        if let StageOutput::ResponseFrame(frame) = first[0] {
            if session::failure_of(first) is None {
                assert(seq![frame@] + (session::frames_of(first.drop_first()) + session::frames_of(second)) =~= seq![
                    frame@,
                ] + session::frames_of(first.drop_first()) + session::frames_of(second));
            }
        }
    }
}

/// What one output alone brings about: a response is sent, a termination ends the
/// session with its reason, and nothing else is done.
pub proof fn law_one_output(output: StageOutput)
    ensures
        output matches StageOutput::ResponseFrame(frame) ==> session::frames_of(seq![output])
            == seq![frame@],
        output !is ResponseFrame ==> session::frames_of(seq![output]).len() == 0,
        output matches StageOutput::Terminate(reason) ==> session::failure_of(seq![output]) == Some(
            "RDP session terminated: "@ + reason@,
        ),
        output !is Terminate ==> session::failure_of(seq![output]) is None,
{
    let rest = seq![output].drop_first();
    assert(rest =~= Seq::empty());
    assert(session::frames_of(rest) =~= Seq::empty());
    assert(session::failure_of(rest) is None);
    if let StageOutput::ResponseFrame(frame) = output {
        assert(seq![frame@] + session::frames_of(rest) =~= seq![frame@]);
    }
}

/// The session is ended by the first output that wants it ended, with that
/// output's reason, and by nothing else.
pub proof fn law_first_termination_ends_the_session(outputs: Seq<StageOutput>)
    ensures
        session::failure_of(outputs) == termination(outputs),
    decreases outputs.len(),
{
    if outputs.len() == 0 {
        assert(!exists|i: int| is_first_end(outputs, i));
    } else {
        let rest = outputs.drop_first();
        law_first_termination_ends_the_session(rest);
        if outputs[0] is Terminate {
            assert(is_first_end(outputs, 0));
            let i = choose|i: int| is_first_end(outputs, i);
            assert(i == 0);
        } else {
            if exists|i: int| is_first_end(rest, i) {
                let i = choose|i: int| is_first_end(rest, i);
                assert(is_first_end(outputs, i + 1)) by {
                    assert forall|j: int| 0 <= j < i + 1 implies !(
                    #[trigger] outputs[j] is Terminate) by {
                        if j > 0 {
                            assert(outputs[j] == rest[j - 1]);
                        }
                    }
                }
                let k = choose|k: int| is_first_end(outputs, k);
                assert(k == i + 1) by {
                    assert(outputs[i + 1] is Terminate);
                    assert(outputs[k] is Terminate);
                }
            }
            if exists|i: int| is_first_end(outputs, i) {
                let i = choose|i: int| is_first_end(outputs, i);
                assert(i > 0);
                assert(is_first_end(rest, i - 1)) by {
                    assert forall|j: int| 0 <= j < i - 1 implies !(
                    #[trigger] rest[j] is Terminate) by {
                        assert(rest[j] == outputs[j + 1]);
                    }
                }
            }
        }
    }
}

/// The time limits: five seconds for an answer while the session is set up, and
/// five thousandths of a second for each look at the server while it runs.
pub proof fn law_time_limits()
    ensures
        session::CONNECT_READ_TIMEOUT_MILLIS == 5 * 1000,
        session::READ_TIMEOUT_MILLIS == 5,
{
}

}
