//! What the browser is told of a session from its beginning to its end.
use crate::rdp::{ServerEvent, ServerStatus};
use vstd::prelude::*;

verus! {

/// How far a session has come.
#[derive(Debug, Clone, Copy, PartialEq, Eq, Structural)]
pub enum Stage {
    /// It has not begun.
    New,
    /// It connects and logs in.
    Connecting,
    /// The login is done.
    Connected,
    /// It is over.
    Over,
}

/// What happens in the life of a session.
#[derive(Debug)]
pub enum LifecycleEvent {
    /// It begins.
    Begun,
    /// The login is done.
    LoggedIn,
    /// The graphics channel has something for the browser.
    Graphics(ServerEvent),
    /// It ended without an error.
    Ended,
    /// It ended with an error.
    Failed(String),
}

/// The stage behind an event.
pub open spec fn stage_behind(stage: Stage, event: LifecycleEvent) -> Stage {
    match (stage, event) {
        (Stage::New, LifecycleEvent::Begun) => Stage::Connecting,
        (Stage::Connecting, LifecycleEvent::LoggedIn) => Stage::Connected,
        (Stage::Connecting | Stage::Connected, LifecycleEvent::Ended) => Stage::Over,
        (Stage::Connecting | Stage::Connected, LifecycleEvent::Failed(_)) => Stage::Over,
        _ => stage,
    }
}

/// What the browser is told of an event.
pub open spec fn told_of(stage: Stage, event: LifecycleEvent) -> Option<ServerEvent> {
    match (stage, event) {
        (Stage::New, LifecycleEvent::Begun) => Some(ServerEvent::Status(ServerStatus::Connecting)),
        (Stage::Connecting, LifecycleEvent::LoggedIn) => Some(
            ServerEvent::Status(ServerStatus::Connected),
        ),
        (Stage::Connecting | Stage::Connected, LifecycleEvent::Graphics(event)) => Some(event),
        (Stage::Connecting | Stage::Connected, LifecycleEvent::Failed(message)) => Some(
            ServerEvent::Status(ServerStatus::Error { message }),
        ),
        _ => None,
    }
}

/// Follows a session from its beginning to its end.
#[derive(Debug)]
pub struct SessionLifecycle {
    pub stage: Stage,
}

impl SessionLifecycle {
    /// A session that has not begun.
    pub fn new() -> (lifecycle: SessionLifecycle)
        ensures
            lifecycle.stage == Stage::New,
    {
        SessionLifecycle { stage: Stage::New }
    }

    /// Takes what happened, and gives what to tell the browser of it.
    pub fn step(&mut self, event: LifecycleEvent) -> (told: Option<ServerEvent>)
        ensures
            told == told_of(old(self).stage, event),
            final(self).stage == stage_behind(old(self).stage, event),
    {
        match (self.stage, event) {
            (Stage::New, LifecycleEvent::Begun) => {
                self.stage = Stage::Connecting;
                Some(ServerEvent::Status(ServerStatus::Connecting))
            },
            (Stage::Connecting, LifecycleEvent::LoggedIn) => {
                self.stage = Stage::Connected;
                Some(ServerEvent::Status(ServerStatus::Connected))
            },
            (Stage::Connecting | Stage::Connected, LifecycleEvent::Graphics(event)) => Some(event),
            (Stage::Connecting | Stage::Connected, LifecycleEvent::Ended) => {
                self.stage = Stage::Over;
                None
            },
            (Stage::Connecting | Stage::Connected, LifecycleEvent::Failed(message)) => {
                self.stage = Stage::Over;
                Some(ServerEvent::Status(ServerStatus::Error { message }))
            },
            _ => None,
        }
    }
}

/// The stage behind a series of events.
pub open spec fn stage_after(events: Seq<LifecycleEvent>) -> Stage
    decreases events.len(),
{
    if events.len() == 0 {
        Stage::New
    } else {
        stage_behind(stage_after(events.drop_last()), events.last())
    }
}

/// All that the browser is told in a series of events, in order.
pub open spec fn told(events: Seq<LifecycleEvent>) -> Seq<ServerEvent>
    decreases events.len(),
{
    if events.len() == 0 {
        Seq::empty()
    } else {
        match told_of(stage_after(events.drop_last()), events.last()) {
            Some(event) => told(events.drop_last()).push(event),
            None => told(events.drop_last()),
        }
    }
}

/// What the graphics channel tells the browser: pictures, the desktop's size,
/// and errors, but not that the session connects or has connected.
pub open spec fn is_graphics(event: ServerEvent) -> bool {
    event is Video || event matches ServerEvent::Status(
        ServerStatus::DesktopSize { .. } | ServerStatus::Error { .. },
    )
}

/// The graphics channel tells only what is its own to tell.
pub open spec fn graphics_keep_to_theirs(events: Seq<LifecycleEvent>) -> bool {
    forall|i: int|
        0 <= i < events.len() ==> (#[trigger] events[i] matches LifecycleEvent::Graphics(event)
            ==> is_graphics(event))
}

/// The graphics channel has nothing for the browser before the login is done.
pub open spec fn graphics_follow_login(events: Seq<LifecycleEvent>) -> bool {
    forall|i: int|
        0 <= i < events.len() && #[trigger] events[i] is Graphics ==> stage_after(events.take(i))
            != Stage::Connecting
}

/// That the session connects.
pub open spec fn connecting() -> ServerEvent {
    ServerEvent::Status(ServerStatus::Connecting)
}

/// That the session has connected.
pub open spec fn connected() -> ServerEvent {
    ServerEvent::Status(ServerStatus::Connected)
}

/// Whether the item at `i` of what was told was told at the event at `j`.
pub open spec fn told_at(events: Seq<LifecycleEvent>, i: int, j: int) -> bool {
    &&& 0 <= j < events.len()
    &&& told(events.take(j)).len() == i
    &&& told_of(stage_after(events.take(j)), events[j]) is Some
}

proof fn lemma_earlier_events(events: Seq<LifecycleEvent>)
    requires
        events.len() > 0,
    ensures
        graphics_keep_to_theirs(events) ==> graphics_keep_to_theirs(events.drop_last()),
        graphics_follow_login(events) ==> graphics_follow_login(events.drop_last()),
{
    let before = events.drop_last();
    if graphics_keep_to_theirs(events) {
        assert forall|i: int| 0 <= i < before.len() implies (
        #[trigger] before[i] matches LifecycleEvent::Graphics(event) ==> is_graphics(event)) by {
            assert(before[i] == events[i]);
        }
    }
    if graphics_follow_login(events) {
        assert forall|i: int|
            0 <= i < before.len() && #[trigger] before[i] is Graphics implies stage_after(
            before.take(i),
        ) != Stage::Connecting by {
            assert(before[i] == events[i]);
            assert(before.take(i) =~= events.take(i));
        }
    }
}

proof fn lemma_over(events: Seq<LifecycleEvent>, n: int)
    requires
        0 <= n <= events.len(),
        stage_after(events.take(n)) == Stage::Over,
    ensures
        stage_after(events) == Stage::Over,
        told(events) == told(events.take(n)),
    decreases events.len(),
{
    if n == events.len() {
        assert(events.take(n) =~= events);
    } else {
        assert(events.drop_last().take(n) =~= events.take(n));
        lemma_over(events.drop_last(), n);
    }
}

proof fn lemma_told_before_begin(events: Seq<LifecycleEvent>)
    ensures
        told(events).len() == 0 <==> stage_after(events) == Stage::New,
    decreases events.len(),
{
    if events.len() > 0 {
        lemma_told_before_begin(events.drop_last());
    }
}

/// The first thing that the browser is told is that the session connects, and it
/// is told so once.
pub proof fn law_connecting_is_told_first(events: Seq<LifecycleEvent>)
    requires
        graphics_keep_to_theirs(events),
    ensures
        forall|i: int|
            0 <= i < told(events).len() ==> (#[trigger] told(events)[i] == connecting() <==> i
                == 0),
    decreases events.len(),
{
    if events.len() > 0 {
        let before = events.drop_last();
        lemma_earlier_events(events);
        law_connecting_is_told_first(before);
        lemma_told_before_begin(before);
        assert(events.last() == events[events.len() - 1]);
        assert forall|i: int| 0 <= i < told(events).len() implies (#[trigger] told(events)[i]
            == connecting() <==> i == 0) by {
            if i < told(before).len() {
                assert(told(events)[i] == told(before)[i]);
            }
        }
    }
}

/// The browser is told that the session has connected only at a finished login,
/// and told so once.
pub proof fn law_connected_is_told_at_login(events: Seq<LifecycleEvent>)
    requires
        graphics_keep_to_theirs(events),
    ensures
        forall|i: int|
            0 <= i < told(events).len() && #[trigger] told(events)[i] == connected() ==> exists|
                j: int,
            |
                #[trigger] told_at(events, i, j) && events[j] is LoggedIn,
        forall|i: int, k: int|
            0 <= i < told(events).len() && 0 <= k < told(events).len() && #[trigger] told(events)[i]
                == connected() && #[trigger] told(events)[k] == connected() ==> i == k,
        stage_after(events) == Stage::New || stage_after(events) == Stage::Connecting ==> !told(
            events,
        ).contains(connected()),
        stage_after(events) == Stage::Connected ==> told(events).contains(connected()),
    decreases events.len(),
{
    if events.len() > 0 {
        let before = events.drop_last();
        let n = before.len() as int;
        lemma_earlier_events(events);
        law_connected_is_told_at_login(before);
        assert(events.last() == events[n]);
        assert(events.take(n) =~= before);
        assert forall|i: int|
            0 <= i < told(events).len() && #[trigger] told(events)[i]
                == connected() implies exists|j: int| #[trigger]
            told_at(events, i, j) && events[j] is LoggedIn by {
            if i < told(before).len() {
                assert(told(events)[i] == told(before)[i]);
                let j = choose|j: int| #[trigger] told_at(before, i, j) && before[j] is LoggedIn;
                assert(before.take(j) =~= events.take(j));
                assert(told_at(events, i, j) && events[j] is LoggedIn);
            } else {
                assert(told_at(events, i, n) && events[n] is LoggedIn);
            }
        }
        assert forall|i: int, k: int|
            0 <= i < told(events).len() && 0 <= k < told(events).len() && #[trigger] told(events)[i]
                == connected() && #[trigger] told(events)[k] == connected() implies i == k by {
            if i < told(before).len() {
                assert(told(events)[i] == told(before)[i]);
                assert(told(before).contains(told(before)[i]));
            }
            if k < told(before).len() {
                assert(told(events)[k] == told(before)[k]);
                assert(told(before).contains(told(before)[k]));
            }
        }
        if told(events).contains(connected()) {
            let i = choose|i: int| 0 <= i < told(events).len() && told(events)[i] == connected();
            if i < told(before).len() {
                assert(told(before)[i] == connected());
            }
        }
        if told(before).contains(connected()) {
            let i = choose|i: int| 0 <= i < told(before).len() && told(before)[i] == connected();
            assert(told(events)[i] == connected());
        }
        if events.last() is LoggedIn && stage_after(before) == Stage::Connecting {
            assert(told(events)[told(before).len() as int] == connected());
        }
    }
}

/// Of a session that fails the browser is told the error, and nothing behind it.
pub proof fn law_nothing_is_told_behind_a_failure(
    events: Seq<LifecycleEvent>,
    i: int,
    message: String,
)
    requires
        0 <= i < events.len(),
        events[i] == LifecycleEvent::Failed(message),
        stage_after(events.take(i)) == Stage::Connecting || stage_after(events.take(i))
            == Stage::Connected,
    ensures
        told(events) == told(events.take(i)).push(
            ServerEvent::Status(ServerStatus::Error { message }),
        ),
{
    assert(events.take(i + 1).drop_last() =~= events.take(i));
    lemma_over(events, i + 1);
}

/// Of a session that ends without an error the browser is told nothing more.
pub proof fn law_nothing_is_told_behind_the_end(events: Seq<LifecycleEvent>, i: int)
    requires
        0 <= i < events.len(),
        events[i] is Ended,
        stage_after(events.take(i)) != Stage::New,
    ensures
        told(events) == told(events.take(i)),
{
    assert(events.take(i + 1).drop_last() =~= events.take(i));
    lemma_over(events, i + 1);
}

/// Pictures come behind the word that the session has connected, as long as the
/// graphics channel has nothing for the browser before the login is done.
pub proof fn law_video_follows_connected(events: Seq<LifecycleEvent>, i: int)
    requires
        graphics_keep_to_theirs(events),
        graphics_follow_login(events),
        0 <= i < told(events).len(),
        told(events)[i] is Video,
    ensures
        exists|k: int| 0 <= k < i && #[trigger] told(events)[k] == connected(),
    decreases events.len(),
{
    let before = events.drop_last();
    lemma_earlier_events(events);
    if i < told(before).len() {
        assert(told(events)[i] == told(before)[i]);
        law_video_follows_connected(before, i);
        let k = choose|k: int| 0 <= k < i && #[trigger] told(before)[k] == connected();
        assert(told(events)[k] == connected());
    } else {
        assert(events.last() == events[before.len() as int]);
        assert(events.take(before.len() as int) =~= before);
        law_connected_is_told_at_login(before);
        let k = choose|k: int| 0 <= k < told(before).len() && told(before)[k] == connected();
        assert(told(events)[k] == connected());
    }
}

/// What each event adds to what the browser was told: the beginning and the login
/// their status, and whatever the graphics channel has, as it is, while the
/// session runs.
pub proof fn law_what_each_event_adds(events: Seq<LifecycleEvent>, event: LifecycleEvent)
    ensures
        ({
            let before = told(events);
            let behind = told(events.push(event));
            let runs = stage_after(events) == Stage::Connecting || stage_after(events)
                == Stage::Connected;
            &&& stage_after(events) == Stage::New && event is Begun ==> behind == before.push(
                ServerEvent::Status(ServerStatus::Connecting),
            ) && stage_after(events.push(event)) == Stage::Connecting
            &&& stage_after(events) == Stage::Connecting && event is LoggedIn ==> behind
                == before.push(ServerEvent::Status(ServerStatus::Connected)) && stage_after(
                events.push(event),
            ) == Stage::Connected
            &&& event matches LifecycleEvent::Graphics(shown) ==> {
                &&& stage_after(events.push(event)) == stage_after(events)
                &&& runs ==> behind == before.push(shown)
            }
            &&& event is Ended && runs ==> stage_after(events.push(event)) == Stage::Over && behind
                == before
            &&& event matches LifecycleEvent::Failed(message) ==> (runs ==> stage_after(
                events.push(event),
            ) == Stage::Over && behind == before.push(
                ServerEvent::Status(ServerStatus::Error { message }),
            ))
            &&& stage_after(events) == Stage::Over ==> behind == before && stage_after(
                events.push(event),
            ) == Stage::Over
        }),
{
    assert(events.push(event).drop_last() =~= events);
}

}
