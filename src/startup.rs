//! The one-shot startup sequence, as a state machine driven by its caller.
//!
//! The caller feeds events in and performs the action that each step hands
//! back: it shows the startup alert, makes the echo call, then starts the
//! engine's run loop with the configuration it is given. Once the run loop
//! has started nothing moves the sequence out of `Stage::Running`.

use vstd::prelude::*;
use crate::config::{AppConfig, game_config, render_target};
use crate::host::{HostCall, HostCallView, startup_alert, startup_echo, startup_text};

verus! {

/// How far the startup sequence has come.
#[derive(Clone, Copy, Debug, PartialEq, Eq, Structural)]
pub enum Stage {
    /// Loaded by the host; nothing done yet.
    Loaded,
    /// The startup alert was handed out; waiting for it to return.
    Notifying,
    /// The echo call was handed out; waiting for its result.
    Echoing,
    /// The run loop was started.
    Running,
}

/// What happened since the last step.
#[derive(Clone, Copy, Debug, PartialEq, Eq, Structural)]
pub enum Event {
    /// The host invoked the start entry point.
    Start,
    /// The startup alert returned.
    AlertDone,
    /// The echo call returned the given value.
    EchoDone(i32),
}

/// What the caller is to do next.
#[derive(Debug)]
pub enum Action {
    /// Make this call into the host.
    Call(HostCall),
    /// Start the engine's run loop with this configuration.
    Run(AppConfig),
    /// Nothing.
    Idle,
}

/// An action, with its host call viewed and its configuration reduced to
/// the render-target selector.
pub ghost enum ActionView {
    Call(HostCallView),
    Run(Option<Seq<char>>),
    Idle,
}

impl View for Action {
    type V = ActionView;

    open spec fn view(&self) -> ActionView {
        match self {
            Action::Call(c) => ActionView::Call(c@),
            Action::Run(cfg) => ActionView::Run(cfg.canvas_spec()),
            Action::Idle => ActionView::Idle,
        }
    }
}

/// One step of the sequence: the next stage and the action to perform.
pub open spec fn transition(stage: Stage, event: Event) -> (Stage, ActionView) {
    match (stage, event) {
        (Stage::Loaded, Event::Start) => (
            Stage::Notifying,
            ActionView::Call(HostCallView::Alert(startup_text())),
        ),
        (Stage::Notifying, Event::AlertDone) => (
            Stage::Echoing,
            ActionView::Call(HostCallView::Echo(5)),
        ),
        (Stage::Echoing, Event::EchoDone(_)) => (
            Stage::Running,
            ActionView::Run(Some(render_target())),
        ),
        _ => (stage, ActionView::Idle),
    }
}

/// The stage after a sequence of events.
pub open spec fn stage_after(stage: Stage, events: Seq<Event>) -> Stage
    decreases events.len(),
{
    if events.len() == 0 {
        stage
    } else {
        stage_after(transition(stage, events[0]).0, events.drop_first())
    }
}

/// The actions handed out over a sequence of events, in order.
pub open spec fn actions(stage: Stage, events: Seq<Event>) -> Seq<ActionView>
    decreases events.len(),
{
    if events.len() == 0 {
        Seq::empty()
    } else {
        let (next, a) = transition(stage, events[0]);
        seq![a].add(actions(next, events.drop_first()))
    }
}

/// The actions other than `Idle`, in order.
pub open spec fn effects(s: Seq<ActionView>) -> Seq<ActionView>
    decreases s.len(),
{
    if s.len() == 0 {
        Seq::empty()
    } else if s[0] is Idle {
        effects(s.drop_first())
    } else {
        seq![s[0]].add(effects(s.drop_first()))
    }
}

/// The effects that a stage has still to produce, in order.
pub open spec fn pending(stage: Stage) -> Seq<ActionView> {
    let alert = ActionView::Call(HostCallView::Alert(startup_text()));
    let echo = ActionView::Call(HostCallView::Echo(5));
    let run = ActionView::Run(Some(render_target()));
    match stage {
        Stage::Loaded => seq![alert, echo, run],
        Stage::Notifying => seq![echo, run],
        Stage::Echoing => seq![run],
        Stage::Running => Seq::empty(),
    }
}

/// Whatever events arrive, the actions other than `Idle` come out in the
/// order alert, echo, run: they are always a prefix of what the starting
/// stage has still to produce, so the alert precedes the echo call and both
/// precede the run loop, and none is handed out twice.
pub proof fn lemma_effects_in_order(stage: Stage, events: Seq<Event>)
    ensures
        effects(actions(stage, events)).len() <= pending(stage).len(),
        effects(actions(stage, events)) == pending(stage).subrange(
            0,
            effects(actions(stage, events)).len() as int,
        ),
    decreases events.len(),
{
    if events.len() > 0 {
        let (next, a) = transition(stage, events[0]);
        let rest = actions(next, events.drop_first());
        lemma_effects_in_order(next, events.drop_first());
        assert(actions(stage, events) == seq![a].add(rest));
        assert(seq![a].add(rest).drop_first() == rest);
        if a is Idle {
            assert(next == stage);
        } else {
            assert(pending(stage).drop_first() == pending(next));
            assert(effects(actions(stage, events)) == seq![a].add(effects(rest)));
            assert(effects(actions(stage, events)) =~= pending(stage).subrange(
                0,
                effects(actions(stage, events)).len() as int,
            ));
        }
    }
}

/// The startup sequence as the host drives it: start, the alert returns,
/// the echo returns any value. The actions are the startup alert, the echo
/// call with 5, and the run loop bound to the render target, in this order,
/// and the sequence ends running.
pub proof fn lemma_startup_sequence(v: i32)
    ensures
        actions(Stage::Loaded, seq![Event::Start, Event::AlertDone, Event::EchoDone(v)])
            == pending(Stage::Loaded),
        stage_after(Stage::Loaded, seq![Event::Start, Event::AlertDone, Event::EchoDone(v)])
            == Stage::Running,
{
    let events = seq![Event::Start, Event::AlertDone, Event::EchoDone(v)];
    let e1 = events.drop_first();
    let e2 = e1.drop_first();
    let e3 = e2.drop_first();
    assert(e1 == seq![Event::AlertDone, Event::EchoDone(v)]);
    assert(e2 == seq![Event::EchoDone(v)]);
    assert(e3 == Seq::<Event>::empty());
    let p = pending(Stage::Loaded);
    assert(actions(Stage::Running, e3) == Seq::<ActionView>::empty());
    assert(stage_after(Stage::Running, e3) == Stage::Running);
    assert(actions(Stage::Echoing, e2) =~= seq![p[2]]);
    assert(stage_after(Stage::Echoing, e2) == Stage::Running);
    assert(actions(Stage::Notifying, e1) =~= seq![p[1], p[2]]);
    assert(stage_after(Stage::Notifying, e1) == Stage::Running);
    assert(actions(Stage::Loaded, events) =~= p);
}

/// Two event sequences that differ at most in the values that echo calls
/// returned.
pub open spec fn same_but_echo_results(e1: Seq<Event>, e2: Seq<Event>) -> bool {
    &&& e1.len() == e2.len()
    &&& forall|i: int|
        0 <= i < e1.len() ==> (#[trigger] e1[i] == e2[i] || (e1[i] is EchoDone
            && e2[i] is EchoDone))
}

/// What the echo call returns has no effect: event sequences that differ
/// only in the echo results give the same actions and the same stage.
pub proof fn lemma_echo_result_ignored(stage: Stage, e1: Seq<Event>, e2: Seq<Event>)
    requires
        same_but_echo_results(e1, e2),
    ensures
        actions(stage, e1) == actions(stage, e2),
        stage_after(stage, e1) == stage_after(stage, e2),
    decreases e1.len(),
{
    if e1.len() > 0 {
        assert(e1[0] == e2[0] || (e1[0] is EchoDone && e2[0] is EchoDone));
        assert(transition(stage, e1[0]) == transition(stage, e2[0]));
        assert(same_but_echo_results(e1.drop_first(), e2.drop_first())) by {
            assert forall|i: int| 0 <= i < e1.drop_first().len() implies (
            #[trigger] e1.drop_first()[i] == e2.drop_first()[i] || (
            e1.drop_first()[i] is EchoDone && e2.drop_first()[i] is EchoDone)) by {
                assert(e1.drop_first()[i] == e1[i + 1]);
                assert(e2.drop_first()[i] == e2[i + 1]);
            }
        }
        lemma_echo_result_ignored(transition(stage, e1[0]).0, e1.drop_first(), e2.drop_first());
    }
}

/// Every echo call that the sequence hands out carries 5, and every run
/// loop it starts is bound to the render target, whatever the stage and
/// the event.
pub proof fn lemma_fixed_arguments(stage: Stage, event: Event)
    ensures
        transition(stage, event).1 matches ActionView::Call(HostCallView::Echo(n)) ==> n == 5,
        transition(stage, event).1 matches ActionView::Run(c) ==> c == Some(render_target()),
{
}

/// One action for each event.
proof fn lemma_actions_len(stage: Stage, events: Seq<Event>)
    ensures
        actions(stage, events).len() == events.len(),
    decreases events.len(),
{
    if events.len() > 0 {
        lemma_actions_len(transition(stage, events[0]).0, events.drop_first());
    }
}

/// Once the run loop has started the sequence never leaves it: no events
/// move it out of `Stage::Running`, and it hands out nothing more.
pub proof fn lemma_running_is_final(events: Seq<Event>)
    ensures
        stage_after(Stage::Running, events) == Stage::Running,
        forall|i: int|
            0 <= i < events.len() ==> #[trigger] actions(Stage::Running, events)[i]
                == ActionView::Idle,
    decreases events.len(),
{
    if events.len() > 0 {
        lemma_running_is_final(events.drop_first());
        let rest = actions(Stage::Running, events.drop_first());
        lemma_actions_len(Stage::Running, events.drop_first());
        assert(actions(Stage::Running, events) == seq![ActionView::Idle].add(rest));
        assert forall|i: int| 0 <= i < events.len() implies #[trigger] actions(
            Stage::Running,
            events,
        )[i] == ActionView::Idle by {
            if i > 0 {
                assert(actions(Stage::Running, events)[i] == rest[i - 1]);
            }
        }
    }
}

/// The startup sequence of one loaded module.
pub struct Startup {
    stage: Stage,
}

impl Startup {
    /// How far the sequence has come.
    pub closed spec fn stage_spec(&self) -> Stage {
        self.stage
    }

    /// A sequence that has not started.
    pub fn new() -> (r: Startup)
        ensures
            r.stage_spec() == Stage::Loaded,
    {
        Startup { stage: Stage::Loaded }
    }

    /// How far the sequence has come.
    pub fn stage(&self) -> (r: Stage)
        ensures
            r == self.stage_spec(),
    {
        self.stage
    }

    /// Takes one event in and hands back the action to perform.
    pub fn step(&mut self, event: Event) -> (r: Action)
        ensures
            (final(self).stage_spec(), r@) == transition(old(self).stage_spec(), event),
    {
        match (self.stage, event) {
            (Stage::Loaded, Event::Start) => {
                self.stage = Stage::Notifying;
                Action::Call(startup_alert())
            },
            (Stage::Notifying, Event::AlertDone) => {
                self.stage = Stage::Echoing;
                Action::Call(startup_echo())
            },
            (Stage::Echoing, Event::EchoDone(_)) => {
                self.stage = Stage::Running;
                Action::Run(game_config())
            },
            _ => Action::Idle,
        }
    }
}

} // verus!
