use vstd::prelude::*;
use crate::game::{
    commands_of, next_status, rule_of, ButtonLevels, Command, Contestant, Message, Rule, Status,
};

verus! {

/// Number of poll iterations between two automatic redraws of the counter.
pub const REFRESH_INTERVAL: u32 = 50000;

/// The decisions of the poll loop: the game state and the refresh cadence.
///
/// `since_refresh` counts the iterations since the last counter redraw, the
/// redraw iteration itself counting as the first one; the redraw is due once
/// it has reached `interval`. It never grows past `interval`.
#[derive(PartialEq, Eq, Structural, Clone, Copy, Debug)]
pub struct PollLoop {
    pub status: Status,
    pub since_refresh: u32,
    pub interval: u32,
}

impl PollLoop {
    pub open spec fn wf(&self) -> bool {
        &&& self.status.wf()
        &&& self.interval > 0
        &&& self.since_refresh <= self.interval
    }

    /// Whether the counter redraw is due in the next iteration.
    pub open spec fn tick_due(&self) -> bool {
        self.since_refresh >= self.interval
    }

    /// The rule that the sample `levels` fires.
    pub open spec fn rule(&self, levels: ButtonLevels) -> Rule {
        rule_of(self.status, levels, self.tick_due())
    }

    /// The loop after one iteration on the sample `levels`.
    pub open spec fn next(&self, levels: ButtonLevels) -> PollLoop {
        let rule = self.rule(levels);
        PollLoop {
            status: next_status(self.status, rule),
            since_refresh: if rule == Rule::Tick {
                1
            } else if self.since_refresh < self.interval {
                (self.since_refresh + 1) as u32
            } else {
                self.since_refresh
            },
            interval: self.interval,
        }
    }

    /// The commands of one iteration on the sample `levels`.
    pub open spec fn commands(&self, levels: ButtonLevels) -> Seq<Command> {
        commands_of(self.status, self.rule(levels))
    }

    /// The loop after one iteration on each sample of `samples`, in order.
    pub open spec fn run(self, samples: Seq<ButtonLevels>) -> PollLoop
        decreases samples.len(),
    {
        if samples.len() == 0 {
            self
        } else {
            self.next(samples[0]).run(samples.drop_first())
        }
    }

    /// A loop at power-up that redraws the counter every `interval`
    /// iterations, starting with the first one.
    pub fn new(interval: u32) -> (r: Self)
        requires
            interval > 0,
        ensures
            r.wf(),
            !r.status.lock,
            r.status.contestant is None,
            r.status.display_value == 0,
            r.since_refresh == interval,
            r.interval == interval,
    {
        PollLoop { status: Status::new(), since_refresh: interval, interval }
    }

    /// One iteration of the loop: evaluates the sample `levels` against the
    /// game state and returns the commands to carry out, in order.
    pub fn poll(&mut self, levels: ButtonLevels) -> (r: Vec<Command>)
        requires
            old(self).wf(),
        ensures
            *final(self) == old(self).next(levels),
            r@ == old(self).commands(levels),
            final(self).wf(),
    {
        let due = self.since_refresh >= self.interval;
        let (rule, cmds) = self.status.apply(levels, due);
        if let Rule::Tick = rule {
            self.since_refresh = 1;
        } else if self.since_refresh < self.interval {
            self.since_refresh = self.since_refresh + 1;
        }
        cmds
    }
}

/// Once a contestant holds the buzzer, they keep it through any run of
/// samples in which reset is never pressed.
pub proof fn lemma_lock_held_until_reset(p: PollLoop, samples: Seq<ButtonLevels>)
    requires
        p.status.lock,
        forall|i: int| 0 <= i < samples.len() ==> !(#[trigger] samples[i]).reset,
    ensures
        p.run(samples).status.lock,
        p.run(samples).status.contestant == p.status.contestant,
    decreases samples.len(),
{
    if samples.len() > 0 {
        let rest = samples.drop_first();
        assert forall|i: int| 0 <= i < rest.len() implies !(#[trigger] rest[i]).reset by {
            assert(rest[i] == samples[i + 1]);
        }
        assert(!samples[0].reset);
        lemma_lock_held_until_reset(p.next(samples[0]), rest);
    }
}

/// Without reset, an iteration leaves the counter alone unless the game is
/// open and the redraw is due; then the counter goes up by exactly one and
/// the cadence starts over.
pub proof fn lemma_counter_moves_only_on_tick(p: PollLoop, levels: ButtonLevels)
    requires
        p.wf(),
        !levels.reset,
    ensures
        p.next(levels).status.display_value == p.status.display_value || {
            &&& !p.status.lock
            &&& !p.next(levels).status.lock
            &&& p.tick_due()
            &&& p.next(levels).status.display_value == p.status.display_value + 1
            &&& p.next(levels).since_refresh == 1
        },
{
}

/// Without reset, a run of samples too short to reach the next redraw leaves
/// the counter unchanged; so after a redraw the counter stays put for the
/// next `interval - 1` iterations.
pub proof fn lemma_counter_steady_between_ticks(p: PollLoop, samples: Seq<ButtonLevels>)
    requires
        p.wf(),
        p.since_refresh + samples.len() <= p.interval,
        forall|i: int| 0 <= i < samples.len() ==> !(#[trigger] samples[i]).reset,
    ensures
        p.run(samples).status.display_value == p.status.display_value,
        p.run(samples).since_refresh == p.since_refresh + samples.len(),
        p.run(samples).interval == p.interval,
        p.run(samples).wf(),
    decreases samples.len(),
{
    if samples.len() > 0 {
        let rest = samples.drop_first();
        assert forall|i: int| 0 <= i < rest.len() implies !(#[trigger] rest[i]).reset by {
            assert(rest[i] == samples[i + 1]);
        }
        assert(!samples[0].reset);
        lemma_counter_steady_between_ticks(p.next(samples[0]), rest);
    }
}

/// A reset sample opens the game, clears the contestant and the counter, and
/// switches both indicators off, whatever the state before; unless the game
/// was open and red or blue was pressed in the same sample, which locks it.
pub proof fn lemma_reset_clears(p: PollLoop, levels: ButtonLevels)
    requires
        levels.reset,
        p.status.lock || !(levels.red || levels.blue),
    ensures
        !p.next(levels).status.lock,
        p.next(levels).status.contestant is None,
        p.next(levels).status.display_value == 0,
        p.commands(levels) == seq![Command::ClearIndicators],
{
}

/// When red and blue are pressed together while the game is open, red
/// takes the buzzer.
pub proof fn lemma_red_wins_tie(p: PollLoop, levels: ButtonLevels)
    requires
        !p.status.lock,
        levels.red,
        levels.blue,
    ensures
        p.next(levels).status.lock,
        p.next(levels).status.contestant == Some(Contestant::A),
        p.commands(levels) == seq![Command::SetRed, Command::Render(Message::Red)],
{
}

/// While the game is open, the correct and incorrect buttons have no effect:
/// the iteration goes as if they were released. Alone, they change nothing
/// and issue no command.
pub proof fn lemma_verdict_inert_while_open(p: PollLoop, levels: ButtonLevels)
    requires
        !p.status.lock,
    ensures
        p.next(levels) == p.next(ButtonLevels { correct: false, incorrect: false, ..levels }),
        p.commands(levels) == p.commands(ButtonLevels { correct: false, incorrect: false, ..levels }),
        !levels.red && !levels.blue && !levels.reset && !p.tick_due() ==> {
            &&& p.next(levels).status == p.status
            &&& p.commands(levels) == Seq::<Command>::empty()
        },
{
}

/// Running two runs one after the other is running their concatenation.
proof fn lemma_run_concat(p: PollLoop, a: Seq<ButtonLevels>, b: Seq<ButtonLevels>)
    ensures
        p.run(a + b) == p.run(a).run(b),
    decreases a.len(),
{
    if a.len() > 0 {
        assert((a + b).drop_first() =~= a.drop_first() + b);
        assert((a + b)[0] == a[0]);
        lemma_run_concat(p.next(a[0]), a.drop_first(), b);
    }
}

/// No button pressed at all.
pub open spec fn idle(levels: ButtonLevels) -> bool {
    !levels.red && !levels.blue && !levels.reset && !levels.correct && !levels.incorrect
}

/// In an open game, an iteration without red, blue or reset at which the
/// redraw is due shows the counter and then advances it by one.
pub proof fn lemma_tick_when_due(p: PollLoop, levels: ButtonLevels)
    requires
        p.wf(),
        !p.status.lock,
        p.tick_due(),
        p.status.display_value < u32::MAX,
        !levels.red && !levels.blue && !levels.reset,
    ensures
        p.commands(levels) == seq![Command::Render(Message::Counter(p.status.display_value))],
        p.next(levels).status.display_value == p.status.display_value + 1,
        p.next(levels).since_refresh == 1,
        !p.next(levels).status.lock,
{
}

/// In an open game left idle, the counter goes up by exactly one over each
/// `interval` iterations that follow a redraw.
pub proof fn lemma_idle_counter_once_per_interval(p: PollLoop, samples: Seq<ButtonLevels>)
    requires
        p.wf(),
        !p.status.lock,
        p.since_refresh == 1,
        p.status.display_value < u32::MAX,
        samples.len() == p.interval,
        forall|i: int| 0 <= i < samples.len() ==> idle(#[trigger] samples[i]),
    ensures
        p.run(samples).status.display_value == p.status.display_value + 1,
        p.run(samples).since_refresh == 1,
        !p.run(samples).status.lock,
{
    let n = samples.len() - 1;
    let head = samples.subrange(0, n);
    let last = samples.subrange(n, samples.len() as int);
    assert(samples =~= head + last);
    lemma_run_concat(p, head, last);
    assert forall|i: int| 0 <= i < head.len() implies !(#[trigger] head[i]).reset by {
        assert(head[i] == samples[i]);
    }
    lemma_counter_steady_between_ticks(p, head);
    lemma_lock_stays_open_when_idle(p, head);
    let q = p.run(head);
    assert(last[0] == samples[n]);
    assert(idle(last[0]));
    assert(last.drop_first() =~= Seq::<ButtonLevels>::empty());
    assert(q.run(last) == q.next(last[0]).run(last.drop_first()));
    lemma_tick_when_due(q, last[0]);
}

/// An open game stays open through iterations without red or blue.
proof fn lemma_lock_stays_open_when_idle(p: PollLoop, samples: Seq<ButtonLevels>)
    requires
        !p.status.lock,
        forall|i: int| 0 <= i < samples.len() ==> idle(#[trigger] samples[i]),
    ensures
        !p.run(samples).status.lock,
    decreases samples.len(),
{
    if samples.len() > 0 {
        let rest = samples.drop_first();
        assert forall|i: int| 0 <= i < rest.len() implies idle(#[trigger] rest[i]) by {
            assert(rest[i] == samples[i + 1]);
        }
        assert(idle(samples[0]));
        lemma_lock_stays_open_when_idle(p.next(samples[0]), rest);
    }
}

} // verus!
