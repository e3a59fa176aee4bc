use vstd::prelude::*;

verus! {

/// One of the two teams that can claim the buzzer.
#[derive(PartialEq, Eq, Structural, Clone, Copy, Debug)]
pub enum Contestant {
    /// The red team.
    A,
    /// The blue team.
    B,
}

/// The five buttons as sampled once per poll iteration.
///
/// Each field is `true` when the button is pressed, that is when its
/// active-low input reads low.
#[derive(PartialEq, Eq, Structural, Clone, Copy, Debug)]
pub struct ButtonLevels {
    pub red: bool,
    pub blue: bool,
    pub reset: bool,
    pub correct: bool,
    pub incorrect: bool,
}

/// A line of text to be drawn on the display.
#[derive(PartialEq, Eq, Structural, Clone, Copy, Debug)]
pub enum Message {
    Red,
    Blue,
    Correct,
    Incorrect,
    /// The running counter, in decimal.
    Counter(u32),
}

/// An instruction for the peripherals, produced by a transition.
#[derive(PartialEq, Eq, Structural, Clone, Copy, Debug)]
pub enum Command {
    /// Switch the red indicator on.
    SetRed,
    /// Switch the blue indicator on.
    SetBlue,
    /// Switch both indicators off.
    ClearIndicators,
    /// Clear the display and write the message.
    Render(Message),
}

/// The transition rule that one sample fires.
#[derive(PartialEq, Eq, Structural, Clone, Copy, Debug)]
pub enum Rule {
    LockRed,
    LockBlue,
    Reset,
    Correct,
    Incorrect,
    Tick,
    Idle,
}

/// The game state: whether a contestant holds the buzzer, which one, and the
/// counter shown while nobody does.
#[derive(PartialEq, Eq, Structural, Clone, Copy, Debug)]
pub struct Status {
    pub lock: bool,
    pub contestant: Option<Contestant>,
    pub display_value: u32,
}

/// The rule fired by `levels` on `s`, in the order red, blue, reset, correct,
/// incorrect, periodic tick; the tick only when `tick_due` and the counter
/// is below `u32::MAX`.
pub open spec fn rule_of(s: Status, levels: ButtonLevels, tick_due: bool) -> Rule {
    if levels.red && !s.lock {
        Rule::LockRed
    } else if levels.blue && !s.lock {
        Rule::LockBlue
    } else if levels.reset {
        Rule::Reset
    } else if levels.correct && s.lock {
        Rule::Correct
    } else if levels.incorrect && s.lock {
        Rule::Incorrect
    } else if tick_due && !s.lock && s.display_value < u32::MAX {
        Rule::Tick
    } else {
        Rule::Idle
    }
}

/// The state after `rule` fires on `s`.
pub open spec fn next_status(s: Status, rule: Rule) -> Status {
    match rule {
        Rule::LockRed => Status { lock: true, contestant: Some(Contestant::A), ..s },
        Rule::LockBlue => Status { lock: true, contestant: Some(Contestant::B), ..s },
        Rule::Reset => Status { lock: false, contestant: None, display_value: 0 },
        Rule::Tick => Status { display_value: (s.display_value + 1) as u32, ..s },
        _ => s,
    }
}

/// The commands issued when `rule` fires on `s`.
pub open spec fn commands_of(s: Status, rule: Rule) -> Seq<Command> {
    match rule {
        Rule::LockRed => seq![Command::SetRed, Command::Render(Message::Red)],
        Rule::LockBlue => seq![Command::SetBlue, Command::Render(Message::Blue)],
        Rule::Reset => seq![Command::ClearIndicators],
        Rule::Correct => seq![Command::Render(Message::Correct)],
        Rule::Incorrect => seq![Command::Render(Message::Incorrect)],
        Rule::Tick => seq![Command::Render(Message::Counter(s.display_value))],
        Rule::Idle => seq![],
    }
}

impl Status {
    /// Only a locked game has a contestant, and a locked game always has one.
    pub open spec fn wf(&self) -> bool {
        self.lock <==> self.contestant is Some
    }

    /// The state at power-up: open, nobody holding the buzzer, counter at zero.
    pub fn new() -> (r: Self)
        ensures
            r.wf(),
            !r.lock,
            r.contestant is None,
            r.display_value == 0,
    {
        Status { lock: false, contestant: None, display_value: 0 }
    }

    /// Hands the buzzer to `who`.
    pub fn set_lock(&mut self, who: Contestant)
        ensures
            *final(self) == (Status { lock: true, contestant: Some(who), ..*old(self) }),
    {
        self.lock = true;
        self.contestant = Some(who);
    }

    /// Releases the buzzer.
    pub fn unset_lock(&mut self)
        ensures
            *final(self) == (Status { lock: false, contestant: None, ..*old(self) }),
    {
        self.lock = false;
        self.contestant = None;
    }

    /// Advances the counter by one.
    pub fn inc_value(&mut self)
        requires
            old(self).display_value < u32::MAX,
        ensures
            *final(self) == (Status { display_value: (old(self).display_value + 1) as u32, ..*old(self) }),
    {
        self.display_value = self.display_value + 1;
    }

    /// Puts the counter back to zero.
    pub fn reset_value(&mut self)
        ensures
            *final(self) == (Status { display_value: 0, ..*old(self) }),
    {
        self.display_value = 0;
    }

    /// Decides which rule a sample fires; `tick_due` says whether the periodic
    /// counter refresh is due in this iteration.
    ///
    /// A tick is not taken once the counter has reached `u32::MAX`: the
    /// counter then stays where it is.
    pub fn rule_for(&self, levels: ButtonLevels, tick_due: bool) -> (r: Rule)
        ensures
            r == rule_of(*self, levels, tick_due),
    {
        if levels.red && !self.lock {
            Rule::LockRed
        } else if levels.blue && !self.lock {
            Rule::LockBlue
        } else if levels.reset {
            Rule::Reset
        } else if levels.correct && self.lock {
            Rule::Correct
        } else if levels.incorrect && self.lock {
            Rule::Incorrect
        } else if tick_due && !self.lock && self.display_value < u32::MAX {
            Rule::Tick
        } else {
            Rule::Idle
        }
    }

    /// Evaluates exactly one transition rule for the sample `levels`, updates
    /// the state, and returns the commands that the peripherals must carry out.
    pub fn apply(&mut self, levels: ButtonLevels, tick_due: bool) -> (r: (Rule, Vec<Command>))
        requires
            old(self).wf(),
        ensures
            r.0 == rule_of(*old(self), levels, tick_due),
            *final(self) == next_status(*old(self), r.0),
            r.1@ == commands_of(*old(self), r.0),
            final(self).wf(),
    {
        let rule = self.rule_for(levels, tick_due);
        let mut cmds: Vec<Command> = Vec::new();
        match rule {
            Rule::LockRed => {
                self.set_lock(Contestant::A);
                cmds.push(Command::SetRed);
                cmds.push(Command::Render(Message::Red));
            },
            Rule::LockBlue => {
                self.set_lock(Contestant::B);
                cmds.push(Command::SetBlue);
                cmds.push(Command::Render(Message::Blue));
            },
            Rule::Reset => {
                self.unset_lock();
                self.reset_value();
                cmds.push(Command::ClearIndicators);
            },
            Rule::Correct => {
                cmds.push(Command::Render(Message::Correct));
            },
            Rule::Incorrect => {
                cmds.push(Command::Render(Message::Incorrect));
            },
            Rule::Tick => {
                cmds.push(Command::Render(Message::Counter(self.display_value)));
                self.inc_value();
            },
            Rule::Idle => {},
        }
        assert(cmds@ =~= commands_of(*old(self), rule));
        (rule, cmds)
    }
}

} // verus!
