//! The four valves of the filter and the three commands that set them.

use vstd::prelude::*;

verus! {

/// One valve, by the position it was last driven to.
#[derive(Clone, Copy, Debug, PartialEq, Eq, Structural)]
pub struct Valve {
    pub open: bool,
}

/// A command to the valves. Each one sets all four positions at once.
#[derive(Clone, Copy, Debug, PartialEq, Eq, Structural)]
pub enum ValveCommand {
    Idle,
    Clean,
    Fill,
}

/// The four valves of the filter, in the order of their outputs.
#[derive(Clone, Copy, Debug, PartialEq, Eq, Structural)]
pub struct ValveControler {
    pub valve1: Valve,
    pub valve2: Valve,
    pub valve3: Valve,
    pub valve4: Valve,
}

impl Valve {
    /// A valve whose output currently stands at `open`.
    pub fn new(open: bool) -> (valve: Valve)
        ensures
            valve.open == open,
    {
        Valve { open }
    }

    pub fn open(&mut self)
        ensures
            final(self).open,
    {
        self.open = true;
    }

    pub fn close(&mut self)
        ensures
            !final(self).open,
    {
        self.open = false;
    }
}

impl ValveCommand {
    /// The positions the command sets, `true` for open, valve 1 first.
    pub open spec fn positions(self) -> Seq<bool> {
        match self {
            ValveCommand::Idle => seq![false, false, false, false],
            ValveCommand::Clean => seq![true, true, true, false],
            ValveCommand::Fill => seq![true, true, false, true],
        }
    }
}

impl ValveControler {
    /// The positions of the four valves, `true` for open, valve 1 first.
    pub open spec fn positions(self) -> Seq<bool> {
        seq![self.valve1.open, self.valve2.open, self.valve3.open, self.valve4.open]
    }

    /// Takes over four valves and closes them all.
    pub fn new(valve1: Valve, valve2: Valve, valve3: Valve, valve4: Valve) -> (controler:
        ValveControler)
        ensures
            controler.positions() == ValveCommand::Idle.positions(),
    {
        let mut controler = ValveControler { valve1, valve2, valve3, valve4 };
        controler.idle();
        controler
    }

    /// Opens valves 1, 2 and 3 and closes valve 4.
    pub fn clean(&mut self)
        ensures
            final(self).positions() == ValveCommand::Clean.positions(),
    {
        self.valve1.open();
        self.valve2.open();
        self.valve3.open();
        self.valve4.close();
    }

    /// Opens valves 1, 2 and 4 and closes valve 3.
    pub fn fill(&mut self)
        ensures
            final(self).positions() == ValveCommand::Fill.positions(),
    {
        self.valve1.open();
        self.valve2.open();
        self.valve3.close();
        self.valve4.open();
    }

    /// Closes all four valves.
    pub fn idle(&mut self)
        ensures
            final(self).positions() == ValveCommand::Idle.positions(),
    {
        self.valve1.close();
        self.valve2.close();
        self.valve3.close();
        self.valve4.close();
    }

    /// Carries out `command`.
    pub fn apply(&mut self, command: ValveCommand)
        ensures
            final(self).positions() == command.positions(),
    {
        match command {
            ValveCommand::Idle => self.idle(),
            ValveCommand::Clean => self.clean(),
            ValveCommand::Fill => self.fill(),
        }
    }

    /// The positions as an array, `true` for open, valve 1 first.
    pub fn outputs(&self) -> (levels: [bool; 4])
        ensures
            levels@ == self.positions(),
    {
        [self.valve1.open, self.valve2.open, self.valve3.open, self.valve4.open]
    }
}

} // verus!
