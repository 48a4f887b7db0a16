use vstd::prelude::*;

use crate::command::{CommandView, DriverError, Reply, TmuxCommand, reply_view};

verus! {

/// The state of a run: the commands to issue in order, the output of each
/// one that succeeded, and the failure that stopped the run, if any.
pub ghost struct RunView {
    pub commands: Seq<CommandView>,
    pub outputs: Seq<Seq<u8>>,
    pub failure: Option<DriverError>,
}

impl RunView {
    /// A run over `commands` before any of them was issued.
    pub open spec fn start(commands: Seq<CommandView>) -> RunView {
        RunView { commands, outputs: seq![], failure: None }
    }

    /// Every command has succeeded, or one has failed.
    pub open spec fn finished(self) -> bool {
        self.failure is Some || self.outputs.len() >= self.commands.len()
    }

    /// The command to issue next, if the run is not finished.
    pub open spec fn next(self) -> Option<CommandView> {
        if self.finished() {
            None
        } else {
            Some(self.commands[self.outputs.len() as int])
        }
    }

    /// The run after the driver answered its next command with `reply`.
    pub open spec fn after(self, reply: Result<Seq<u8>, DriverError>) -> RunView {
        match reply {
            Ok(out) => RunView { outputs: self.outputs.push(out), ..self },
            Err(e) => RunView { failure: Some(e), ..self },
        }
    }

    /// Outputs never outnumber commands, and a failure belongs to the
    /// command after the last one that succeeded.
    pub open spec fn wf(self) -> bool {
        &&& self.outputs.len() <= self.commands.len()
        &&& self.failure is Some ==> self.outputs.len() < self.commands.len()
    }
}

/// Issues a sequence of driver commands in order, one at a time, and stops
/// at the first one that fails.
///
/// The caller asks for [`CommandRun::next_command`], has the driver carry it
/// out, and hands the answer to [`CommandRun::record`], until no command is
/// left; [`CommandRun::outcome`] then gives every output, or the failure.
pub struct CommandRun {
    commands: Vec<TmuxCommand>,
    outputs: Vec<Vec<u8>>,
    failure: Option<DriverError>,
}

impl View for CommandRun {
    type V = RunView;

    closed spec fn view(&self) -> RunView {
        RunView {
            commands: self.commands@.map_values(|c: TmuxCommand| c@),
            outputs: self.outputs@.map_values(|o: Vec<u8>| o@),
            failure: self.failure,
        }
    }
}

impl CommandRun {
    /// A run over `commands`, none of them issued yet.
    pub fn new(commands: Vec<TmuxCommand>) -> (r: CommandRun)
        ensures
            r@ == RunView::start(commands@.map_values(|c: TmuxCommand| c@)),
            r@.wf(),
    {
        let r = CommandRun { commands, outputs: Vec::new(), failure: None };
        assert(r@.outputs =~= seq![]);
        r
    }

    /// Whether every command has succeeded or one has failed.
    pub fn is_finished(&self) -> (r: bool)
        ensures
            r == self@.finished(),
    {
        self.failure.is_some() || self.outputs.len() >= self.commands.len()
    }

    /// The command that the driver is to carry out next; `None` once the run
    /// is finished.
    pub fn next_command(&self) -> (r: Option<&TmuxCommand>)
        ensures
            r is Some <==> self@.next() is Some,
            r is Some ==> Some(r->Some_0@) == self@.next(),
    {
        if self.is_finished() {
            None
        } else {
            Some(&self.commands[self.outputs.len()])
        }
    }

    /// Takes the driver's answer to the command of [`CommandRun::next_command`].
    pub fn record(&mut self, reply: Reply)
        requires
            old(self)@.wf(),
            !old(self)@.finished(),
        ensures
            final(self)@ == old(self)@.after(reply_view(reply)),
            final(self)@.wf(),
    {
        match reply {
            Ok(out) => {
                self.outputs.push(out);
                assert(self@.outputs =~= old(self)@.outputs.push(reply_view(reply)->Ok_0));
            },
            Err(e) => {
                self.failure = Some(e);
            },
        }
    }

    /// The outputs of all commands, in order, or the failure that stopped
    /// the run.
    pub fn outcome(self) -> (r: Result<Vec<Vec<u8>>, DriverError>)
        requires
            self@.wf(),
            self@.finished(),
        ensures
            match self@.failure {
                Some(e) => r == Err::<Vec<Vec<u8>>, DriverError>(e),
                None => r is Ok && r->Ok_0@.map_values(|o: Vec<u8>| o@) == self@.outputs
                    && self@.outputs.len() == self@.commands.len(),
            },
    {
        match self.failure {
            Some(e) => Err(e),
            None => Ok(self.outputs),
        }
    }
}

} // verus!
