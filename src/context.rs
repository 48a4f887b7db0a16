use vstd::prelude::*;

use crate::command::{CommandView, DriverError, TmuxCommand};
use crate::parse::{
    decimal_digits, decimal_usize, lemma_decimal_round_trip, output_line, output_text,
    parse_usize,
};
use vstd::utf8::{encode_utf8, encode_utf8_decode_utf8, encode_utf8_valid_utf8};
use crate::run::{CommandRun, RunView};

verus! {

/// A condition at construction time which shows that the multiplexer is not
/// the one this library expects; nothing can be done about it but to stop.
#[derive(Debug, Clone, Copy, PartialEq, Eq, Structural)]
pub enum Fatal {
    /// The session name printed was not valid UTF-8.
    SessionNotText,
    /// The window index printed was not valid UTF-8.
    WindowNotText,
    /// The pane index printed was not valid UTF-8.
    PaneNotText,
    /// The window index printed was not an unsigned integer.
    WindowNotNumber,
    /// The pane index printed was not an unsigned integer.
    PaneNotNumber,
    /// The holding session was given the name of the visible session.
    SameSession,
}

/// Why an operation of a [`TmuxContext`] did not complete.
#[derive(Debug, PartialEq, Eq)]
pub enum ContextError {
    /// A driver request failed.
    Io(DriverError),
    /// The multiplexer broke its contract while the context was built.
    Fatal(Fatal),
    /// The new pane's index, as printed, was not valid UTF-8.
    PaneOutputNotText,
    /// The new pane's index, as printed, was not an unsigned integer.
    PaneOutputNotNumber,
}

/// The identifiers that a [`TmuxContext`] holds.
pub ghost struct ContextView {
    pub detached_session: Seq<char>,
    pub session: Seq<char>,
    pub window: usize,
    pub pane: usize,
}

impl ContextView {
    /// The holding session has a name, and not that of the visible session.
    pub open spec fn wf(self) -> bool {
        &&& self.detached_session.len() > 0
        &&& self.detached_session != self.session
    }

    /// Create the holding session, then keep the panes of the visible
    /// window after their process exits.
    pub open spec fn prepare_plan(self) -> Seq<CommandView> {
        seq![
            CommandView::StartDetachedSession { name: self.detached_session },
            CommandView::SetRemainOnExit { session: self.session, window: self.window, enabled: true },
        ]
    }

    /// Destroy the holding session, then let the panes of the visible window
    /// close with their process again.
    pub open spec fn cleanup_plan(self) -> Seq<CommandView> {
        seq![
            CommandView::KillSession { name: self.detached_session },
            CommandView::SetRemainOnExit { session: self.session, window: self.window, enabled: false },
        ]
    }

    /// Move `source_pane` out of the visible window into window `dest_window`
    /// of the holding session, then keep that window after its process exits.
    pub open spec fn break_pane_plan(
        self,
        source_pane: usize,
        dest_window: usize,
        label: Seq<char>,
    ) -> Seq<CommandView> {
        seq![
            CommandView::BreakPane {
                session: self.session,
                window: self.window,
                source_pane,
                dest_session: self.detached_session,
                dest_window,
                label,
            },
            CommandView::SetRemainOnExit {
                session: self.detached_session,
                window: dest_window,
                enabled: true,
            },
        ]
    }

    /// Move the pane of `target_window` in the holding session into the
    /// visible window, next to the anchor pane.
    pub open spec fn join_pane_plan(self, target_window: usize) -> Seq<CommandView> {
        seq![
            CommandView::JoinPane {
                src_session: self.detached_session,
                src_window: target_window,
                dest_session: self.session,
                dest_window: self.window,
                dest_pane: self.pane,
            },
        ]
    }

    /// What joining the pane of `target_window` gives once `joined`, the run
    /// of its request, is finished.
    pub open spec fn join_result(self, target_window: usize, joined: RunView) -> Result<
        usize,
        ContextError,
    > {
        match joined.failure {
            Some(e) => Err(ContextError::Io(e)),
            None => Ok((self.pane + 1) as usize),
        }
    }

    /// Split a pane running `command` off the anchor pane.
    pub open spec fn create_pane_plan(self, command: Seq<char>) -> Seq<CommandView> {
        seq![
            CommandView::CreatePane {
                session: self.session,
                window: self.window,
                pane: self.pane,
                command,
            },
        ]
    }
}

/// Ask for the foreground session, window and pane, in that order.
pub open spec fn query_plan() -> Seq<CommandView> {
    seq![CommandView::CurrentSession, CommandView::CurrentWindow, CommandView::CurrentPane]
}

/// The context built from the holding session's name and what the driver
/// printed for the foreground session, window and pane; or the first
/// condition, in that order, that shows the output to be unusable.
pub open spec fn context_from(
    detached_session: Seq<char>,
    session_out: Seq<u8>,
    window_out: Seq<u8>,
    pane_out: Seq<u8>,
) -> Result<ContextView, Fatal> {
    if output_text(session_out) is None {
        Err(Fatal::SessionNotText)
    } else if output_text(window_out) is None {
        Err(Fatal::WindowNotText)
    } else if output_text(pane_out) is None {
        Err(Fatal::PaneNotText)
    } else if decimal_usize(output_text(window_out)->Some_0) is None {
        Err(Fatal::WindowNotNumber)
    } else if decimal_usize(output_text(pane_out)->Some_0) is None {
        Err(Fatal::PaneNotNumber)
    } else if output_text(session_out)->Some_0 == detached_session {
        Err(Fatal::SameSession)
    } else {
        Ok(
            ContextView {
                detached_session,
                session: output_text(session_out)->Some_0,
                window: decimal_usize(output_text(window_out)->Some_0)->Some_0,
                pane: decimal_usize(output_text(pane_out)->Some_0)->Some_0,
            },
        )
    }
}

/// The driver prints a session name, a window index and a pane index as
/// UTF-8 lines, the indices in decimal: a context built from such output
/// holds exactly that session, window and pane.
pub proof fn lemma_context_keeps_identifiers(
    detached_session: Seq<char>,
    session: Seq<char>,
    window: usize,
    pane: usize,
)
    requires
        session != detached_session,
    ensures
        context_from(
            detached_session,
            encode_utf8(session) + seq![0x0Au8],
            encode_utf8(decimal_digits(window as nat)) + seq![0x0Au8],
            encode_utf8(decimal_digits(pane as nat)) + seq![0x0Au8],
        ) == Ok::<ContextView, Fatal>(ContextView { detached_session, session, window, pane }),
{
    lemma_printed_line(session);
    lemma_printed_line(decimal_digits(window as nat));
    lemma_printed_line(decimal_digits(pane as nat));
    lemma_decimal_round_trip(window);
    lemma_decimal_round_trip(pane);
}

proof fn lemma_printed_line(line: Seq<char>)
    ensures
        output_text(encode_utf8(line) + seq![0x0Au8]) == Some(line),
{
    encode_utf8_valid_utf8(line);
    encode_utf8_decode_utf8(line);
    let out = encode_utf8(line) + seq![0x0Au8];
    assert(out.drop_last() =~= encode_utf8(line));
}

/// Joining from two different windows gives the same index, the anchor
/// pane's plus one, whenever both joins succeed.
pub proof fn lemma_join_ignores_target(
    ctx: ContextView,
    first_window: usize,
    first: RunView,
    second_window: usize,
    second: RunView,
)
    requires
        ctx.pane < usize::MAX,
        first.failure is None,
        second.failure is None,
    ensures
        ctx.join_result(first_window, first) == ctx.join_result(second_window, second),
        ctx.join_result(first_window, first) == Ok::<usize, ContextError>((ctx.pane + 1) as usize),
{
}

/// The pane index that the driver printed for a new pane.
pub open spec fn new_pane_from(out: Seq<u8>) -> Result<usize, ContextError> {
    match output_text(out) {
        None => Err(ContextError::PaneOutputNotText),
        Some(text) => match decimal_usize(text) {
            None => Err(ContextError::PaneOutputNotNumber),
            Some(n) => Ok(n),
        },
    }
}

/// The session, window and pane in the foreground when the program started,
/// and the name of a hidden session that holds panes while they are out of
/// view.
///
/// The context only decides which driver requests to make and what their
/// answers mean: each operation hands out a [`CommandRun`] for the caller to
/// carry out against the multiplexer.
pub struct TmuxContext {
    detached_session: String,
    session: String,
    window: usize,
    pane: usize,
}

impl View for TmuxContext {
    type V = ContextView;

    closed spec fn view(&self) -> ContextView {
        ContextView {
            detached_session: self.detached_session@,
            session: self.session@,
            window: self.window,
            pane: self.pane,
        }
    }
}

/// The requests whose answers [`create_tmux_context`] takes.
pub fn context_queries() -> (r: CommandRun)
    ensures
        r@ == RunView::start(query_plan()),
        r@.wf(),
{
    let commands = vec![TmuxCommand::CurrentSession, TmuxCommand::CurrentWindow, TmuxCommand::CurrentPane];
    let r = CommandRun::new(commands);
    assert(r@.commands =~= query_plan());
    r
}

/// Builds the context from the finished run of [`context_queries`]: a
/// failed request is handed on, and output that the multiplexer should never
/// print is [`ContextError::Fatal`].
pub fn create_tmux_context(detached_session: String, queries: CommandRun) -> (r: Result<
    TmuxContext,
    ContextError,
>)
    requires
        detached_session@.len() > 0,
        queries@.wf(),
        queries@.finished(),
        queries@.commands == query_plan(),
    ensures
        queries@.failure is Some ==> r == Err::<TmuxContext, ContextError>(
            ContextError::Io(queries@.failure->Some_0),
        ),
        queries@.failure is None ==> match context_from(
            detached_session@,
            queries@.outputs[0],
            queries@.outputs[1],
            queries@.outputs[2],
        ) {
            Ok(v) => r is Ok && r->Ok_0@ == v,
            Err(f) => r == Err::<TmuxContext, ContextError>(ContextError::Fatal(f)),
        },
        r is Ok ==> r->Ok_0@.wf(),
{
    let ghost outs = queries@.outputs;
    let outputs = match queries.outcome() {
        Ok(outputs) => outputs,
        Err(e) => {
            return Err(ContextError::Io(e));
        },
    };
    let mut outputs = outputs;
    assert(outputs@.len() == 3);
    let pane_out = outputs.pop().unwrap();
    let window_out = outputs.pop().unwrap();
    let session_out = outputs.pop().unwrap();
    assert(session_out@ == outs[0] && window_out@ == outs[1] && pane_out@ == outs[2]);
    let session = match output_line(session_out) {
        Some(s) => s,
        None => {
            return Err(ContextError::Fatal(Fatal::SessionNotText));
        },
    };
    let window = match output_line(window_out) {
        Some(s) => s,
        None => {
            return Err(ContextError::Fatal(Fatal::WindowNotText));
        },
    };
    let pane = match output_line(pane_out) {
        Some(s) => s,
        None => {
            return Err(ContextError::Fatal(Fatal::PaneNotText));
        },
    };
    let window = match parse_usize(window.as_str()) {
        Some(n) => n,
        None => {
            return Err(ContextError::Fatal(Fatal::WindowNotNumber));
        },
    };
    let pane = match parse_usize(pane.as_str()) {
        Some(n) => n,
        None => {
            return Err(ContextError::Fatal(Fatal::PaneNotNumber));
        },
    };
    if session == detached_session {
        return Err(ContextError::Fatal(Fatal::SameSession));
    }
    Ok(TmuxContext { detached_session, session, window, pane })
}

impl TmuxContext {
    /// Name of the holding session.
    pub fn detached_session(&self) -> (r: &str)
        ensures
            r@ == self@.detached_session,
    {
        self.detached_session.as_str()
    }

    /// Name of the visible session.
    pub fn session(&self) -> (r: &str)
        ensures
            r@ == self@.session,
    {
        self.session.as_str()
    }

    /// Index of the visible window.
    pub fn window(&self) -> (r: usize)
        ensures
            r == self@.window,
    {
        self.window
    }

    /// Index of the anchor pane in the visible window.
    pub fn pane(&self) -> (r: usize)
        ensures
            r == self@.pane,
    {
        self.pane
    }

    /// The requests that set up the holding session and keep the panes of
    /// the visible window after their process exits.
    pub fn prepare(&self) -> (r: CommandRun)
        ensures
            r@ == RunView::start(self@.prepare_plan()),
            r@.wf(),
    {
        let commands = vec![
            TmuxCommand::StartDetachedSession { name: self.detached_session.clone() },
            TmuxCommand::SetRemainOnExit { session: self.session.clone(), window: self.window, enabled: true },
        ];
        let r = CommandRun::new(commands);
        assert(r@.commands =~= self@.prepare_plan());
        r
    }

    /// The requests that undo [`TmuxContext::prepare`].
    pub fn cleanup(&self) -> (r: CommandRun)
        ensures
            r@ == RunView::start(self@.cleanup_plan()),
            r@.wf(),
    {
        let commands = vec![
            TmuxCommand::KillSession { name: self.detached_session.clone() },
            TmuxCommand::SetRemainOnExit { session: self.session.clone(), window: self.window, enabled: false },
        ];
        let r = CommandRun::new(commands);
        assert(r@.commands =~= self@.cleanup_plan());
        r
    }

    /// The requests that move `source_pane` of the visible window into a new
    /// window `dest_window`, labelled `window_label`, of the holding session,
    /// and keep that window after its process exits.
    pub fn break_pane(&self, source_pane: usize, dest_window: usize, window_label: &str) -> (r:
        CommandRun)
        ensures
            r@ == RunView::start(self@.break_pane_plan(source_pane, dest_window, window_label@)),
            r@.wf(),
    {
        let commands = vec![
            TmuxCommand::BreakPane {
                session: self.session.clone(),
                window: self.window,
                source_pane,
                dest_session: self.detached_session.clone(),
                dest_window,
                label: window_label.to_owned(),
            },
            TmuxCommand::SetRemainOnExit {
                session: self.detached_session.clone(),
                window: dest_window,
                enabled: true,
            },
        ];
        let r = CommandRun::new(commands);
        assert(r@.commands =~= self@.break_pane_plan(source_pane, dest_window, window_label@));
        r
    }

    /// The request that moves the pane of `target_window` in the holding
    /// session back next to the anchor pane; [`TmuxContext::join_pane`] reads
    /// its answer.
    pub fn join_pane_request(&self, target_window: usize) -> (r: CommandRun)
        ensures
            r@ == RunView::start(self@.join_pane_plan(target_window)),
            r@.wf(),
    {
        let commands = vec![
            TmuxCommand::JoinPane {
                src_session: self.detached_session.clone(),
                src_window: target_window,
                dest_session: self.session.clone(),
                dest_window: self.window,
                dest_pane: self.pane,
            },
        ];
        let r = CommandRun::new(commands);
        assert(r@.commands =~= self@.join_pane_plan(target_window));
        r
    }

    /// The index of the pane joined from `target_window`, once the run of
    /// [`TmuxContext::join_pane_request`] for it is finished: the pane lands
    /// just after the anchor pane, so its index is the anchor's plus one,
    /// whichever window it came from. The
    /// multiplexer is not asked again, so this holds only while no other pane
    /// has been inserted before the anchor.
    pub fn join_pane(&self, target_window: usize, joined: CommandRun) -> (r: Result<
        usize,
        ContextError,
    >)
        requires
            joined@.wf(),
            joined@.finished(),
            joined@.commands == self@.join_pane_plan(target_window),
            self@.pane < usize::MAX,
        ensures
            r == self@.join_result(target_window, joined@),
    {
        match joined.outcome() {
            Ok(_) => Ok(self.pane + 1),
            Err(e) => Err(ContextError::Io(e)),
        }
    }

    /// The request that splits a new pane running `command` off the anchor
    /// pane; [`TmuxContext::create_pane`] reads its answer.
    pub fn create_pane_request(&self, command: &str) -> (r: CommandRun)
        ensures
            r@ == RunView::start(self@.create_pane_plan(command@)),
            r@.wf(),
    {
        let commands = vec![
            TmuxCommand::CreatePane {
                session: self.session.clone(),
                window: self.window,
                pane: self.pane,
                command: command.to_owned(),
            },
        ];
        let r = CommandRun::new(commands);
        assert(r@.commands =~= self@.create_pane_plan(command@));
        r
    }

    /// The index of the pane that runs `command`, read from the answer to
    /// the finished run of [`TmuxContext::create_pane_request`] for it.
    pub fn create_pane(&self, command: &str, created: CommandRun) -> (r: Result<
        usize,
        ContextError,
    >)
        requires
            created@.wf(),
            created@.finished(),
            created@.commands == self@.create_pane_plan(command@),
        ensures
            match created@.failure {
                Some(e) => r == Err::<usize, ContextError>(ContextError::Io(e)),
                None => r == new_pane_from(created@.outputs[0]),
            },
    {
        let ghost outs = created@.outputs;
        let mut outputs = match created.outcome() {
            Ok(outputs) => outputs,
            Err(e) => {
                return Err(ContextError::Io(e));
            },
        };
        let out = outputs.pop().unwrap();
        assert(out@ == outs[0]);
        match output_line(out) {
            Some(text) => match parse_usize(text.as_str()) {
                Some(n) => Ok(n),
                None => Err(ContextError::PaneOutputNotNumber),
            },
            None => Err(ContextError::PaneOutputNotText),
        }
    }
}

} // verus!
