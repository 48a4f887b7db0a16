use vstd::prelude::*;

verus! {

/// A request to the multiplexer driver. The driver answers each with the
/// raw bytes that the multiplexer printed, or with a [`DriverError`].
#[derive(Debug, Clone, PartialEq, Eq)]
pub enum TmuxCommand {
    /// Name of the session active in the foreground.
    CurrentSession,
    /// Index of the window active in the foreground.
    CurrentWindow,
    /// Index of the pane active in the foreground.
    CurrentPane,
    /// Create a session, not attached to any terminal.
    StartDetachedSession { name: String },
    /// Destroy a session.
    KillSession { name: String },
    /// Set or clear the remain-on-exit flag of a window.
    SetRemainOnExit { session: String, window: usize, enabled: bool },
    /// Move a pane out of its window into a new window of another session.
    BreakPane {
        session: String,
        window: usize,
        source_pane: usize,
        dest_session: String,
        dest_window: usize,
        label: String,
    },
    /// Move the pane of a window into another window, next to a pane.
    JoinPane {
        src_session: String,
        src_window: usize,
        dest_session: String,
        dest_window: usize,
        dest_pane: usize,
    },
    /// Split a new pane off a pane, running a shell command; the driver
    /// answers with the new pane's index.
    CreatePane { session: String, window: usize, pane: usize, command: String },
}

/// The mathematical value of a [`TmuxCommand`]: strings become character
/// sequences.
pub ghost enum CommandView {
    CurrentSession,
    CurrentWindow,
    CurrentPane,
    StartDetachedSession { name: Seq<char> },
    KillSession { name: Seq<char> },
    SetRemainOnExit { session: Seq<char>, window: usize, enabled: bool },
    BreakPane {
        session: Seq<char>,
        window: usize,
        source_pane: usize,
        dest_session: Seq<char>,
        dest_window: usize,
        label: Seq<char>,
    },
    JoinPane {
        src_session: Seq<char>,
        src_window: usize,
        dest_session: Seq<char>,
        dest_window: usize,
        dest_pane: usize,
    },
    CreatePane { session: Seq<char>, window: usize, pane: usize, command: Seq<char> },
}

impl View for TmuxCommand {
    type V = CommandView;

    open spec fn view(&self) -> CommandView {
        match self {
            TmuxCommand::CurrentSession => CommandView::CurrentSession,
            TmuxCommand::CurrentWindow => CommandView::CurrentWindow,
            TmuxCommand::CurrentPane => CommandView::CurrentPane,
            TmuxCommand::StartDetachedSession { name } => CommandView::StartDetachedSession {
                name: name@,
            },
            TmuxCommand::KillSession { name } => CommandView::KillSession { name: name@ },
            TmuxCommand::SetRemainOnExit { session, window, enabled } =>
                CommandView::SetRemainOnExit { session: session@, window: *window, enabled: *enabled },
            TmuxCommand::BreakPane {
                session,
                window,
                source_pane,
                dest_session,
                dest_window,
                label,
            } => CommandView::BreakPane {
                session: session@,
                window: *window,
                source_pane: *source_pane,
                dest_session: dest_session@,
                dest_window: *dest_window,
                label: label@,
            },
            TmuxCommand::JoinPane { src_session, src_window, dest_session, dest_window, dest_pane } =>
                CommandView::JoinPane {
                src_session: src_session@,
                src_window: *src_window,
                dest_session: dest_session@,
                dest_window: *dest_window,
                dest_pane: *dest_pane,
            },
            TmuxCommand::CreatePane { session, window, pane, command } => CommandView::CreatePane {
                session: session@,
                window: *window,
                pane: *pane,
                command: command@,
            },
        }
    }
}

/// The driver could not carry out a request: the multiplexer binary was not
/// found, a pipe broke, or the command exited with a failure status.
#[derive(Debug, PartialEq, Eq)]
pub struct DriverError {
    pub message: String,
}

/// What the driver answered to one request.
pub type Reply = Result<Vec<u8>, DriverError>;

/// The mathematical value of a [`Reply`].
pub open spec fn reply_view(reply: Reply) -> Result<Seq<u8>, DriverError> {
    match reply {
        Ok(out) => Ok(out@),
        Err(e) => Err(e),
    }
}

} // verus!
