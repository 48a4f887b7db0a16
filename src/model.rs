use vstd::prelude::*;

use crate::command::{CommandView, DriverError};
use crate::context::ContextView;
use crate::run::RunView;

verus! {

/// The sessions that exist once the multiplexer has carried out `c`.
pub open spec fn session_effect(sessions: Set<Seq<char>>, c: CommandView) -> Set<Seq<char>> {
    match c {
        CommandView::StartDetachedSession { name } => sessions.insert(name),
        CommandView::KillSession { name } => sessions.remove(name),
        _ => sessions,
    }
}

/// The sessions that exist once the multiplexer has carried out `commands`
/// in order, starting from `sessions`.
pub open spec fn sessions_after(sessions: Set<Seq<char>>, commands: Seq<CommandView>) -> Set<
    Seq<char>,
>
    decreases commands.len(),
{
    if commands.len() == 0 {
        sessions
    } else {
        sessions_after(session_effect(sessions, commands[0]), commands.drop_first())
    }
}

/// The remain-on-exit flag of each (session, window) once the multiplexer
/// has carried out `commands` in order, starting from `flags`.
pub open spec fn remain_on_exit_after(
    flags: Map<(Seq<char>, usize), bool>,
    commands: Seq<CommandView>,
) -> Map<(Seq<char>, usize), bool>
    decreases commands.len(),
{
    if commands.len() == 0 {
        flags
    } else {
        let next = match commands[0] {
            CommandView::SetRemainOnExit { session, window, enabled } => flags.insert(
                (session, window),
                enabled,
            ),
            _ => flags,
        };
        remain_on_exit_after(next, commands.drop_first())
    }
}

/// Preparing and then cleaning up leaves no holding session behind and
/// every other session as it was, whatever existed before; the visible
/// window ends with remain-on-exit off. Doing the pair twice ends where
/// doing it once does.
pub proof fn lemma_prepare_then_cleanup(
    ctx: ContextView,
    sessions: Set<Seq<char>>,
    flags: Map<(Seq<char>, usize), bool>,
)
    ensures
        sessions_after(sessions, ctx.prepare_plan() + ctx.cleanup_plan()) == sessions.remove(
            ctx.detached_session,
        ),
        !sessions_after(sessions, ctx.prepare_plan() + ctx.cleanup_plan()).contains(
            ctx.detached_session,
        ),
        remain_on_exit_after(flags, ctx.prepare_plan() + ctx.cleanup_plan()) == flags.insert(
            (ctx.session, ctx.window),
            false,
        ),
        sessions_after(
            sessions,
            ctx.prepare_plan() + ctx.cleanup_plan() + ctx.prepare_plan() + ctx.cleanup_plan(),
        ) == sessions_after(sessions, ctx.prepare_plan() + ctx.cleanup_plan()),
{
    let pair = ctx.prepare_plan() + ctx.cleanup_plan();
    let d = ctx.detached_session;
    lemma_sessions_after_pair(ctx, sessions);
    lemma_sessions_after_pair(ctx, sessions.remove(d));
    lemma_sessions_after_concat(sessions, pair, pair);
    assert(pair + pair == ctx.prepare_plan() + ctx.cleanup_plan() + ctx.prepare_plan()
        + ctx.cleanup_plan());
    assert(sessions.remove(d).remove(d) =~= sessions.remove(d));
    assert(sessions.insert(d).remove(d) =~= sessions.remove(d));
    let w = (ctx.session, ctx.window);
    let p1 = pair.drop_first();
    let p2 = p1.drop_first();
    let p3 = p2.drop_first();
    let p4 = p3.drop_first();
    assert(p1[0] == CommandView::SetRemainOnExit { session: ctx.session, window: ctx.window, enabled: true });
    assert(p3[0] == CommandView::SetRemainOnExit { session: ctx.session, window: ctx.window, enabled: false });
    assert(p4 =~= seq![]);
    let f1 = flags.insert(w, true);
    let f3 = f1.insert(w, false);
    assert(remain_on_exit_after(flags, pair) == remain_on_exit_after(flags, p1));
    assert(remain_on_exit_after(flags, p1) == remain_on_exit_after(f1, p2));
    assert(remain_on_exit_after(f1, p2) == remain_on_exit_after(f1, p3));
    assert(remain_on_exit_after(f1, p3) == remain_on_exit_after(f3, p4));
    assert(f3 =~= flags.insert(w, false));
}

proof fn lemma_sessions_after_pair(ctx: ContextView, sessions: Set<Seq<char>>)
    ensures
        sessions_after(sessions, ctx.prepare_plan() + ctx.cleanup_plan()) == sessions.insert(
            ctx.detached_session,
        ).remove(ctx.detached_session),
{
    let d = ctx.detached_session;
    let p0 = ctx.prepare_plan() + ctx.cleanup_plan();
    let p1 = p0.drop_first();
    let p2 = p1.drop_first();
    let p3 = p2.drop_first();
    let p4 = p3.drop_first();
    assert(p0[0] == CommandView::StartDetachedSession { name: d });
    assert(p1[0] == p0[1]);
    assert(p2[0] == CommandView::KillSession { name: d });
    assert(p3[0] == p0[3]);
    assert(p4 =~= seq![]);
    let s1 = sessions.insert(d);
    let s3 = s1.remove(d);
    assert(sessions_after(sessions, p0) == sessions_after(s1, p1));
    assert(sessions_after(s1, p1) == sessions_after(s1, p2));
    assert(sessions_after(s1, p2) == sessions_after(s3, p3));
    assert(sessions_after(s3, p3) == sessions_after(s3, p4));
}

proof fn lemma_sessions_after_concat(
    sessions: Set<Seq<char>>,
    a: Seq<CommandView>,
    b: Seq<CommandView>,
)
    ensures
        sessions_after(sessions, a + b) == sessions_after(sessions_after(sessions, a), b),
    decreases a.len(),
{
    if a.len() > 0 {
        assert((a + b).drop_first() =~= a.drop_first() + b);
        lemma_sessions_after_concat(session_effect(sessions, a[0]), a.drop_first(), b);
    } else {
        assert(a + b =~= b);
    }
}

/// A break-pane run issues the break first and the remain-on-exit request
/// for the new window second, then nothing more; when the break fails, the
/// second request is never issued.
pub proof fn lemma_break_pane_order(
    ctx: ContextView,
    source_pane: usize,
    dest_window: usize,
    label: Seq<char>,
    first: Result<Seq<u8>, DriverError>,
    second: Result<Seq<u8>, DriverError>,
)
    ensures
        RunView::start(ctx.break_pane_plan(source_pane, dest_window, label)).next() == Some(
            CommandView::BreakPane {
                session: ctx.session,
                window: ctx.window,
                source_pane,
                dest_session: ctx.detached_session,
                dest_window,
                label,
            },
        ),
        first is Err ==> RunView::start(
            ctx.break_pane_plan(source_pane, dest_window, label),
        ).after(first).next() is None,
        first is Ok ==> RunView::start(
            ctx.break_pane_plan(source_pane, dest_window, label),
        ).after(first).next() == Some(
            CommandView::SetRemainOnExit {
                session: ctx.detached_session,
                window: dest_window,
                enabled: true,
            },
        ),
        first is Ok ==> RunView::start(
            ctx.break_pane_plan(source_pane, dest_window, label),
        ).after(first).after(second).next() is None,
{
}

} // verus!
