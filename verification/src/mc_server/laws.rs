//! What the server's operations guarantee over whole runs: a start that is
//! done leaves the server started, a stop that is done leaves it stopped, and
//! a start sends exactly the commands of its script.
use vstd::prelude::*;
use crate::mc_server::server::{
    MCServerView, StartRunView, StartPhase, ServerEventView, ServerActionView, State, StopPhase, LogPhase, start_next, stop_next, log_next, start_at, log_unavailable_message, state_for_status, state_label, install_check_command, running_check_command, jar_name, process_name, no_ip_message,
};
use crate::text::has_substring;

verus! {

/// The server and run after a start has gone through the events `es`, in order.
pub open spec fn start_after(s: MCServerView, r: StartRunView, es: Seq<ServerEventView>) -> (
    MCServerView,
    StartRunView,
)
    decreases es.len(),
{
    if es.len() == 0 {
        (s, r)
    } else {
        let (s2, r2, _) = start_next(s, r, es[0]);
        start_after(s2, r2, es.drop_first())
    }
}

/// What holds at every step of a start: from the first command sent over SSH
/// on, a session is open; from the launch on, the server is marked started.
pub open spec fn start_invariant(s: MCServerView, r: StartRunView) -> bool {
    &&& (r.phase == StartPhase::InstallCheck || r.phase == StartPhase::Installing || r.phase
        == StartPhase::RunningCheck || r.phase == StartPhase::Launching || r.phase
        == StartPhase::FetchingIp || r.phase == StartPhase::Done) ==> s.ssh_open
    &&& (r.phase == StartPhase::FetchingIp || r.phase == StartPhase::Done) ==> s.state
        == State::STARTED
}

proof fn lemma_start_step_keeps_invariant(s: MCServerView, r: StartRunView, e: ServerEventView)
    requires
        start_invariant(s, r),
    ensures
        start_invariant(start_next(s, r, e).0, start_next(s, r, e).1),
{
}

proof fn lemma_start_run_keeps_invariant(s: MCServerView, r: StartRunView, es: Seq<ServerEventView>)
    requires
        start_invariant(s, r),
    ensures
        start_invariant(start_after(s, r, es).0, start_after(s, r, es).1),
    decreases es.len(),
{
    if es.len() > 0 {
        lemma_start_step_keeps_invariant(s, r, es[0]);
        let (s2, r2, _) = start_next(s, r, es[0]);
        lemma_start_run_keeps_invariant(s2, r2, es.drop_first());
    }
}

/// A start that is done has left the server marked STARTED with an SSH
/// session open, whatever was observed on the way.
pub proof fn lemma_done_start_leaves_server_started(s: MCServerView, es: Seq<ServerEventView>)
    ensures
        start_after(s, start_at(StartPhase::Idle), es).1.phase == StartPhase::Done ==> {
            &&& start_after(s, start_at(StartPhase::Idle), es).0.state == State::STARTED
            &&& start_after(s, start_at(StartPhase::Idle), es).0.ssh_open
        },
{
    lemma_start_run_keeps_invariant(s, start_at(StartPhase::Idle), es);
}

/// A start answers with the address only from its last step, and that step
/// is reached only once the server has been marked started.
pub proof fn lemma_start_finishes_only_when_started(s: MCServerView, r: StartRunView, e: ServerEventView)
    requires
        start_invariant(s, r),
        start_next(s, r, e).2 is Finish,
    ensures
        r.phase == StartPhase::FetchingIp,
        start_next(s, r, e).0.state == State::STARTED,
        start_next(s, r, e).1.phase == StartPhase::Done,
{
}

/// The server and phase after a stop has gone through the events `es`, in order.
pub open spec fn stop_after(s: MCServerView, p: StopPhase, es: Seq<ServerEventView>) -> (
    MCServerView,
    StopPhase,
)
    decreases es.len(),
{
    if es.len() == 0 {
        (s, p)
    } else {
        let (s2, p2, _) = stop_next(s, p, es[0]);
        stop_after(s2, p2, es.drop_first())
    }
}

/// What holds at every step of a stop: once the game has taken its stop
/// command, the server is marked stopped.
pub open spec fn stop_invariant(s: MCServerView, p: StopPhase) -> bool {
    (p == StopPhase::ShuttingDown || p == StopPhase::Closing || p == StopPhase::Done) ==> s.state
        == State::STOPPED
}

proof fn lemma_stop_run_keeps_invariant(s: MCServerView, p: StopPhase, es: Seq<ServerEventView>)
    requires
        stop_invariant(s, p),
    ensures
        stop_invariant(stop_after(s, p, es).0, stop_after(s, p, es).1),
    decreases es.len(),
{
    if es.len() > 0 {
        let (s2, p2, _) = stop_next(s, p, es[0]);
        lemma_stop_run_keeps_invariant(s2, p2, es.drop_first());
    }
}

/// A stop that is done has left the server marked STOPPED.
pub proof fn lemma_done_stop_leaves_server_stopped(s: MCServerView, es: Seq<ServerEventView>)
    ensures
        stop_after(s, StopPhase::Idle, es).1 == StopPhase::Done ==> stop_after(
            s,
            StopPhase::Idle,
            es,
        ).0.state == State::STOPPED,
{
    lemma_stop_run_keeps_invariant(s, StopPhase::Idle, es);
}

/// Reading the log of a server that is not started asks nothing of SSH: the
/// answer is at once the message naming the state.
pub proof fn lemma_log_of_unstarted_server(s: MCServerView)
    requires
        s.state != State::STARTED,
    ensures
        log_next(s, LogPhase::Idle, ServerEventView::Begin) == (
            s,
            LogPhase::Done,
            ServerActionView::Finish(log_unavailable_message(s.state)),
        ),
{
}

/// The instance state names map to the server states: "stopped" to STOPPED,
/// "stopping" to STOPPING, "running" to STARTED, "pending" to STARTING.
pub proof fn lemma_known_statuses()
    ensures
        state_for_status("stopped"@) == State::STOPPED,
        state_for_status("stopping"@) == State::STOPPING,
        state_for_status("running"@) == State::STARTED,
        state_for_status("pending"@) == State::STARTING,
{
    reveal_strlit("stopped");
    reveal_strlit("stopping");
    reveal_strlit("running");
    reveal_strlit("pending");
    assert("stopping"@.len() != "stopped"@.len());
    assert("running"@[0] != "stopped"@[0]);
    assert("running"@.len() != "stopping"@.len());
    assert("pending"@[0] != "stopped"@[0]);
    assert("pending"@.len() != "stopping"@.len());
    assert("pending"@[0] != "running"@[0]);
}

/// Distinct states are shown under distinct names.
pub proof fn lemma_labels_distinct(a: State, b: State)
    ensures
        state_label(a) == state_label(b) ==> a == b,
{
    reveal_strlit("STARTING");
    reveal_strlit("STARTED");
    reveal_strlit("ERROR");
    reveal_strlit("STOPPING");
    reveal_strlit("STOPPED");
    if state_label(a) == state_label(b) && a != b {
        assert(state_label(a).len() != state_label(b).len() || exists|i: int|
            0 <= i < state_label(a).len() && state_label(a)[i] != state_label(b)[i]) by {
            match (a, b) {
                (State::STARTING, State::STARTED) => assert(state_label(a)[6] != state_label(b)[6]),
                (State::STARTED, State::STARTING) => assert(state_label(a)[6] != state_label(b)[6]),
                (State::STOPPING, State::STOPPED) => assert(state_label(a)[6] != state_label(b)[6]),
                (State::STOPPED, State::STOPPING) => assert(state_label(a)[6] != state_label(b)[6]),
                (State::STARTING, State::STOPPING) => assert(state_label(a)[2] != state_label(b)[2]),
                (State::STOPPING, State::STARTING) => assert(state_label(a)[2] != state_label(b)[2]),
                (State::STARTED, State::STOPPED) => assert(state_label(a)[2] != state_label(b)[2]),
                (State::STOPPED, State::STARTED) => assert(state_label(a)[2] != state_label(b)[2]),
                _ => {},
            }
        }
    }
}


/// The actions a start answers the events `es` with, in order.
pub open spec fn start_actions(s: MCServerView, r: StartRunView, es: Seq<ServerEventView>) -> Seq<
    ServerActionView,
>
    decreases es.len(),
{
    if es.len() == 0 {
        Seq::empty()
    } else {
        let (s2, r2, a) = start_next(s, r, es[0]);
        seq![a] + start_actions(s2, r2, es.drop_first())
    }
}

/// Successful command outputs.
pub open spec fn outputs(outs: Seq<Seq<char>>) -> Seq<ServerEventView> {
    outs.map_values(|o: Seq<char>| ServerEventView::Output(Ok(o)))
}

pub open spec fn runs(cmds: Seq<Seq<char>>) -> Seq<ServerActionView> {
    cmds.map_values(|c: Seq<char>| ServerActionView::Run(c))
}

pub open spec fn main_runs(cmds: Seq<Seq<char>>) -> Seq<ServerActionView> {
    cmds.map_values(|c: Seq<char>| ServerActionView::RunMain(c))
}

proof fn lemma_start_actions_split(
    s: MCServerView,
    r: StartRunView,
    a: Seq<ServerEventView>,
    b: Seq<ServerEventView>,
)
    ensures
        start_actions(s, r, a + b) == start_actions(s, r, a) + start_actions(
            start_after(s, r, a).0,
            start_after(s, r, a).1,
            b,
        ),
        start_after(s, r, a + b) == start_after(start_after(s, r, a).0, start_after(s, r, a).1, b),
    decreases a.len(),
{
    if a.len() == 0 {
        assert(a + b =~= b);
    } else {
        let (s2, r2, x) = start_next(s, r, a[0]);
        assert((a + b).drop_first() =~= a.drop_first() + b);
        assert((a + b)[0] == a[0]);
        lemma_start_actions_split(s2, r2, a.drop_first(), b);
        assert(start_actions(s, r, a + b) =~= seq![x] + start_actions(s2, r2, a.drop_first() + b));
        assert(start_actions(s, r, a + b) =~= start_actions(s, r, a) + start_actions(
            start_after(s, r, a).0,
            start_after(s, r, a).1,
            b,
        ));
    }
}

proof fn lemma_start_unfold(s: MCServerView, r: StartRunView, es: Seq<ServerEventView>)
    requires
        es.len() > 0,
    ensures
        start_actions(s, r, es) == seq![start_next(s, r, es[0]).2] + start_actions(
            start_next(s, r, es[0]).0,
            start_next(s, r, es[0]).1,
            es.drop_first(),
        ),
        start_after(s, r, es) == start_after(
            start_next(s, r, es[0]).0,
            start_next(s, r, es[0]).1,
            es.drop_first(),
        ),
{
}

proof fn lemma_start_empty(s: MCServerView, r: StartRunView, es: Seq<ServerEventView>)
    requires
        es.len() == 0,
    ensures
        start_actions(s, r, es) == Seq::<ServerActionView>::empty(),
        start_after(s, r, es) == (s, r),
{
}

proof fn lemma_install_batch(s: MCServerView, cmds: Seq<Seq<char>>, k: int, outs: Seq<Seq<char>>)
    requires
        0 <= k < cmds.len(),
        outs.len() == cmds.len() - k,
    ensures
        start_actions(s, StartRunView { phase: StartPhase::Installing, batch: cmds, next: k }, outputs(outs))
            == runs(cmds.subrange(k + 1, cmds.len() as int)) + seq![
            ServerActionView::Exec(running_check_command()),
        ],
        start_after(s, StartRunView { phase: StartPhase::Installing, batch: cmds, next: k }, outputs(outs))
            == (s, start_at(StartPhase::RunningCheck)),
    decreases cmds.len() - k,
{
    let r = StartRunView { phase: StartPhase::Installing, batch: cmds, next: k };
    let es = outputs(outs);
    assert(es[0] == ServerEventView::Output(Ok(outs[0])));
    assert(es.drop_first() =~= outputs(outs.drop_first()));
    lemma_start_unfold(s, r, es);
    if k + 1 < cmds.len() {
        lemma_install_batch(s, cmds, k + 1, outs.drop_first());
        assert(runs(cmds.subrange(k + 1, cmds.len() as int)) =~= seq![ServerActionView::Run(cmds[k + 1])]
            + runs(cmds.subrange(k + 2, cmds.len() as int)));
    } else {
        assert(outs.drop_first().len() == 0);
        lemma_start_empty(s, start_at(StartPhase::RunningCheck), es.drop_first());
        assert(runs(cmds.subrange(k + 1, cmds.len() as int)) =~= Seq::<ServerActionView>::empty());
    }
}

proof fn lemma_launch_batch(s: MCServerView, cmds: Seq<Seq<char>>, k: int, outs: Seq<Seq<char>>)
    requires
        0 <= k < cmds.len(),
        outs.len() == cmds.len() - k,
    ensures
        start_actions(s, StartRunView { phase: StartPhase::Launching, batch: cmds, next: k }, outputs(outs))
            == main_runs(cmds.subrange(k + 1, cmds.len() as int)) + seq![ServerActionView::QueryIp],
        start_after(s, StartRunView { phase: StartPhase::Launching, batch: cmds, next: k }, outputs(outs))
            == (s.with_state(State::STARTED), start_at(StartPhase::FetchingIp)),
    decreases cmds.len() - k,
{
    let r = StartRunView { phase: StartPhase::Launching, batch: cmds, next: k };
    let es = outputs(outs);
    assert(es[0] == ServerEventView::Output(Ok(outs[0])));
    assert(es.drop_first() =~= outputs(outs.drop_first()));
    lemma_start_unfold(s, r, es);
    if k + 1 < cmds.len() {
        lemma_launch_batch(s, cmds, k + 1, outs.drop_first());
        assert(main_runs(cmds.subrange(k + 1, cmds.len() as int)) =~= seq![
            ServerActionView::RunMain(cmds[k + 1]),
        ] + main_runs(cmds.subrange(k + 2, cmds.len() as int)));
    } else {
        assert(outs.drop_first().len() == 0);
        lemma_start_empty(s.with_state(State::STARTED), start_at(StartPhase::FetchingIp), es.drop_first());
        assert(main_runs(cmds.subrange(k + 1, cmds.len() as int)) =~= Seq::<ServerActionView>::empty());
    }
}

/// How many install commands a start runs for this listing of ~/spigot.
pub open spec fn install_count(s: MCServerView, listing: Seq<char>) -> nat {
    if has_substring(listing, jar_name()) {
        0
    } else {
        s.init_commands().len()
    }
}

/// How many launch commands a start runs for this process list.
pub open spec fn launch_count(s: MCServerView, processes: Seq<char>) -> nat {
    if has_substring(processes, process_name()) {
        0
    } else {
        s.main_commands().len()
    }
}

/// What a start does over SSH once connected, when every command succeeds:
/// list ~/spigot; run the install commands unless the game server's jar is
/// there; list the processes; run the launch commands unless the game
/// server already runs; then look up the address and answer with it.
pub open spec fn start_script(
    s: MCServerView,
    listing: Seq<char>,
    processes: Seq<char>,
    ip: Option<Seq<char>>,
) -> Seq<ServerActionView> {
    seq![ServerActionView::Exec(install_check_command())] + (if has_substring(listing, jar_name()) {
        Seq::empty()
    } else {
        runs(s.init_commands())
    }) + seq![ServerActionView::Exec(running_check_command())] + (if has_substring(
        processes,
        process_name(),
    ) {
        Seq::empty()
    } else {
        main_runs(s.main_commands())
    }) + seq![
        ServerActionView::QueryIp,
        ServerActionView::Finish(
            match ip {
                Some(a) => a,
                None => no_ip_message(),
            },
        ),
    ]
}

/// The events of a successful start from the SSH connection on.
pub open spec fn start_script_events(
    listing: Seq<char>,
    install_outs: Seq<Seq<char>>,
    processes: Seq<char>,
    launch_outs: Seq<Seq<char>>,
    ip: Option<Seq<char>>,
) -> Seq<ServerEventView> {
    seq![ServerEventView::Connected(true), ServerEventView::Output(Ok(listing))] + outputs(install_outs)
        + seq![ServerEventView::Output(Ok(processes))] + outputs(launch_outs) + seq![
        ServerEventView::Ip(ip),
    ]
}

proof fn lemma_install_phase(s: MCServerView, listing: Seq<char>, install_outs: Seq<Seq<char>>)
    requires
        install_outs.len() == install_count(s, listing),
    ensures
        start_actions(s, start_at(StartPhase::InstallCheck), seq![ServerEventView::Output(Ok(listing))] + outputs(install_outs))
            == (if has_substring(listing, jar_name()) {
            Seq::empty()
        } else {
            runs(s.init_commands())
        }) + seq![ServerActionView::Exec(running_check_command())],
        start_after(s, start_at(StartPhase::InstallCheck), seq![ServerEventView::Output(Ok(listing))] + outputs(install_outs))
            == (s, start_at(StartPhase::RunningCheck)),
{
    let r0 = start_at(StartPhase::InstallCheck);
    let first = seq![ServerEventView::Output(Ok(listing))];
    lemma_start_actions_split(s, r0, first, outputs(install_outs));
    assert(first.drop_first() =~= Seq::<ServerEventView>::empty());
    lemma_start_unfold(s, r0, first);
    let (s1, r1, a1) = start_next(s, r0, first[0]);
    lemma_start_empty(s1, r1, first.drop_first());
    if has_substring(listing, jar_name()) || s.init_commands().len() == 0 {
        assert(install_outs.len() == 0);
        assert(outputs(install_outs) =~= Seq::<ServerEventView>::empty());
        lemma_start_empty(s1, r1, outputs(install_outs));
        if !has_substring(listing, jar_name()) {
            assert(runs(s.init_commands()) =~= Seq::<ServerActionView>::empty());
        }
    } else {
        let cmds = s.init_commands();
        lemma_install_batch(s, cmds, 0, install_outs);
        assert(runs(cmds) =~= seq![ServerActionView::Run(cmds[0])] + runs(cmds.subrange(1, cmds.len() as int)));
    }
}

proof fn lemma_launch_phase(s: MCServerView, processes: Seq<char>, launch_outs: Seq<Seq<char>>)
    requires
        launch_outs.len() == launch_count(s, processes),
    ensures
        start_actions(s, start_at(StartPhase::RunningCheck), seq![ServerEventView::Output(Ok(processes))] + outputs(launch_outs))
            == (if has_substring(processes, process_name()) {
            Seq::empty()
        } else {
            main_runs(s.main_commands())
        }) + seq![ServerActionView::QueryIp],
        start_after(s, start_at(StartPhase::RunningCheck), seq![ServerEventView::Output(Ok(processes))] + outputs(launch_outs))
            == (s.with_state(State::STARTED), start_at(StartPhase::FetchingIp)),
{
    let r0 = start_at(StartPhase::RunningCheck);
    let first = seq![ServerEventView::Output(Ok(processes))];
    lemma_start_actions_split(s, r0, first, outputs(launch_outs));
    assert(first.drop_first() =~= Seq::<ServerEventView>::empty());
    lemma_start_unfold(s, r0, first);
    let (s1, r1, a1) = start_next(s, r0, first[0]);
    lemma_start_empty(s1, r1, first.drop_first());
    if has_substring(processes, process_name()) || s.main_commands().len() == 0 {
        assert(launch_outs.len() == 0);
        assert(outputs(launch_outs) =~= Seq::<ServerEventView>::empty());
        lemma_start_empty(s1, r1, outputs(launch_outs));
        if !has_substring(processes, process_name()) {
            assert(main_runs(s.main_commands()) =~= Seq::<ServerActionView>::empty());
        }
    } else {
        let cmds = s.main_commands();
        lemma_launch_batch(s, cmds, 0, launch_outs);
        assert(main_runs(cmds) =~= seq![ServerActionView::RunMain(cmds[0])] + main_runs(
            cmds.subrange(1, cmds.len() as int),
        ));
    }
}

/// Once connected, a start whose commands all succeed sends exactly the
/// commands of `start_script`, in that order, and answers with the address;
/// the outputs of the install and launch commands do not change what is sent.
pub proof fn lemma_start_follows_script(
    s: MCServerView,
    listing: Seq<char>,
    install_outs: Seq<Seq<char>>,
    processes: Seq<char>,
    launch_outs: Seq<Seq<char>>,
    ip: Option<Seq<char>>,
)
    requires
        install_outs.len() == install_count(s, listing),
        launch_outs.len() == launch_count(s, processes),
    ensures
        start_actions(
            s,
            start_at(StartPhase::Connecting),
            start_script_events(listing, install_outs, processes, launch_outs, ip),
        ) == start_script(s, listing, processes, ip),
{
    let r0 = start_at(StartPhase::Connecting);
    let e1 = seq![ServerEventView::Connected(true)];
    let e2 = seq![ServerEventView::Output(Ok(listing))] + outputs(install_outs);
    let e3 = seq![ServerEventView::Output(Ok(processes))] + outputs(launch_outs);
    let e4 = seq![ServerEventView::Ip(ip)];
    assert(start_script_events(listing, install_outs, processes, launch_outs, ip) =~= e1 + (e2 + (e3
        + e4)));
    let s1 = s.with_ssh();
    assert(s1.init_commands() == s.init_commands());
    assert(s1.main_commands() == s.main_commands());
    // Connection.
    lemma_start_actions_split(s, r0, e1, e2 + (e3 + e4));
    assert(e1.drop_first() =~= Seq::<ServerEventView>::empty());
    lemma_start_unfold(s, r0, e1);
    lemma_start_empty(s1, start_at(StartPhase::InstallCheck), e1.drop_first());
    assert(start_after(s, r0, e1) == (s1, start_at(StartPhase::InstallCheck)));
    assert(start_actions(s, r0, e1) =~= seq![ServerActionView::Exec(install_check_command())]);
    // Install phase.
    lemma_start_actions_split(s1, start_at(StartPhase::InstallCheck), e2, e3 + e4);
    lemma_install_phase(s1, listing, install_outs);
    // Launch phase.
    lemma_start_actions_split(s1, start_at(StartPhase::RunningCheck), e3, e4);
    lemma_launch_phase(s1, processes, launch_outs);
    // Address.
    let s2 = s1.with_state(State::STARTED);
    assert(e4.drop_first() =~= Seq::<ServerEventView>::empty());
    lemma_start_unfold(s2, start_at(StartPhase::FetchingIp), e4);
    lemma_start_empty(s2, start_at(StartPhase::Done), e4.drop_first());
    assert(start_actions(s2, start_at(StartPhase::FetchingIp), e4) =~= seq![
        ServerActionView::Finish(
            match ip {
                Some(a) => a,
                None => no_ip_message(),
            },
        ),
    ]);
    assert(start_actions(s, r0, e1 + (e2 + (e3 + e4))) =~= start_script(s, listing, processes, ip));
}


/// Once connected, a start whose commands all succeed sends, in order: the
/// listing of ~/spigot; every command of the configured init script, each
/// once, unless the listing shows spigot-1.16.4.jar; the process list; every
/// command of the configured main script, each once, unless the process list
/// shows spigot; then it looks up the address and answers with it (or with
/// "couldnt get ip").
pub proof fn lemma_start_runs_configured_scripts(
    s: MCServerView,
    init: Seq<Seq<char>>,
    main: Seq<Seq<char>>,
    listing: Seq<char>,
    install_outs: Seq<Seq<char>>,
    processes: Seq<char>,
    launch_outs: Seq<Seq<char>>,
    ip: Option<Seq<char>>,
)
    requires
        s.config.init_script == Some(init),
        s.config.main_script == Some(main),
        install_outs.len() == (if has_substring(listing, "spigot-1.16.4.jar"@) {
            0
        } else {
            init.len()
        }),
        launch_outs.len() == (if has_substring(processes, "spigot"@) {
            0
        } else {
            main.len()
        }),
    ensures
        start_actions(
            s,
            start_at(StartPhase::Connecting),
            start_script_events(listing, install_outs, processes, launch_outs, ip),
        ) == seq![ServerActionView::Exec("ls ~/spigot"@)] + (if has_substring(
            listing,
            "spigot-1.16.4.jar"@,
        ) {
            Seq::<ServerActionView>::empty()
        } else {
            init.map_values(|c: Seq<char>| ServerActionView::Run(c))
        }) + seq![ServerActionView::Exec("ps -aux"@)] + (if has_substring(processes, "spigot"@) {
            Seq::<ServerActionView>::empty()
        } else {
            main.map_values(|c: Seq<char>| ServerActionView::RunMain(c))
        }) + seq![
            ServerActionView::QueryIp,
            ServerActionView::Finish(
                match ip {
                    Some(a) => a,
                    None => "couldnt get ip"@,
                },
            ),
        ],
{
    lemma_start_follows_script(s, listing, install_outs, processes, launch_outs, ip);
    assert(runs(s.init_commands()) =~= init.map_values(|c: Seq<char>| ServerActionView::Run(c)));
    assert(main_runs(s.main_commands()) =~= main.map_values(
        |c: Seq<char>| ServerActionView::RunMain(c),
    ));
}

/// The actions a stop answers the events `es` with, in order.
pub open spec fn stop_actions(s: MCServerView, p: StopPhase, es: Seq<ServerEventView>) -> Seq<
    ServerActionView,
>
    decreases es.len(),
{
    if es.len() == 0 {
        Seq::empty()
    } else {
        let (s2, p2, a) = stop_next(s, p, es[0]);
        seq![a] + stop_actions(s2, p2, es.drop_first())
    }
}

/// `n` refused SSH connection attempts.
pub open spec fn refused_connections(n: nat) -> Seq<ServerEventView> {
    Seq::new(n, |i: int| ServerEventView::Connected(false))
}

proof fn lemma_stop_unfold(s: MCServerView, p: StopPhase, es: Seq<ServerEventView>)
    requires
        es.len() > 0,
    ensures
        stop_actions(s, p, es) == seq![stop_next(s, p, es[0]).2] + stop_actions(
            stop_next(s, p, es[0]).0,
            stop_next(s, p, es[0]).1,
            es.drop_first(),
        ),
        stop_after(s, p, es) == stop_after(
            stop_next(s, p, es[0]).0,
            stop_next(s, p, es[0]).1,
            es.drop_first(),
        ),
{
}

proof fn lemma_stop_retries(s: MCServerView, key: Seq<char>, n: nat, rest: Seq<ServerEventView>)
    requires
        s.config.ssh_key == Some(key),
    ensures
        stop_actions(s, StopPhase::Connecting, refused_connections(n) + rest) == Seq::new(
            n,
            |i: int| ServerActionView::RetryConnect(key),
        ) + stop_actions(s, StopPhase::Connecting, rest),
        stop_after(s, StopPhase::Connecting, refused_connections(n) + rest) == stop_after(
            s,
            StopPhase::Connecting,
            rest,
        ),
    decreases n,
{
    if n == 0 {
        assert(refused_connections(n) + rest =~= rest);
        assert(Seq::new(n, |i: int| ServerActionView::RetryConnect(key)) + stop_actions(
            s,
            StopPhase::Connecting,
            rest,
        ) =~= stop_actions(s, StopPhase::Connecting, rest));
    } else {
        let es = refused_connections(n) + rest;
        assert(es[0] == ServerEventView::Connected(false));
        assert(es.drop_first() =~= refused_connections((n - 1) as nat) + rest);
        lemma_stop_unfold(s, StopPhase::Connecting, es);
        lemma_stop_retries(s, key, (n - 1) as nat, rest);
        assert(Seq::new(n, |i: int| ServerActionView::RetryConnect(key)) =~= seq![
            ServerActionView::RetryConnect(key),
        ] + Seq::new((n - 1) as nat, |i: int| ServerActionView::RetryConnect(key)));
    }
}

/// A refused SSH connection during a stop is retried with the configured key,
/// the stop staying at its connecting step.
pub proof fn lemma_stop_retries_refused_connection(s: MCServerView, key: Seq<char>)
    requires
        s.config.ssh_key == Some(key),
    ensures
        stop_next(s, StopPhase::Connecting, ServerEventView::Connected(false)) == (
            s,
            StopPhase::Connecting,
            ServerActionView::RetryConnect(key),
        ),
{
}

/// A stop of a server without an SSH session connects with the configured key,
/// retries after every refused connection, and once connected types `stop`
/// into the game console, sends `sudo shutdown +1`, closes the session and is
/// done, with the server marked STOPPED, however many attempts were refused.
pub proof fn lemma_stop_survives_refused_connections(
    s: MCServerView,
    key: Seq<char>,
    n: nat,
    game_reply: Seq<char>,
    shutdown_reply: Seq<char>,
)
    requires
        !s.ssh_open,
        s.config.ssh_key == Some(key),
    ensures
        ({
            let es = seq![ServerEventView::Begin] + refused_connections(n) + seq![
                ServerEventView::Connected(true),
                ServerEventView::Output(Ok(game_reply)),
                ServerEventView::Output(Ok(shutdown_reply)),
                ServerEventView::Closed,
            ];
            &&& stop_after(s, StopPhase::Idle, es).1 == StopPhase::Done
            &&& stop_after(s, StopPhase::Idle, es).0.state == State::STOPPED
            &&& stop_actions(s, StopPhase::Idle, es) == seq![ServerActionView::Connect(key)]
                + Seq::new(n, |i: int| ServerActionView::RetryConnect(key)) + seq![
                ServerActionView::Run("sudo screen -S mc -X stuff \""@ + "stop"@ + "^M\""@),
                ServerActionView::Run("sudo shutdown +1"@),
                ServerActionView::Close,
                ServerActionView::Finish(Seq::empty()),
            ]
        }),
{
    let tail = seq![
        ServerEventView::Connected(true),
        ServerEventView::Output(Ok(game_reply)),
        ServerEventView::Output(Ok(shutdown_reply)),
        ServerEventView::Closed,
    ];
    let es = seq![ServerEventView::Begin] + refused_connections(n) + tail;
    assert(es[0] == ServerEventView::Begin);
    assert(es.drop_first() =~= refused_connections(n) + tail);
    lemma_stop_unfold(s, StopPhase::Idle, es);
    lemma_stop_retries(s, key, n, tail);
    let s1 = s.with_ssh();
    let s2 = s1.with_state(State::STOPPED);
    // Connected.
    lemma_stop_unfold(s, StopPhase::Connecting, tail);
    let t1 = tail.drop_first();
    assert(t1[0] == ServerEventView::Output(Ok(game_reply)));
    lemma_stop_unfold(s1, StopPhase::StoppingGame, t1);
    let t2 = t1.drop_first();
    assert(t2[0] == ServerEventView::Output(Ok(shutdown_reply)));
    lemma_stop_unfold(s2, StopPhase::ShuttingDown, t2);
    let t3 = t2.drop_first();
    assert(t3[0] == ServerEventView::Closed);
    lemma_stop_unfold(s2, StopPhase::Closing, t3);
    let t4 = t3.drop_first();
    assert(t4.len() == 0);
    assert(stop_actions(s2, StopPhase::Done, t4) =~= Seq::<ServerActionView>::empty());
    assert(stop_after(s2, StopPhase::Done, t4) == (s2, StopPhase::Done));
    assert(stop_actions(s, StopPhase::Idle, es) =~= seq![ServerActionView::Connect(key)]
        + Seq::new(n, |i: int| ServerActionView::RetryConnect(key)) + seq![
        ServerActionView::Run("sudo screen -S mc -X stuff \""@ + "stop"@ + "^M\""@),
        ServerActionView::Run("sudo shutdown +1"@),
        ServerActionView::Close,
        ServerActionView::Finish(Seq::empty()),
    ]);
}

} // verus!
