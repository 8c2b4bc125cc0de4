use tcp_relay::accept::AcceptLoop;
use tcp_relay::accept::LoopCommand;
use tcp_relay::accept::LoopEvent;
use tcp_relay::accept::LoopPhase;
use tcp_relay::accept::LoopReply;
use tcp_relay::accept::StopReason;
use tcp_relay::accept::LISTEN_BACKLOG;

fn quiet(command: LoopCommand) -> LoopReply {
    LoopReply { command, signal: false }
}

fn listening(timeout_secs: u32, now: u64) -> AcceptLoop {
    let mut accept_loop = AcceptLoop::new(timeout_secs);
    accept_loop.step(LoopEvent::Started);
    accept_loop.step(LoopEvent::Listening { now });
    accept_loop
}

fn idle_exit(timeout_secs: u32) -> LoopReply {
    quiet(LoopCommand::Exit { reason: StopReason::IdleTimeout { timeout_secs } })
}

#[test]
fn loop_binds_with_address_reuse_and_a_backlog() {
    let mut accept_loop = AcceptLoop::new(2);
    assert_eq!(accept_loop.phase(), LoopPhase::Created);
    assert_eq!(accept_loop.timeout_secs(), 2);
    assert_eq!(accept_loop.stopped(), None);
    assert_eq!(LISTEN_BACKLOG, 1024);
    assert_eq!(
        accept_loop.step(LoopEvent::Started),
        quiet(LoopCommand::Listen { reuse_address: true, backlog: 1024 })
    );
    assert_eq!(accept_loop.phase(), LoopPhase::Binding);
    assert_eq!(
        accept_loop.step(LoopEvent::Listening { now: 40 }),
        quiet(LoopCommand::Wait { deadline: 2040 })
    );
    assert_eq!(accept_loop.phase(), LoopPhase::Waiting);
    assert_eq!(accept_loop.deadline(), 2040);
}

#[test]
fn loop_does_not_accept_after_a_failed_bind() {
    let mut accept_loop = AcceptLoop::new(2);
    accept_loop.step(LoopEvent::Started);
    assert_eq!(
        accept_loop.step(LoopEvent::BindFailed),
        quiet(LoopCommand::Exit { reason: StopReason::BindFailed })
    );
    assert_eq!(accept_loop.phase(), LoopPhase::Stopped(StopReason::BindFailed));
    assert_eq!(accept_loop.stopped(), Some(StopReason::BindFailed));
    assert_eq!(accept_loop.step(LoopEvent::Accepted { now: 1 }), quiet(LoopCommand::Nothing));
    assert_eq!(accept_loop.step(LoopEvent::Listening { now: 1 }), quiet(LoopCommand::Nothing));
    assert_eq!(accept_loop.phase(), LoopPhase::Stopped(StopReason::BindFailed));
}

#[test]
fn loop_stops_when_nobody_connects() {
    let mut accept_loop = listening(2, 0);
    assert_eq!(accept_loop.deadline(), 2000);
    assert_eq!(
        accept_loop.step(LoopEvent::TimerElapsed { now: 1999 }),
        quiet(LoopCommand::Wait { deadline: 2000 })
    );
    assert_eq!(accept_loop.phase(), LoopPhase::Waiting);
    assert_eq!(accept_loop.step(LoopEvent::TimerElapsed { now: 2000 }), idle_exit(2));
    assert_eq!(
        accept_loop.phase(),
        LoopPhase::Stopped(StopReason::IdleTimeout { timeout_secs: 2 })
    );
    assert_eq!(accept_loop.stopped(), Some(StopReason::IdleTimeout { timeout_secs: 2 }));
}

#[test]
fn loop_stops_within_the_margin_of_a_late_timer() {
    let mut accept_loop = listening(2, 100);
    assert_eq!(accept_loop.step(LoopEvent::TimerElapsed { now: 2350 }), idle_exit(2));
}

#[test]
fn loop_with_no_window_stops_at_its_first_check() {
    let mut accept_loop = AcceptLoop::new(0);
    accept_loop.step(LoopEvent::Started);
    assert_eq!(
        accept_loop.step(LoopEvent::Listening { now: 70 }),
        quiet(LoopCommand::Wait { deadline: 70 })
    );
    assert_eq!(accept_loop.step(LoopEvent::TimerElapsed { now: 70 }), idle_exit(0));
}

#[test]
fn loop_is_kept_alive_by_steady_traffic() {
    let mut accept_loop = listening(2, 0);
    assert_eq!(accept_loop.step(LoopEvent::Accepted { now: 100 }), quiet(LoopCommand::Connect));
    assert_eq!(
        accept_loop.step(LoopEvent::Connected),
        LoopReply { command: LoopCommand::StartSession { deadline: 2100 }, signal: true }
    );
    let mut now = 100;
    while now <= 10_100 {
        assert_eq!(
            accept_loop.step(LoopEvent::Activity { now }),
            quiet(LoopCommand::Wait { deadline: now + 2000 })
        );
        assert_eq!(
            accept_loop.step(LoopEvent::TimerElapsed { now: now + 999 }),
            quiet(LoopCommand::Wait { deadline: now + 2000 })
        );
        assert_eq!(accept_loop.phase(), LoopPhase::Waiting);
        now += 1000;
    }
    assert_eq!(accept_loop.stopped(), None);
    assert_eq!(accept_loop.deadline(), 12_100);
    assert_eq!(accept_loop.step(LoopEvent::TimerElapsed { now: 12_100 }), idle_exit(2));
}

#[test]
fn loop_stops_while_a_silent_session_is_open() {
    let mut accept_loop = listening(2, 0);
    accept_loop.step(LoopEvent::Accepted { now: 500 });
    assert_eq!(accept_loop.phase(), LoopPhase::Connecting);
    accept_loop.step(LoopEvent::Connected);
    assert_eq!(
        accept_loop.step(LoopEvent::Activity { now: 510 }),
        quiet(LoopCommand::Wait { deadline: 2510 })
    );
    assert_eq!(
        accept_loop.step(LoopEvent::TimerElapsed { now: 2509 }),
        quiet(LoopCommand::Wait { deadline: 2510 })
    );
    assert_eq!(accept_loop.step(LoopEvent::TimerElapsed { now: 2510 }), idle_exit(2));
    assert_eq!(accept_loop.stopped(), Some(StopReason::IdleTimeout { timeout_secs: 2 }));
}

#[test]
fn loop_survives_a_destination_that_refuses() {
    let mut accept_loop = listening(2, 0);
    assert_eq!(accept_loop.step(LoopEvent::Accepted { now: 300 }), quiet(LoopCommand::Connect));
    assert_eq!(
        accept_loop.step(LoopEvent::ConnectFailed),
        quiet(LoopCommand::ReportConnectFailure { deadline: 2300 })
    );
    assert_eq!(accept_loop.phase(), LoopPhase::Waiting);
    assert_eq!(accept_loop.step(LoopEvent::Accepted { now: 900 }), quiet(LoopCommand::Connect));
    assert_eq!(
        accept_loop.step(LoopEvent::ConnectFailed),
        quiet(LoopCommand::ReportConnectFailure { deadline: 2900 })
    );
    assert_eq!(accept_loop.step(LoopEvent::Accepted { now: 1000 }), quiet(LoopCommand::Connect));
    assert_eq!(
        accept_loop.step(LoopEvent::Connected),
        LoopReply { command: LoopCommand::StartSession { deadline: 3000 }, signal: true }
    );
    assert_eq!(accept_loop.phase(), LoopPhase::Waiting);
    assert_eq!(accept_loop.stopped(), None);
}

#[test]
fn loop_stops_when_accepting_fails() {
    let mut accept_loop = listening(2, 0);
    assert_eq!(
        accept_loop.step(LoopEvent::AcceptFailed),
        quiet(LoopCommand::Exit { reason: StopReason::AcceptFailed })
    );
    assert_eq!(accept_loop.stopped(), Some(StopReason::AcceptFailed));
    assert_eq!(accept_loop.step(LoopEvent::Accepted { now: 5 }), quiet(LoopCommand::Nothing));
    assert_eq!(accept_loop.step(LoopEvent::TimerElapsed { now: 9000 }), quiet(LoopCommand::Nothing));
    assert_eq!(accept_loop.stopped(), Some(StopReason::AcceptFailed));
}

#[test]
fn loop_takes_signs_of_life_in_any_order() {
    let mut accept_loop = listening(2, 0);
    assert_eq!(
        accept_loop.step(LoopEvent::Activity { now: 1500 }),
        quiet(LoopCommand::Wait { deadline: 3500 })
    );
    assert_eq!(
        accept_loop.step(LoopEvent::Activity { now: 1200 }),
        quiet(LoopCommand::Wait { deadline: 3500 })
    );
    assert_eq!(accept_loop.deadline(), 3500);
}

#[test]
fn loop_leaves_unasked_events_unanswered() {
    let mut accept_loop = AcceptLoop::new(2);
    assert_eq!(accept_loop.step(LoopEvent::Accepted { now: 1 }), quiet(LoopCommand::Nothing));
    assert_eq!(accept_loop.step(LoopEvent::TimerElapsed { now: 9000 }), quiet(LoopCommand::Nothing));
    assert_eq!(accept_loop.phase(), LoopPhase::Created);
    accept_loop.step(LoopEvent::Started);
    assert_eq!(accept_loop.step(LoopEvent::Started), quiet(LoopCommand::Nothing));
    assert_eq!(accept_loop.step(LoopEvent::Activity { now: 9000 }), quiet(LoopCommand::Nothing));
    assert_eq!(accept_loop.step(LoopEvent::AcceptFailed), quiet(LoopCommand::Nothing));
    assert_eq!(accept_loop.phase(), LoopPhase::Binding);
    accept_loop.step(LoopEvent::Listening { now: 0 });
    assert_eq!(accept_loop.step(LoopEvent::Connected), quiet(LoopCommand::Nothing));
    assert_eq!(accept_loop.step(LoopEvent::ConnectFailed), quiet(LoopCommand::Nothing));
    assert_eq!(accept_loop.step(LoopEvent::BindFailed), quiet(LoopCommand::Nothing));
    assert_eq!(accept_loop.phase(), LoopPhase::Waiting);
    accept_loop.step(LoopEvent::Accepted { now: 10 });
    assert_eq!(accept_loop.step(LoopEvent::Accepted { now: 20 }), quiet(LoopCommand::Nothing));
    assert_eq!(accept_loop.step(LoopEvent::Activity { now: 5000 }), quiet(LoopCommand::Nothing));
    assert_eq!(accept_loop.step(LoopEvent::TimerElapsed { now: 9000 }), quiet(LoopCommand::Nothing));
    assert_eq!(accept_loop.step(LoopEvent::AcceptFailed), quiet(LoopCommand::Nothing));
    assert_eq!(accept_loop.phase(), LoopPhase::Connecting);
    assert_eq!(accept_loop.deadline(), 2010);
}

#[test]
fn loop_deadline_stops_at_the_end_of_the_clock() {
    let mut accept_loop = AcceptLoop::new(u32::MAX);
    accept_loop.step(LoopEvent::Started);
    assert_eq!(
        accept_loop.step(LoopEvent::Listening { now: u64::MAX - 5 }),
        quiet(LoopCommand::Wait { deadline: u64::MAX })
    );
    assert_eq!(
        accept_loop.step(LoopEvent::TimerElapsed { now: u64::MAX }),
        quiet(LoopCommand::Wait { deadline: u64::MAX })
    );
    assert_eq!(accept_loop.stopped(), None);
}
