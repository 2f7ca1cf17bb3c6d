use drone_tracking::link::{
    heartbeat_may_start, is_heartbeat_datagram, operating_mode, Channel, Endpoint, LinkAction,
    LinkSession, MagicBlock, OperatingMode, Stage, Transport, HEARTBEAT_DATAGRAM_LEN,
    HEARTBEAT_PERIOD_MS,
};

fn endpoint() -> Endpoint {
    Endpoint { address: [10, 0, 0, 1], port: 4000 }
}

fn ready(channel: Channel) -> LinkSession {
    let mut s = LinkSession::new(channel, endpoint());
    while s.next_action() != LinkAction::Stream
        && s.next_action() != (LinkAction::Beat { period_ms: 50 })
    {
        s.report(true);
    }
    s
}

#[test]
fn heartbeat_constants() {
    assert_eq!(HEARTBEAT_PERIOD_MS, 50);
    assert_eq!(HEARTBEAT_DATAGRAM_LEN, 8);
    assert!(is_heartbeat_datagram(&[0; 8]));
    assert!(!is_heartbeat_datagram(&[0; 7]));
    assert!(!is_heartbeat_datagram(&[0; 9]));
    assert!(!is_heartbeat_datagram(&[]));
}

#[test]
fn new_session_is_closed_on_the_transport_of_its_channel() {
    let c = LinkSession::new(Channel::Control, endpoint());
    assert_eq!(c.transport, Transport::Tcp);
    assert_eq!(c.stage, Stage::Closed);
    assert_eq!(c.channel, Channel::Control);
    assert_eq!(c.endpoint, endpoint());
    assert_eq!(LinkSession::new(Channel::Video, endpoint()).transport, Transport::Tcp);
    assert_eq!(LinkSession::new(Channel::Heartbeat, endpoint()).transport, Transport::Udp);
    assert!(!c.is_ready());
    assert!(!c.has_failed());
}

#[test]
fn control_handshake_is_connect_then_authenticate() {
    let mut s = LinkSession::new(Channel::Control, endpoint());
    assert_eq!(s.next_action(), LinkAction::Open);
    s.report(true);
    assert_eq!(s.stage, Stage::Connected);
    assert_eq!(s.next_action(), LinkAction::Send(MagicBlock::Authentication));
    s.report(true);
    assert_eq!(s.stage, Stage::Ready);
    assert!(s.is_ready());
    assert_eq!(s.next_action(), LinkAction::Stream);
    s.report(true);
    assert_eq!(s.stage, Stage::Ready);
}

#[test]
fn video_handshake_sends_three_blocks_in_order() {
    let mut s = LinkSession::new(Channel::Video, endpoint());
    let mut actions = Vec::new();
    let mut stages = Vec::new();
    for _ in 0..5 {
        actions.push(s.next_action());
        s.report(true);
        stages.push(s.stage);
    }
    assert_eq!(
        actions,
        vec![
            LinkAction::Open,
            LinkAction::Send(MagicBlock::VideoStageA),
            LinkAction::Send(MagicBlock::VideoStageB),
            LinkAction::Send(MagicBlock::VideoReady),
            LinkAction::Stream,
        ]
    );
    assert_eq!(
        stages,
        vec![Stage::Connected, Stage::StageASent, Stage::StageBSent, Stage::Ready, Stage::Ready]
    );
}

#[test]
fn heartbeat_needs_no_handshake() {
    let mut s = LinkSession::new(Channel::Heartbeat, endpoint());
    assert_eq!(s.next_action(), LinkAction::Open);
    s.report(true);
    assert_eq!(s.stage, Stage::Ready);
    assert_eq!(s.next_action(), LinkAction::Beat { period_ms: 50 });
}

#[test]
fn failure_at_any_step_abandons_a_tcp_channel() {
    for channel in [Channel::Control, Channel::Video] {
        for good_steps in 0..6 {
            let mut s = LinkSession::new(channel, endpoint());
            for _ in 0..good_steps {
                s.report(true);
            }
            s.report(false);
            assert_eq!(s.stage, Stage::Failed);
            assert!(s.has_failed());
            assert_eq!(s.next_action(), LinkAction::Abandon);
        }
    }
}

#[test]
fn there_is_no_way_out_of_failed() {
    for channel in [Channel::Control, Channel::Video, Channel::Heartbeat] {
        let mut s = LinkSession::new(channel, endpoint());
        s.report(false);
        assert_eq!(s.stage, Stage::Failed);
        for ok in [true, false, true, true] {
            s.report(ok);
            assert_eq!(s.stage, Stage::Failed);
            assert_eq!(s.next_action(), LinkAction::Abandon);
        }
    }
}

#[test]
fn failed_heartbeat_send_is_skipped() {
    let mut s = ready(Channel::Heartbeat);
    for ok in [false, true, false, false] {
        s.report(ok);
        assert_eq!(s.stage, Stage::Ready);
        assert_eq!(s.next_action(), LinkAction::Beat { period_ms: 50 });
    }
}

#[test]
fn stages_of_another_channel_are_abandoned() {
    let mut s = LinkSession::new(Channel::Control, endpoint());
    s.stage = Stage::StageASent;
    assert_eq!(s.next_action(), LinkAction::Abandon);
    s.report(true);
    assert_eq!(s.stage, Stage::Failed);
    let mut h = LinkSession::new(Channel::Heartbeat, endpoint());
    h.stage = Stage::Connected;
    assert_eq!(h.next_action(), LinkAction::Abandon);
    h.report(true);
    assert_eq!(h.stage, Stage::Failed);
}

#[test]
fn heartbeat_starts_only_after_the_control_handshake() {
    let mut control = LinkSession::new(Channel::Control, endpoint());
    assert!(!heartbeat_may_start(&control));
    control.report(true);
    assert!(!heartbeat_may_start(&control));
    control.report(true);
    assert!(heartbeat_may_start(&control));
    control.report(false);
    assert!(!heartbeat_may_start(&control));
}

#[test]
fn failed_video_leaves_control_alone() {
    let control = ready(Channel::Control);
    let mut video = LinkSession::new(Channel::Video, endpoint());
    video.report(true);
    video.report(false);
    assert_eq!(operating_mode(&control, &video), OperatingMode::ControlOnly);
    assert!(control.is_ready());
    assert!(heartbeat_may_start(&control));
}

#[test]
fn operating_mode_follows_the_two_channels() {
    let closed_c = LinkSession::new(Channel::Control, endpoint());
    let closed_v = LinkSession::new(Channel::Video, endpoint());
    let mut failed_c = closed_c;
    failed_c.report(false);
    let ready_c = ready(Channel::Control);
    assert_eq!(operating_mode(&ready_c, &ready(Channel::Video)), OperatingMode::Full);
    assert_eq!(operating_mode(&failed_c, &ready(Channel::Video)), OperatingMode::VideoOnly);
    assert_eq!(operating_mode(&ready(Channel::Control), &closed_v), OperatingMode::ControlOnly);
    assert_eq!(operating_mode(&failed_c, &closed_v), OperatingMode::Inert);
    assert_eq!(operating_mode(&closed_c, &closed_v), OperatingMode::Inert);
}
