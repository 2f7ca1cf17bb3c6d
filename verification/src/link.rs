//! Link sessions: which step of the handshake a channel to the vehicle has
//! reached, what is to be done next, and what a success or a failure of that
//! step leads to.
//!
//! No socket is touched here. The caller performs the action that a session
//! names and reports whether it succeeded.

use vstd::prelude::*;

verus! {

/// Milliseconds between two heartbeat datagrams.
pub const HEARTBEAT_PERIOD_MS: u64 = 50;

/// Length of the neutral gamepad datagram that the heartbeat sends.
pub const HEARTBEAT_DATAGRAM_LEN: usize = 8;

/// How a channel carries its bytes.
#[derive(Clone, Copy, Debug, PartialEq, Eq, Structural)]
pub enum Transport {
    Tcp,
    Udp,
}

/// The three channels to the vehicle.
#[derive(Clone, Copy, Debug, PartialEq, Eq, Structural)]
pub enum Channel {
    /// Commands, over TCP, opened by one authentication block.
    Control,
    /// The raw video stream, over TCP, opened by three magic blocks.
    Video,
    /// The keep-alive datagrams, over UDP, without a handshake.
    Heartbeat,
}

/// The fixed byte sequences of the protocol, by name.
#[derive(Clone, Copy, Debug, PartialEq, Eq, Structural)]
pub enum MagicBlock {
    Authentication,
    VideoStageA,
    VideoStageB,
    VideoReady,
}

/// How far a session has come.
#[derive(Clone, Copy, Debug, PartialEq, Eq, Structural)]
pub enum Stage {
    /// Nothing has been done yet.
    Closed,
    /// The socket is open; no block has been sent.
    Connected,
    /// The first block of the video handshake is out.
    StageASent,
    /// The second block of the video handshake is out.
    StageBSent,
    /// The channel is open for its traffic.
    Ready,
    /// A step has failed; the channel is abandoned.
    Failed,
}

/// What the caller is to do with the channel next.
#[derive(Clone, Copy, Debug, PartialEq, Eq, Structural)]
pub enum LinkAction {
    /// Open the socket: connect over TCP, bind over UDP.
    Open,
    /// Write this block to the socket.
    Send(MagicBlock),
    /// Carry the channel's traffic: commands out, or video bytes in.
    Stream,
    /// Send the neutral datagram, then wait this many milliseconds.
    Beat { period_ms: u64 },
    /// Do nothing more: the channel is abandoned.
    Abandon,
}

/// The address of the vehicle's endpoint.
#[derive(Clone, Copy, Debug, PartialEq, Eq)]
pub struct Endpoint {
    pub address: [u8; 4],
    pub port: u16,
}

/// The transport that a channel uses.
pub open spec fn transport_of(channel: Channel) -> Transport {
    match channel {
        Channel::Control => Transport::Tcp,
        Channel::Video => Transport::Tcp,
        Channel::Heartbeat => Transport::Udp,
    }
}

/// The stage is one that the channel's handshake passes through.
pub open spec fn stage_valid(channel: Channel, stage: Stage) -> bool {
    match channel {
        Channel::Control => stage != Stage::StageASent && stage != Stage::StageBSent,
        Channel::Video => true,
        Channel::Heartbeat => stage == Stage::Closed || stage == Stage::Ready || stage
            == Stage::Failed,
    }
}

/// The action that a channel at `stage` calls for.
pub open spec fn action_for(channel: Channel, stage: Stage) -> LinkAction {
    match (channel, stage) {
        (_, Stage::Closed) => LinkAction::Open,
        (Channel::Control, Stage::Connected) => LinkAction::Send(MagicBlock::Authentication),
        (Channel::Video, Stage::Connected) => LinkAction::Send(MagicBlock::VideoStageA),
        (Channel::Video, Stage::StageASent) => LinkAction::Send(MagicBlock::VideoStageB),
        (Channel::Video, Stage::StageBSent) => LinkAction::Send(MagicBlock::VideoReady),
        (Channel::Control, Stage::Ready) => LinkAction::Stream,
        (Channel::Video, Stage::Ready) => LinkAction::Stream,
        (Channel::Heartbeat, Stage::Ready) => LinkAction::Beat { period_ms: HEARTBEAT_PERIOD_MS },
        _ => LinkAction::Abandon,
    }
}

/// The stage that follows a success of the action at `stage`.
pub open spec fn stage_after_success(channel: Channel, stage: Stage) -> Stage {
    match (channel, stage) {
        (Channel::Control, Stage::Closed) => Stage::Connected,
        (Channel::Control, Stage::Connected) => Stage::Ready,
        (Channel::Video, Stage::Closed) => Stage::Connected,
        (Channel::Video, Stage::Connected) => Stage::StageASent,
        (Channel::Video, Stage::StageASent) => Stage::StageBSent,
        (Channel::Video, Stage::StageBSent) => Stage::Ready,
        (Channel::Heartbeat, Stage::Closed) => Stage::Ready,
        (_, Stage::Ready) => Stage::Ready,
        _ => Stage::Failed,
    }
}

/// The stage that follows the action at `stage`, given whether it
/// succeeded. A failure abandons the channel, except that a heartbeat that
/// could not be sent is only skipped. Nothing leads out of `Failed`.
pub open spec fn stage_after(channel: Channel, stage: Stage, succeeded: bool) -> Stage {
    if succeeded {
        stage_after_success(channel, stage)
    } else if channel == Channel::Heartbeat && stage == Stage::Ready {
        Stage::Ready
    } else {
        Stage::Failed
    }
}

/// The stage reached from `stage` after a sequence of reported outcomes.
pub open spec fn stage_after_all(channel: Channel, stage: Stage, outcomes: Seq<bool>) -> Stage
    decreases outcomes.len(),
{
    if outcomes.len() == 0 {
        stage
    } else {
        stage_after(channel, stage_after_all(channel, stage, outcomes.drop_last()), outcomes.last())
    }
}

/// Number of steps that a channel's handshake takes.
pub open spec fn handshake_steps(channel: Channel) -> nat {
    match channel {
        Channel::Control => 2,
        Channel::Video => 4,
        Channel::Heartbeat => 1,
    }
}

/// How many steps of its handshake a channel at `stage` has behind it.
pub open spec fn progress(channel: Channel, stage: Stage) -> nat {
    match (channel, stage) {
        (_, Stage::Closed) => 0,
        (_, Stage::Connected) => 1,
        (_, Stage::StageASent) => 2,
        (_, Stage::StageBSent) => 3,
        (_, Stage::Ready) => handshake_steps(channel),
        (_, Stage::Failed) => 0,
    }
}

/// One step keeps the stage among those of the channel, takes a success one
/// step further, and never leaves `Failed`.
pub proof fn lemma_step_properties(channel: Channel, stage: Stage, succeeded: bool)
    requires
        stage_valid(channel, stage),
    ensures
        stage_valid(channel, stage_after(channel, stage, succeeded)),
        stage == Stage::Failed ==> stage_after(channel, stage, succeeded) == Stage::Failed,
        action_for(channel, Stage::Failed) == LinkAction::Abandon,
        succeeded && stage != Stage::Failed && stage != Stage::Ready ==> progress(
            channel,
            stage_after(channel, stage, succeeded),
        ) == progress(channel, stage) + 1,
        !succeeded && transport_of(channel) == Transport::Tcp ==> stage_after(
            channel,
            stage,
            succeeded,
        ) == Stage::Failed,
{
}

/// There is no retry: once a step of a TCP channel has failed, the channel
/// is abandoned whatever is reported afterwards.
pub proof fn lemma_failure_is_final(channel: Channel, stage: Stage, outcomes: Seq<bool>, k: int)
    requires
        transport_of(channel) == Transport::Tcp,
        0 <= k < outcomes.len(),
        !outcomes[k],
    ensures
        stage_after_all(channel, stage, outcomes) == Stage::Failed,
    decreases outcomes.len(),
{
    let before = outcomes.drop_last();
    if k < outcomes.len() - 1 {
        assert(before[k] == outcomes[k]);
        lemma_failure_is_final(channel, stage, before, k);
    }
}

/// A heartbeat channel whose socket is open stays ready whatever its sends
/// report.
pub proof fn lemma_heartbeat_never_stops(outcomes: Seq<bool>)
    ensures
        stage_after_all(Channel::Heartbeat, Stage::Ready, outcomes) == Stage::Ready,
    decreases outcomes.len(),
{
    if outcomes.len() > 0 {
        lemma_heartbeat_never_stops(outcomes.drop_last());
    }
}

/// One channel to the vehicle and the stage it has reached.
#[derive(Clone, Copy, Debug, PartialEq, Eq)]
pub struct LinkSession {
    pub endpoint: Endpoint,
    pub transport: Transport,
    pub channel: Channel,
    pub stage: Stage,
}

impl LinkSession {
    /// The transport is the channel's, and the stage is one of its stages.
    pub open spec fn wf(&self) -> bool {
        self.transport == transport_of(self.channel) && stage_valid(self.channel, self.stage)
    }

    /// A session on which nothing has been done yet.
    pub fn new(channel: Channel, endpoint: Endpoint) -> (s: LinkSession)
        ensures
            s.channel == channel,
            s.endpoint == endpoint,
            s.transport == transport_of(channel),
            s.stage == Stage::Closed,
            s.wf(),
    {
        let transport = match channel {
            Channel::Control => Transport::Tcp,
            Channel::Video => Transport::Tcp,
            Channel::Heartbeat => Transport::Udp,
        };
        LinkSession { endpoint, transport, channel, stage: Stage::Closed }
    }

    /// What is to be done with the channel next.
    pub fn next_action(&self) -> (action: LinkAction)
        ensures
            action == action_for(self.channel, self.stage),
    {
        match (self.channel, self.stage) {
            (_, Stage::Closed) => LinkAction::Open,
            (Channel::Control, Stage::Connected) => LinkAction::Send(MagicBlock::Authentication),
            (Channel::Video, Stage::Connected) => LinkAction::Send(MagicBlock::VideoStageA),
            (Channel::Video, Stage::StageASent) => LinkAction::Send(MagicBlock::VideoStageB),
            (Channel::Video, Stage::StageBSent) => LinkAction::Send(MagicBlock::VideoReady),
            (Channel::Control, Stage::Ready) => LinkAction::Stream,
            (Channel::Video, Stage::Ready) => LinkAction::Stream,
            (Channel::Heartbeat, Stage::Ready) => LinkAction::Beat {
                period_ms: HEARTBEAT_PERIOD_MS,
            },
            _ => LinkAction::Abandon,
        }
    }

    /// Takes in whether the action last named succeeded.
    pub fn report(&mut self, succeeded: bool)
        ensures
            final(self).stage == stage_after(old(self).channel, old(self).stage, succeeded),
            final(self).channel == old(self).channel,
            final(self).transport == old(self).transport,
            final(self).endpoint == old(self).endpoint,
            old(self).wf() ==> final(self).wf(),
    {
        let next = if succeeded {
            match (self.channel, self.stage) {
                (Channel::Control, Stage::Closed) => Stage::Connected,
                (Channel::Control, Stage::Connected) => Stage::Ready,
                (Channel::Video, Stage::Closed) => Stage::Connected,
                (Channel::Video, Stage::Connected) => Stage::StageASent,
                (Channel::Video, Stage::StageASent) => Stage::StageBSent,
                (Channel::Video, Stage::StageBSent) => Stage::Ready,
                (Channel::Heartbeat, Stage::Closed) => Stage::Ready,
                (_, Stage::Ready) => Stage::Ready,
                _ => Stage::Failed,
            }
        } else {
            match (self.channel, self.stage) {
                (Channel::Heartbeat, Stage::Ready) => Stage::Ready,
                _ => Stage::Failed,
            }
        };
        self.stage = next;
    }

    /// Whether the channel is open for its traffic.
    pub fn is_ready(&self) -> (b: bool)
        ensures
            b == (self.stage == Stage::Ready),
    {
        self.stage == Stage::Ready
    }

    /// Whether the channel has been abandoned.
    pub fn has_failed(&self) -> (b: bool)
        ensures
            b == (self.stage == Stage::Failed),
    {
        self.stage == Stage::Failed
    }
}

/// What the program can still do, given how its channels fared.
#[derive(Clone, Copy, Debug, PartialEq, Eq, Structural)]
pub enum OperatingMode {
    /// Commands go out and video comes in.
    Full,
    /// Commands go out; there is no video to steer by.
    ControlOnly,
    /// Video comes in; no command can be sent.
    VideoOnly,
    /// Neither channel is open.
    Inert,
}

/// The operating mode for the given stages of the control and video
/// channels. A failure of one channel leaves the other as it is.
pub open spec fn mode_for(control: Stage, video: Stage) -> OperatingMode {
    if control == Stage::Ready && video == Stage::Ready {
        OperatingMode::Full
    } else if control == Stage::Ready {
        OperatingMode::ControlOnly
    } else if video == Stage::Ready {
        OperatingMode::VideoOnly
    } else {
        OperatingMode::Inert
    }
}

/// Decides what the program can still do.
pub fn operating_mode(control: &LinkSession, video: &LinkSession) -> (mode: OperatingMode)
    ensures
        mode == mode_for(control.stage, video.stage),
{
    let c = control.is_ready();
    let v = video.is_ready();
    if c && v {
        OperatingMode::Full
    } else if c {
        OperatingMode::ControlOnly
    } else if v {
        OperatingMode::VideoOnly
    } else {
        OperatingMode::Inert
    }
}

/// Whether the bytes have the length of the heartbeat datagram.
pub fn is_heartbeat_datagram(datagram: &[u8]) -> (b: bool)
    ensures
        b == (datagram@.len() == HEARTBEAT_DATAGRAM_LEN),
{
    datagram.len() == HEARTBEAT_DATAGRAM_LEN
}

/// Whether the heartbeat may be started: only once the control handshake
/// has succeeded.
pub fn heartbeat_may_start(control: &LinkSession) -> (b: bool)
    ensures
        b == (control.stage == Stage::Ready),
{
    control.is_ready()
}

} // verus!
