//! The order of work on a packet that is transcoded.
//!
//! Decoding, scaling and encoding is the caller's part. What is to be done next is
//! said here; the caller does it and reports how it went.
use crate::transcode::FramePlan;
use vstd::prelude::*;

verus! {

/// What happened while a packet is decoded.
#[derive(Clone, Copy, Debug, PartialEq, Eq, Structural)]
pub enum DecodeEvent {
    /// A packet arrived.
    Packet { has_decoder: bool },
    /// Whether a missing decoder could be rebuilt.
    Rebuilt(bool),
    /// Whether the decoder took the packet.
    Sent(bool),
    /// The decoder gave a frame.
    Frame,
    /// The decoder has no frame now.
    NoFrame,
    /// The decoder failed.
    Failed,
}

/// What is to be done with the decoder.
#[derive(Clone, Copy, Debug, PartialEq, Eq, Structural)]
pub enum DecodeAction {
    /// Rebuild the decoder, and go on where that succeeds.
    Rebuild,
    /// Send the packet.
    Send,
    /// Ask for a frame.
    Receive,
    /// Keep the frame and ask for the next.
    Collect,
    /// No more frames for this packet.
    Stop,
    /// Drop the frame, rebuild the decoder, and ask for no more frames.
    RebuildAndStop,
}

/// What is to be done with the decoder. A missing one is rebuilt, and where that
/// fails the packet is dropped; one that fails is rebuilt for the next packet.
pub fn decode_action(event: DecodeEvent) -> (r: DecodeAction)
    ensures
        r == match event {
            DecodeEvent::Packet { has_decoder: true } => DecodeAction::Send,
            DecodeEvent::Packet { has_decoder: false } => DecodeAction::Rebuild,
            DecodeEvent::Rebuilt(true) => DecodeAction::Send,
            DecodeEvent::Rebuilt(false) => DecodeAction::Stop,
            DecodeEvent::Sent(true) => DecodeAction::Receive,
            DecodeEvent::Sent(false) => DecodeAction::RebuildAndStop,
            DecodeEvent::Frame => DecodeAction::Collect,
            DecodeEvent::NoFrame => DecodeAction::Stop,
            DecodeEvent::Failed => DecodeAction::RebuildAndStop,
        },
{
    match event {
        DecodeEvent::Packet { has_decoder } => if has_decoder {
            DecodeAction::Send
        } else {
            DecodeAction::Rebuild
        },
        DecodeEvent::Rebuilt(ok) => if ok {
            DecodeAction::Send
        } else {
            DecodeAction::Stop
        },
        DecodeEvent::Sent(ok) => if ok {
            DecodeAction::Receive
        } else {
            DecodeAction::RebuildAndStop
        },
        DecodeEvent::Frame => DecodeAction::Collect,
        DecodeEvent::NoFrame => DecodeAction::Stop,
        DecodeEvent::Failed => DecodeAction::RebuildAndStop,
    }
}

/// How far the encoding of a frame has come.
#[derive(Clone, Copy, Debug, PartialEq, Eq, Structural)]
pub enum EncodeStage {
    /// What it takes is being made.
    Preparing,
    /// The frame was scaled into the target frame.
    Scaled,
    /// The encoder took the frame.
    Sent,
    /// All packets of the frame were taken.
    Encoded,
    /// The frame was dropped.
    Dropped,
}

/// What is to be done to encode a frame.
#[derive(Clone, Copy, Debug, PartialEq, Eq, Structural)]
pub enum EncodeAction {
    /// Make the encoder for the plan's size.
    CreateEncoder,
    /// Make the scaler from the frame's format and size to the plan's.
    CreateScaler,
    /// Make the frame that is scaled into.
    CreateTarget,
    /// Scale the frame into the target, and carry its time over.
    Scale,
    /// Send the frame itself.
    SendFrame,
    /// Send the target frame.
    SendTarget,
    /// Ask for a packet.
    Receive,
    /// Nothing: the frame counts as encoded.
    Finish,
    /// Nothing: the frame is dropped.
    Drop,
}

/// How the work asked for went.
#[derive(Clone, Copy, Debug, PartialEq, Eq, Structural)]
pub enum EncodeOutcome {
    /// It was done. Of a packet asked for: there is one, and it was taken.
    Done,
    /// There is no packet now.
    NoPacket,
    /// It failed.
    Failed,
}

/// The encoding of one frame.
#[derive(Clone, Copy, Debug, PartialEq, Eq, Structural)]
pub struct EncodeFlow {
    pub plan: FramePlan,
    pub has_encoder: bool,
    pub has_scaler: bool,
    pub has_target: bool,
    pub stage: EncodeStage,
}

impl EncodeFlow {
    /// What is to be done next: the encoder is made on the first frame, whose size
    /// is known only then; scaler and target on the first one that needs scaling.
    pub open spec fn action(self) -> EncodeAction {
        match self.stage {
            EncodeStage::Preparing => if !self.has_encoder {
                EncodeAction::CreateEncoder
            } else if self.plan.direct {
                EncodeAction::SendFrame
            } else if !self.has_scaler {
                EncodeAction::CreateScaler
            } else if !self.has_target {
                EncodeAction::CreateTarget
            } else {
                EncodeAction::Scale
            },
            EncodeStage::Scaled => EncodeAction::SendTarget,
            EncodeStage::Sent => EncodeAction::Receive,
            EncodeStage::Encoded => EncodeAction::Finish,
            EncodeStage::Dropped => EncodeAction::Drop,
        }
    }

    /// The flow after the work asked for. What was made is kept, also where the
    /// frame is dropped.
    pub open spec fn after(self, outcome: EncodeOutcome) -> EncodeFlow {
        match (self.action(), outcome) {
            (EncodeAction::Finish, _) => self,
            (EncodeAction::Drop, _) => self,
            (_, EncodeOutcome::Failed) => EncodeFlow { stage: EncodeStage::Dropped, ..self },
            (EncodeAction::Receive, EncodeOutcome::NoPacket) => EncodeFlow {
                stage: EncodeStage::Encoded,
                ..self
            },
            (_, EncodeOutcome::NoPacket) => self,
            (EncodeAction::CreateEncoder, _) => EncodeFlow { has_encoder: true, ..self },
            (EncodeAction::CreateScaler, _) => EncodeFlow { has_scaler: true, ..self },
            (EncodeAction::CreateTarget, _) => EncodeFlow { has_target: true, ..self },
            (EncodeAction::Scale, _) => EncodeFlow { stage: EncodeStage::Scaled, ..self },
            (EncodeAction::SendFrame, _) => EncodeFlow { stage: EncodeStage::Sent, ..self },
            (EncodeAction::SendTarget, _) => EncodeFlow { stage: EncodeStage::Sent, ..self },
            (EncodeAction::Receive, _) => self,
        }
    }

    /// The encoding of a frame, by what earlier frames have left.
    pub fn new(plan: FramePlan, has_encoder: bool, has_scaler: bool, has_target: bool) -> (r: Self)
        ensures
            r == (EncodeFlow {
                plan,
                has_encoder,
                has_scaler,
                has_target,
                stage: EncodeStage::Preparing,
            }),
    {
        EncodeFlow { plan, has_encoder, has_scaler, has_target, stage: EncodeStage::Preparing }
    }

    /// What is to be done next.
    pub fn next_action(&self) -> (r: EncodeAction)
        ensures
            r == self.action(),
    {
        match self.stage {
            EncodeStage::Preparing => if !self.has_encoder {
                EncodeAction::CreateEncoder
            } else if self.plan.direct {
                EncodeAction::SendFrame
            } else if !self.has_scaler {
                EncodeAction::CreateScaler
            } else if !self.has_target {
                EncodeAction::CreateTarget
            } else {
                EncodeAction::Scale
            },
            EncodeStage::Scaled => EncodeAction::SendTarget,
            EncodeStage::Sent => EncodeAction::Receive,
            EncodeStage::Encoded => EncodeAction::Finish,
            EncodeStage::Dropped => EncodeAction::Drop,
        }
    }

    /// Takes in how the work asked for went.
    pub fn report(&mut self, outcome: EncodeOutcome)
        ensures
            *final(self) == old(self).after(outcome),
    {
        let action = self.next_action();
        match (action, outcome) {
            (EncodeAction::Finish, _) | (EncodeAction::Drop, _) => {},
            (_, EncodeOutcome::Failed) => {
                self.stage = EncodeStage::Dropped;
            },
            (EncodeAction::Receive, EncodeOutcome::NoPacket) => {
                self.stage = EncodeStage::Encoded;
            },
            (_, EncodeOutcome::NoPacket) => {},
            (EncodeAction::CreateEncoder, _) => {
                self.has_encoder = true;
            },
            (EncodeAction::CreateScaler, _) => {
                self.has_scaler = true;
            },
            (EncodeAction::CreateTarget, _) => {
                self.has_target = true;
            },
            (EncodeAction::Scale, _) => {
                self.stage = EncodeStage::Scaled;
            },
            (EncodeAction::SendFrame, _) | (EncodeAction::SendTarget, _) => {
                self.stage = EncodeStage::Sent;
            },
            (EncodeAction::Receive, _) => {},
        }
    }
}

/// Whether a flow can have come from a new one: a frame that needs scaling gets to
/// the encoder only through scaler and target.
pub open spec fn reachable(f: EncodeFlow) -> bool {
    match f.stage {
        EncodeStage::Preparing | EncodeStage::Dropped => true,
        EncodeStage::Scaled => f.has_encoder && !f.plan.direct && f.has_scaler && f.has_target,
        EncodeStage::Sent | EncodeStage::Encoded => f.has_encoder && (f.plan.direct || (f.has_scaler
            && f.has_target)),
    }
}

/// Steps that are left before packets are asked for, at most.
pub open spec fn steps_left(f: EncodeFlow) -> nat {
    match f.stage {
        EncodeStage::Preparing => (if f.has_encoder {
            0nat
        } else {
            1
        }) + (if f.has_scaler {
            0nat
        } else {
            1
        }) + (if f.has_target {
            0nat
        } else {
            1
        }) + 4,
        EncodeStage::Scaled => 3,
        EncodeStage::Sent => 1,
        EncodeStage::Encoded | EncodeStage::Dropped => 0,
    }
}

/// A frame goes to an encoder that exists, in the encoder's format and size: as it
/// is where it has them, else as the target that it was scaled into.
pub proof fn law_frames_are_sent_prepared(f: EncodeFlow, outcome: EncodeOutcome)
    requires
        reachable(f),
    ensures
        reachable(f.after(outcome)),
        f.action() == EncodeAction::SendFrame ==> f.has_encoder && f.plan.direct,
        f.action() == EncodeAction::SendTarget ==> f.has_encoder && !f.plan.direct && f.has_scaler
            && f.has_target,
        f.action() == EncodeAction::Scale ==> f.has_scaler && f.has_target,
{
}

/// The encoding of a frame comes to an end: every step that is done or fails leads
/// closer to it, but for packets that are taken from the encoder.
pub proof fn law_encoding_comes_to_an_end(f: EncodeFlow, outcome: EncodeOutcome)
    requires
        f.stage != EncodeStage::Encoded,
        f.stage != EncodeStage::Dropped,
        outcome == EncodeOutcome::NoPacket ==> f.action() == EncodeAction::Receive,
        outcome == EncodeOutcome::Done ==> f.action() != EncodeAction::Receive,
    ensures
        steps_left(f.after(outcome)) < steps_left(f),
{
}

/// A failure drops the frame and keeps what was made for the frames to come; only
/// a frame whose packets were all taken counts as encoded.
pub proof fn law_failure_drops_only_the_frame(f: EncodeFlow, outcome: EncodeOutcome)
    requires
        f.stage != EncodeStage::Encoded,
        f.stage != EncodeStage::Dropped,
    ensures
        f.after(outcome).stage == EncodeStage::Dropped <==> outcome == EncodeOutcome::Failed,
        f.after(outcome).stage == EncodeStage::Encoded <==> f.stage == EncodeStage::Sent && outcome
            == EncodeOutcome::NoPacket,
        f.has_encoder ==> f.after(outcome).has_encoder,
        f.has_scaler ==> f.after(outcome).has_scaler,
        f.has_target ==> f.after(outcome).has_target,
{
}

/// The flow of a frame after a run of outcomes.
pub open spec fn after_all(f: EncodeFlow, outcomes: Seq<EncodeOutcome>) -> EncodeFlow
    decreases outcomes.len(),
{
    if outcomes.len() == 0 {
        f
    } else {
        after_all(f, outcomes.drop_last()).after(outcomes.last())
    }
}

/// A frame in the encoder's format and size is sent as it is and its packets are taken,
/// the encoder being made first where there is none. It is never scaled.
pub proof fn law_direct_frames_are_sent_unscaled(f: EncodeFlow)
    requires
        f.plan.direct,
        f.stage == EncodeStage::Preparing,
    ensures
        !f.has_encoder ==> f.action() == EncodeAction::CreateEncoder && f.after(
            EncodeOutcome::Done,
        ) == (EncodeFlow { has_encoder: true, ..f }),
        f.has_encoder ==> f.action() == EncodeAction::SendFrame && f.after(
            EncodeOutcome::Done,
        ).action() == EncodeAction::Receive && f.after(EncodeOutcome::Done).after(
            EncodeOutcome::NoPacket,
        ).action() == EncodeAction::Finish,
{
}

/// Any other frame is scaled into the target, and the target is sent; encoder, scaler
/// and target are made first, in this order, where they are missing.
pub proof fn law_other_frames_are_scaled(f: EncodeFlow)
    requires
        !f.plan.direct,
        f.stage == EncodeStage::Preparing,
    ensures
        !f.has_encoder ==> f.action() == EncodeAction::CreateEncoder,
        f.has_encoder && !f.has_scaler ==> f.action() == EncodeAction::CreateScaler && f.after(
            EncodeOutcome::Done,
        ) == (EncodeFlow { has_scaler: true, ..f }),
        f.has_encoder && f.has_scaler && !f.has_target ==> f.action() == EncodeAction::CreateTarget
            && f.after(EncodeOutcome::Done) == (EncodeFlow { has_target: true, ..f }),
        f.has_encoder && f.has_scaler && f.has_target ==> {
            let scaled = f.after(EncodeOutcome::Done);
            let sent = scaled.after(EncodeOutcome::Done);
            &&& f.action() == EncodeAction::Scale
            &&& scaled.action() == EncodeAction::SendTarget
            &&& sent.action() == EncodeAction::Receive
            &&& sent.after(EncodeOutcome::NoPacket).action() == EncodeAction::Finish
        },
{
}

/// Packets are taken until the encoder has none, however many there are.
pub proof fn law_all_packets_are_taken(f: EncodeFlow, n: nat)
    requires
        f.stage == EncodeStage::Sent,
    ensures
        after_all(f, Seq::new(n, |i: int| EncodeOutcome::Done)) == f,
        f.action() == EncodeAction::Receive,
        f.after(EncodeOutcome::NoPacket).action() == EncodeAction::Finish,
    decreases n,
{
    if n > 0 {
        let all = Seq::new(n, |i: int| EncodeOutcome::Done);
        law_all_packets_are_taken(f, (n - 1) as nat);
        assert(all.drop_last() =~= Seq::new((n - 1) as nat, |i: int| EncodeOutcome::Done));
    }
}

/// A packet reaches a decoder that is there or could be rebuilt, its frames are taken
/// until there is none, and a decoder that refuses or fails is rebuilt.
pub proof fn law_decoding_order(ok: bool, a: DecodeAction)
    ensures
        call_ensures(decode_action, (DecodeEvent::Packet { has_decoder: ok },), a) ==> a == if ok {
            DecodeAction::Send
        } else {
            DecodeAction::Rebuild
        },
        call_ensures(decode_action, (DecodeEvent::Rebuilt(ok),), a) ==> a == if ok {
            DecodeAction::Send
        } else {
            DecodeAction::Stop
        },
        call_ensures(decode_action, (DecodeEvent::Sent(ok),), a) ==> a == if ok {
            DecodeAction::Receive
        } else {
            DecodeAction::RebuildAndStop
        },
        call_ensures(decode_action, (DecodeEvent::Frame,), a) ==> a == DecodeAction::Collect,
        call_ensures(decode_action, (DecodeEvent::NoFrame,), a) ==> a == DecodeAction::Stop,
        call_ensures(decode_action, (DecodeEvent::Failed,), a) ==> a
            == DecodeAction::RebuildAndStop,
{
}

} // verus!
