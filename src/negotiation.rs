//! The bootstrap of one peer connection, from a remote offer to a local
//! answer, as a state machine. The driver performs each action against the
//! peer-connection engine and feeds back the event that it produced.

use vstd::prelude::*;

verus! {

/// What the negotiation waits for next.
#[derive(Clone, Copy, Debug, PartialEq, Eq)]
pub enum NegotiationState {
    Init,
    AwaitPeerConnection,
    AwaitTrack,
    AwaitRemoteDescription,
    AwaitAnswer,
    AwaitGatheringArmed,
    AwaitLocalDescription,
    AwaitGathering,
    AwaitLocalRead,
    /// Terminal success: the answer has been handed out.
    Established,
    /// Terminal failure of this negotiation only.
    Failed,
}

/// What the driver reports after performing an action.
#[derive(Clone, Debug, PartialEq, Eq)]
pub enum NegotiationEvent {
    Started,
    PeerConnectionCreated,
    TrackAdded,
    RemoteDescriptionApplied,
    AnswerCreated,
    GatheringArmed,
    LocalDescriptionApplied,
    GatheringComplete,
    /// The final local description, if the engine has one.
    LocalDescriptionRead(Option<String>),
    /// The last action failed.
    StepFailed,
}

/// Why a negotiation failed.
#[derive(Clone, Copy, Debug, PartialEq, Eq)]
pub enum NegotiationError {
    /// The engine refused the last action (for instance a malformed offer).
    StepFailed,
    /// Gathering completed but the engine holds no local description, or an
    /// empty one.
    NoLocalDescription,
    /// An event arrived that does not answer the pending action.
    UnexpectedEvent,
}

/// What the driver must do next.
#[derive(Clone, Debug, PartialEq, Eq)]
pub enum NegotiationAction {
    CreatePeerConnection,
    AddAudioTrack,
    ApplyRemoteOffer,
    CreateAnswer,
    /// Subscribe to the end of candidate gathering.
    ArmGathering,
    SetLocalDescription,
    AwaitGathering,
    ReadLocalDescription,
    /// Hand the final local description to the caller.
    ReturnAnswer(String),
    Abort(NegotiationError),
    /// The negotiation is over; nothing to do.
    Nothing,
}

pub open spec fn is_terminal(s: NegotiationState) -> bool {
    s == NegotiationState::Established || s == NegotiationState::Failed
}

/// One transition: the next state and the action to perform.
pub open spec fn step_spec(s: NegotiationState, e: NegotiationEvent) -> (
    NegotiationState,
    NegotiationAction,
) {
    if is_terminal(s) {
        (s, NegotiationAction::Nothing)
    } else if e == NegotiationEvent::StepFailed {
        (NegotiationState::Failed, NegotiationAction::Abort(NegotiationError::StepFailed))
    } else {
        match (s, e) {
            (NegotiationState::Init, NegotiationEvent::Started) => (
                NegotiationState::AwaitPeerConnection,
                NegotiationAction::CreatePeerConnection,
            ),
            (NegotiationState::AwaitPeerConnection, NegotiationEvent::PeerConnectionCreated) => (
                NegotiationState::AwaitTrack,
                NegotiationAction::AddAudioTrack,
            ),
            (NegotiationState::AwaitTrack, NegotiationEvent::TrackAdded) => (
                NegotiationState::AwaitRemoteDescription,
                NegotiationAction::ApplyRemoteOffer,
            ),
            (
                NegotiationState::AwaitRemoteDescription,
                NegotiationEvent::RemoteDescriptionApplied,
            ) => (NegotiationState::AwaitAnswer, NegotiationAction::CreateAnswer),
            (NegotiationState::AwaitAnswer, NegotiationEvent::AnswerCreated) => (
                NegotiationState::AwaitGatheringArmed,
                NegotiationAction::ArmGathering,
            ),
            (NegotiationState::AwaitGatheringArmed, NegotiationEvent::GatheringArmed) => (
                NegotiationState::AwaitLocalDescription,
                NegotiationAction::SetLocalDescription,
            ),
            (NegotiationState::AwaitLocalDescription, NegotiationEvent::LocalDescriptionApplied) => (
                NegotiationState::AwaitGathering,
                NegotiationAction::AwaitGathering,
            ),
            (NegotiationState::AwaitGathering, NegotiationEvent::GatheringComplete) => (
                NegotiationState::AwaitLocalRead,
                NegotiationAction::ReadLocalDescription,
            ),
            (NegotiationState::AwaitLocalRead, NegotiationEvent::LocalDescriptionRead(d)) => match d {
                Some(sdp) => if sdp@.len() > 0 {
                    (NegotiationState::Established, NegotiationAction::ReturnAnswer(sdp))
                } else {
                    (
                        NegotiationState::Failed,
                        NegotiationAction::Abort(NegotiationError::NoLocalDescription),
                    )
                },
                None => (
                    NegotiationState::Failed,
                    NegotiationAction::Abort(NegotiationError::NoLocalDescription),
                ),
            },
            _ => (NegotiationState::Failed, NegotiationAction::Abort(NegotiationError::UnexpectedEvent)),
        }
    }
}

/// The state after a sequence of events from `Init`, and the actions emitted,
/// one per event.
pub open spec fn run(events: Seq<NegotiationEvent>) -> (NegotiationState, Seq<NegotiationAction>)
    decreases events.len(),
{
    if events.len() == 0 {
        (NegotiationState::Init, Seq::empty())
    } else {
        let (s, acts) = run(events.drop_last());
        let (s2, a) = step_spec(s, events.last());
        (s2, acts.push(a))
    }
}

/// States entered after the gathering subscription was requested.
pub open spec fn gathering_armed(s: NegotiationState) -> bool {
    ||| s == NegotiationState::AwaitGatheringArmed
    ||| s == NegotiationState::AwaitLocalDescription
    ||| s == NegotiationState::AwaitGathering
    ||| s == NegotiationState::AwaitLocalRead
    ||| s == NegotiationState::Established
}

/// States entered after gathering was reported complete.
pub open spec fn gathering_done(s: NegotiationState) -> bool {
    s == NegotiationState::AwaitLocalRead || s == NegotiationState::Established
}

proof fn lemma_run_history(events: Seq<NegotiationEvent>)
    ensures
        run(events).1.len() == events.len(),
        gathering_armed(run(events).0) ==> exists|j: int|
            0 <= j < events.len() && run(events).1[j] == NegotiationAction::ArmGathering,
        gathering_done(run(events).0) ==> exists|j: int|
            0 <= j < events.len() && events[j] == NegotiationEvent::GatheringComplete,
        forall|k: int|
            0 <= k < events.len() && run(events).1[k] == NegotiationAction::SetLocalDescription
                ==> exists|j: int| 0 <= j < k && run(events).1[j] == NegotiationAction::ArmGathering,
        forall|k: int|
            0 <= k < events.len() && run(events).1[k] is ReturnAnswer ==> exists|j: int|
                0 <= j < k && events[j] == NegotiationEvent::GatheringComplete,
    decreases events.len(),
{
    if events.len() > 0 {
        let prefix = events.drop_last();
        lemma_run_history(prefix);
        let (s, acts) = run(prefix);
        let (s2, a) = step_spec(s, events.last());
        let n = prefix.len() as int;
        assert(run(events) == (s2, acts.push(a)));
        let all = acts.push(a);
        assert forall|j: int| 0 <= j < n implies all[j] == acts[j] && events[j] == prefix[j] by {}
        if gathering_armed(s2) {
            if gathering_armed(s) {
                let j = choose|j: int| 0 <= j < n && acts[j] == NegotiationAction::ArmGathering;
                assert(all[j] == NegotiationAction::ArmGathering);
            } else {
                assert(all[n] == NegotiationAction::ArmGathering);
            }
        }
        if gathering_done(s2) {
            if gathering_done(s) {
                let j = choose|j: int| 0 <= j < n && prefix[j] == NegotiationEvent::GatheringComplete;
                assert(events[j] == NegotiationEvent::GatheringComplete);
            } else {
                assert(events[n] == NegotiationEvent::GatheringComplete);
            }
        }
        assert forall|k: int|
            0 <= k < events.len() && all[k] == NegotiationAction::SetLocalDescription implies exists|
                j: int,
            | 0 <= j < k && all[j] == NegotiationAction::ArmGathering by {
            if k < n {
                let j = choose|j: int| 0 <= j < k && acts[j] == NegotiationAction::ArmGathering;
                assert(all[j] == NegotiationAction::ArmGathering);
            } else {
                assert(s == NegotiationState::AwaitGatheringArmed);
                let j = choose|j: int| 0 <= j < n && acts[j] == NegotiationAction::ArmGathering;
                assert(all[j] == NegotiationAction::ArmGathering);
            }
        }
        assert forall|k: int| 0 <= k < events.len() && all[k] is ReturnAnswer implies exists|j: int|
            0 <= j < k && events[j] == NegotiationEvent::GatheringComplete by {
            if k < n {
                let j = choose|j: int| 0 <= j < k && prefix[j] == NegotiationEvent::GatheringComplete;
                assert(events[j] == NegotiationEvent::GatheringComplete);
            } else {
                assert(s == NegotiationState::AwaitLocalRead);
                let j = choose|j: int| 0 <= j < n && prefix[j] == NegotiationEvent::GatheringComplete;
                assert(events[j] == NegotiationEvent::GatheringComplete);
            }
        }
    }
}

/// Over any sequence of events, the local description is set only after the
/// gathering subscription was requested, and the answer is returned only
/// after gathering was reported complete.
pub proof fn lemma_negotiation_order(events: Seq<NegotiationEvent>)
    ensures
        run(events).1.len() == events.len(),
        forall|k: int|
            0 <= k < events.len() && run(events).1[k] == NegotiationAction::SetLocalDescription
                ==> exists|j: int| 0 <= j < k && run(events).1[j] == NegotiationAction::ArmGathering,
        forall|k: int|
            0 <= k < events.len() && run(events).1[k] is ReturnAnswer ==> exists|j: int|
                0 <= j < k && events[j] == NegotiationEvent::GatheringComplete,
{
    lemma_run_history(events);
}

/// The engine call requested at position `i` of a successful negotiation.
pub open spec fn chain_action(i: int) -> NegotiationAction {
    if i == 0 {
        NegotiationAction::CreatePeerConnection
    } else if i == 1 {
        NegotiationAction::AddAudioTrack
    } else if i == 2 {
        NegotiationAction::ApplyRemoteOffer
    } else if i == 3 {
        NegotiationAction::CreateAnswer
    } else if i == 4 {
        NegotiationAction::ArmGathering
    } else if i == 5 {
        NegotiationAction::SetLocalDescription
    } else if i == 6 {
        NegotiationAction::AwaitGathering
    } else if i == 7 {
        NegotiationAction::ReadLocalDescription
    } else {
        NegotiationAction::Nothing
    }
}

/// How many engine calls a state has requested so far.
pub open spec fn rank(s: NegotiationState) -> int {
    match s {
        NegotiationState::Init => 0,
        NegotiationState::AwaitPeerConnection => 1,
        NegotiationState::AwaitTrack => 2,
        NegotiationState::AwaitRemoteDescription => 3,
        NegotiationState::AwaitAnswer => 4,
        NegotiationState::AwaitGatheringArmed => 5,
        NegotiationState::AwaitLocalDescription => 6,
        NegotiationState::AwaitGathering => 7,
        NegotiationState::AwaitLocalRead => 8,
        _ => 9,
    }
}

/// An action that asks the engine to do something.
pub open spec fn is_engine_call(a: NegotiationAction) -> bool {
    !(a is ReturnAnswer) && !(a is Abort) && !(a is Nothing)
}

proof fn lemma_run_shape(events: Seq<NegotiationEvent>)
    ensures
        run(events).1.len() == events.len(),
        !is_terminal(run(events).0) ==> {
            &&& run(events).1.len() == rank(run(events).0)
            &&& forall|j: int| 0 <= j < rank(run(events).0) ==> run(events).1[j] == chain_action(j)
        },
        run(events).0 == NegotiationState::Established ==> {
            &&& run(events).1.len() >= 9
            &&& forall|j: int| 0 <= j < 8 ==> run(events).1[j] == chain_action(j)
            &&& run(events).1[8] is ReturnAnswer
            &&& forall|j: int| 9 <= j < run(events).1.len() ==> run(events).1[j] == NegotiationAction::Nothing
        },
        run(events).0 == NegotiationState::Failed ==> exists|f: int|
            {
                &&& 0 <= f < run(events).1.len()
                &&& forall|j: int| 0 <= j < f ==> run(events).1[j] == chain_action(j)
                &&& run(events).1[f] is Abort
                &&& forall|j: int| f < j < run(events).1.len() ==> run(events).1[j] == NegotiationAction::Nothing
            },
    decreases events.len(),
{
    if events.len() > 0 {
        let prefix = events.drop_last();
        lemma_run_shape(prefix);
        let (s, acts) = run(prefix);
        let (s2, a) = step_spec(s, events.last());
        let n = prefix.len() as int;
        assert(run(events) == (s2, acts.push(a)));
        let all = acts.push(a);
        assert forall|j: int| 0 <= j < n implies all[j] == acts[j] by {}
        if s == NegotiationState::Failed {
            let f = choose|f: int|
                {
                    &&& 0 <= f < acts.len()
                    &&& forall|j: int| 0 <= j < f ==> acts[j] == chain_action(j)
                    &&& acts[f] is Abort
                    &&& forall|j: int| f < j < acts.len() ==> acts[j] == NegotiationAction::Nothing
                };
            assert(all[f] is Abort);
        } else if !is_terminal(s2) && s2 != s {
            assert(a == chain_action(n));
        } else if s2 == NegotiationState::Failed {
            assert(all[n] is Abort);
        }
    }
}

/// Over any sequence of events, every engine call is requested at its own
/// fixed position of the chain peer connection, track, remote offer, answer,
/// gathering subscription, local description, gathering, read-back, after
/// all the calls before it; so each is requested at most once, and the answer
/// is returned only in ninth place, after the whole chain.
pub proof fn lemma_negotiation_call_order(events: Seq<NegotiationEvent>)
    ensures
        forall|k: int|
            0 <= k < events.len() && is_engine_call(#[trigger] run(events).1[k]) ==> {
                &&& run(events).1[k] == chain_action(k)
                &&& forall|j: int| 0 <= j < k ==> run(events).1[j] == chain_action(j)
            },
        forall|k1: int, k2: int|
            0 <= k1 < events.len() && 0 <= k2 < events.len() && is_engine_call(
                #[trigger] run(events).1[k1],
            ) && #[trigger] run(events).1[k2] == run(events).1[k1] ==> k1 == k2,
        forall|k: int|
            0 <= k < events.len() && (#[trigger] run(events).1[k]) is ReturnAnswer ==> {
                &&& k == 8
                &&& forall|j: int| 0 <= j < 8 ==> run(events).1[j] == chain_action(j)
            },
{
    lemma_run_shape(events);
    let (s, acts) = run(events);
    assert forall|k: int| 0 <= k < events.len() && is_engine_call(#[trigger] acts[k]) implies {
        &&& acts[k] == chain_action(k)
        &&& forall|j: int| 0 <= j < k ==> acts[j] == chain_action(j)
    } by {
        lemma_position_in_chain(events, k);
    }
    assert forall|k: int| 0 <= k < events.len() && (#[trigger] acts[k]) is ReturnAnswer implies {
        &&& k == 8
        &&& forall|j: int| 0 <= j < 8 ==> acts[j] == chain_action(j)
    } by {
        lemma_position_in_chain(events, k);
    }
    assert forall|k1: int, k2: int|
        0 <= k1 < events.len() && 0 <= k2 < events.len() && is_engine_call(#[trigger] acts[k1])
            && #[trigger] acts[k2] == acts[k1] implies k1 == k2 by {
        lemma_position_in_chain(events, k1);
        lemma_position_in_chain(events, k2);
    }
}

proof fn lemma_position_in_chain(events: Seq<NegotiationEvent>, k: int)
    requires
        0 <= k < events.len(),
    ensures
        is_engine_call(run(events).1[k]) ==> {
            &&& 0 <= k < 8
            &&& run(events).1[k] == chain_action(k)
            &&& forall|j: int| 0 <= j < k ==> run(events).1[j] == chain_action(j)
        },
        run(events).1[k] is ReturnAnswer ==> {
            &&& k == 8
            &&& forall|j: int| 0 <= j < 8 ==> run(events).1[j] == chain_action(j)
        },
{
    lemma_run_shape(events);
    let (s, acts) = run(events);
    if s == NegotiationState::Failed {
        let f = choose|f: int|
            {
                &&& 0 <= f < acts.len()
                &&& forall|j: int| 0 <= j < f ==> acts[j] == chain_action(j)
                &&& acts[f] is Abort
                &&& forall|j: int| f < j < acts.len() ==> acts[j] == NegotiationAction::Nothing
            };
        if k < f {
            assert(acts[k] == chain_action(k));
        } else if k == f {
        } else {
            assert(acts[k] == NegotiationAction::Nothing);
        }
    } else if s == NegotiationState::Established {
        if k < 8 {
            assert(acts[k] == chain_action(k));
        } else if k > 8 {
            assert(acts[k] == NegotiationAction::Nothing);
        }
    } else {
        assert(acts[k] == chain_action(k));
    }
}

/// One transition of the negotiation.
pub fn next_step(s: NegotiationState, e: NegotiationEvent) -> (r: (NegotiationState, NegotiationAction))
    ensures
        r == step_spec(s, e),
{
    match s {
        NegotiationState::Established | NegotiationState::Failed => {
            return (s, NegotiationAction::Nothing);
        },
        _ => {},
    }
    let fail = (NegotiationState::Failed, NegotiationAction::Abort(NegotiationError::UnexpectedEvent));
    match e {
        NegotiationEvent::StepFailed => (
            NegotiationState::Failed,
            NegotiationAction::Abort(NegotiationError::StepFailed),
        ),
        NegotiationEvent::Started => match s {
            NegotiationState::Init => (
                NegotiationState::AwaitPeerConnection,
                NegotiationAction::CreatePeerConnection,
            ),
            _ => fail,
        },
        NegotiationEvent::PeerConnectionCreated => match s {
            NegotiationState::AwaitPeerConnection => (
                NegotiationState::AwaitTrack,
                NegotiationAction::AddAudioTrack,
            ),
            _ => fail,
        },
        NegotiationEvent::TrackAdded => match s {
            NegotiationState::AwaitTrack => (
                NegotiationState::AwaitRemoteDescription,
                NegotiationAction::ApplyRemoteOffer,
            ),
            _ => fail,
        },
        NegotiationEvent::RemoteDescriptionApplied => match s {
            NegotiationState::AwaitRemoteDescription => (
                NegotiationState::AwaitAnswer,
                NegotiationAction::CreateAnswer,
            ),
            _ => fail,
        },
        NegotiationEvent::AnswerCreated => match s {
            NegotiationState::AwaitAnswer => (
                NegotiationState::AwaitGatheringArmed,
                NegotiationAction::ArmGathering,
            ),
            _ => fail,
        },
        NegotiationEvent::GatheringArmed => match s {
            NegotiationState::AwaitGatheringArmed => (
                NegotiationState::AwaitLocalDescription,
                NegotiationAction::SetLocalDescription,
            ),
            _ => fail,
        },
        NegotiationEvent::LocalDescriptionApplied => match s {
            NegotiationState::AwaitLocalDescription => (
                NegotiationState::AwaitGathering,
                NegotiationAction::AwaitGathering,
            ),
            _ => fail,
        },
        NegotiationEvent::GatheringComplete => match s {
            NegotiationState::AwaitGathering => (
                NegotiationState::AwaitLocalRead,
                NegotiationAction::ReadLocalDescription,
            ),
            _ => fail,
        },
        NegotiationEvent::LocalDescriptionRead(d) => match s {
            NegotiationState::AwaitLocalRead => match d {
                Some(sdp) => if sdp.as_str().is_empty() {
                    (
                        NegotiationState::Failed,
                        NegotiationAction::Abort(NegotiationError::NoLocalDescription),
                    )
                } else {
                    (NegotiationState::Established, NegotiationAction::ReturnAnswer(sdp))
                },
                None => (
                    NegotiationState::Failed,
                    NegotiationAction::Abort(NegotiationError::NoLocalDescription),
                ),
            },
            _ => fail,
        },
    }
}

/// The ICE servers of a new peer connection: one public STUN server, used to
/// discover the agent's reflexive address.
pub fn default_ice_servers() -> (r: Vec<String>)
    ensures
        r@.len() == 1,
        r@[0]@ == "stun:stun.l.google.com:19302"@,
{
    vec!["stun:stun.l.google.com:19302".to_owned()]
}

/// The state of the ICE transport of a peer connection.
#[derive(Clone, Copy, Debug, PartialEq, Eq)]
pub enum IceConnectionState {
    Unspecified,
    New,
    Checking,
    Connected,
    Completed,
    Disconnected,
    Failed,
    Closed,
}

/// The overall state of a peer connection.
#[derive(Clone, Copy, Debug, PartialEq, Eq)]
pub enum PeerConnectionState {
    Unspecified,
    New,
    Connecting,
    Connected,
    Disconnected,
    Failed,
    Closed,
}

/// Audio starts flowing to the peer once its ICE transport is connected.
pub fn starts_audio_forwarding(s: IceConnectionState) -> (r: bool)
    ensures
        r <==> s == IceConnectionState::Connected,
{
    match s {
        IceConnectionState::Connected => true,
        _ => false,
    }
}

/// A peer connection that lost its transport is removed from the registry.
pub fn requires_teardown(s: PeerConnectionState) -> (r: bool)
    ensures
        r <==> (s == PeerConnectionState::Disconnected || s == PeerConnectionState::Failed || s
            == PeerConnectionState::Closed),
{
    match s {
        PeerConnectionState::Disconnected | PeerConnectionState::Failed
        | PeerConnectionState::Closed => true,
        _ => false,
    }
}

} // verus!
