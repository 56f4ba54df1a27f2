//! The control stream of a session.
use crate::bytes::{from_le16, from_le32, read_le16, read_le32};
use crate::sunshine::launch::{stop_session, GameStreamLaunchSession};
use vstd::prelude::*;

verus! {

/// What the control stream reports.
#[derive(Debug)]
pub enum ControlEvent {
    /// A peer connects and shows this number.
    Connect(u32),
    /// A peer has left.
    Disconnect,
    /// A peer sends this packet.
    Receive(Vec<u8>),
    /// There is nothing to report.
    Idle,
    /// The stream failed.
    Failed,
}

/// A packet of the control stream.
#[derive(Debug, Clone, Copy, PartialEq, Eq)]
pub enum ControlPacket {
    /// An encrypted packet, with the length and the number that it states.
    Encrypted { packet_len: u16, seq: u32 },
    /// Any other packet, with its type where it is long enough to have one.
    Plain { packet_type: Option<u16> },
}

/// What is to be done about an event.
#[derive(Debug)]
pub enum ControlAction {
    /// Turn the peer away.
    Reject,
    /// Keep the peer, with this limit of retries and these two timeouts in milliseconds.
    Accept { retries: u32, min_timeout_ms: u32, max_timeout_ms: u32 },
    /// Stop the video; the session has ended.
    StopVideo,
    /// Note the packet.
    Note(ControlPacket),
    /// Wait so many milliseconds.
    Wait(u64),
}

/// What a packet of the control stream is.
pub open spec fn packet_kind(data: Seq<u8>) -> ControlPacket {
    if data.len() >= 8 && from_le16(data[0], data[1]) == 1 {
        ControlPacket::Encrypted {
            packet_len: from_le16(data[2], data[3]),
            seq: from_le32(data[4], data[5], data[6], data[7]),
        }
    } else {
        ControlPacket::Plain {
            packet_type: if data.len() >= 2 {
                Some(from_le16(data[0], data[1]))
            } else {
                None
            },
        }
    }
}

/// Tells what a packet of the control stream is.
pub fn classify_control_packet(data: &[u8]) -> (r: ControlPacket)
    ensures
        r == packet_kind(data@),
{
    if data.len() >= 8 && read_le16(data[0], data[1]) == 1 {
        return ControlPacket::Encrypted {
            packet_len: read_le16(data[2], data[3]),
            seq: read_le32(data[4], data[5], data[6], data[7]),
        };
    }
    ControlPacket::Plain {
        packet_type: if data.len() >= 2 {
            Some(read_le16(data[0], data[1]))
        } else {
            None
        },
    }
}

/// What an event leads to, given the session.
pub open spec fn control_action(
    session: Option<GameStreamLaunchSession>,
    event: ControlEvent,
) -> ControlAction {
    match event {
        ControlEvent::Connect(data) => if session is Some && session->0.control_connect_data
            != data {
            ControlAction::Reject
        } else {
            ControlAction::Accept { retries: 2, min_timeout_ms: 10_000, max_timeout_ms: 10_000 }
        },
        ControlEvent::Disconnect => ControlAction::StopVideo,
        ControlEvent::Receive(packet) => ControlAction::Note(packet_kind(packet@)),
        ControlEvent::Idle => ControlAction::Wait(2),
        ControlEvent::Failed => ControlAction::Wait(20),
    }
}

/// Takes up an event. A peer that leaves ends the session; nothing else changes it.
pub fn handle_control_event(slot: &mut Option<GameStreamLaunchSession>, event: &ControlEvent)
    -> (r: ControlAction)
    ensures
        r == control_action(*old(slot), *event),
        *final(slot) == (if *event is Disconnect {
            None
        } else {
            *old(slot)
        }),
{
    match event {
        ControlEvent::Connect(data) => {
            let expected: Option<u32> = match &*slot {
                Some(session) => Some(session.control_connect_data),
                None => None,
            };
            match expected {
                Some(number) => if number != *data {
                    return ControlAction::Reject;
                },
                None => {},
            }
            ControlAction::Accept { retries: 2, min_timeout_ms: 10_000, max_timeout_ms: 10_000 }
        },
        ControlEvent::Disconnect => {
            let _ = stop_session(slot);
            ControlAction::StopVideo
        },
        ControlEvent::Receive(packet) => ControlAction::Note(
            classify_control_packet(packet.as_slice()),
        ),
        ControlEvent::Idle => ControlAction::Wait(2),
        ControlEvent::Failed => ControlAction::Wait(20),
    }
}

/// While a session is there, only a peer that shows the session's number is kept.
pub proof fn only_the_sessions_peer_is_kept(session: GameStreamLaunchSession, data: u32)
    ensures
        control_action(Some(session), ControlEvent::Connect(data)) is Accept <==> data
            == session.control_connect_data,
{
}

/// The bytes of a control packet mean what they state: the first two are its type, low byte
/// first; a packet of type one and at least eight bytes is an encrypted one, and then states its
/// length and its number. A shorter packet has a type where it has two bytes.
pub proof fn a_control_packet_states_its_kind(data: Seq<u8>)
    ensures
        packet_kind(data) is Encrypted <==> data.len() >= 8 && data[0] == 1 && data[1] == 0,
        packet_kind(data) matches ControlPacket::Encrypted { packet_len, seq } ==> packet_len
            == data[2] + data[3] * 256 && seq == data[4] + data[5] * 256 + data[6] * 0x1_0000
            + data[7] * 0x100_0000,
        packet_kind(data) matches ControlPacket::Plain { packet_type } ==> (packet_type is Some
            <==> data.len() >= 2) && (packet_type is Some ==> packet_type->0 == data[0] + data[1]
            * 256),
{
}

/// Nobody is turned away while no session is launched. A peer that is kept may miss two retries
/// and is given ten seconds; a peer that leaves stops the video; an idle stream is looked at again
/// after two milliseconds, one that failed after twenty.
pub proof fn what_the_control_stream_is_answered(
    session: Option<GameStreamLaunchSession>,
    data: u32,
    packet: Vec<u8>,
)
    ensures
        session is None ==> control_action(session, ControlEvent::Connect(data)) is Accept,
        session is Some && session->0.control_connect_data != data ==> control_action(
            session,
            ControlEvent::Connect(data),
        ) is Reject,
        control_action(session, ControlEvent::Connect(data)) matches ControlAction::Accept {
            retries,
            min_timeout_ms,
            max_timeout_ms,
        } ==> retries == 2 && min_timeout_ms == 10_000 && max_timeout_ms == 10_000,
        control_action(session, ControlEvent::Disconnect) is StopVideo,
        control_action(session, ControlEvent::Idle) == ControlAction::Wait(2),
        control_action(session, ControlEvent::Failed) == ControlAction::Wait(20),
        control_action(session, ControlEvent::Receive(packet)) is Note,
{
}

} // verus!
