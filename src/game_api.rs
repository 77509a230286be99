//! Control-plane entry points through which a game service pushes events,
//! action toggles and phase changes into a room.
use vstd::prelude::*;
use crate::registry::{lookup_spec, RoomRegistry};
use crate::room::with_phase;

verus! {

/// Names the room a control-plane request is about.
#[derive(Debug)]
pub struct RoomRequest {
    pub room_id: String,
}

/// An event to broadcast to a room's subscribers.
#[derive(Debug)]
pub struct BroadcastRequest {
    pub room: RoomRequest,
    pub event_type: String,
    pub data: serde_json::Value,
}

/// Turns an action kind of a room on or off.
#[derive(Debug)]
pub struct EnableActionRequest {
    pub room: RoomRequest,
    pub action_type: String,
    pub enabled: bool,
}

/// Moves a room to a new game phase.
#[derive(Debug)]
pub struct NextPhaseRequest {
    pub room: RoomRequest,
    pub phase: String,
    pub ui_data: serde_json::Value,
}

/// The room on whose channel the event is to be broadcast, or `None` (not
/// found) where no live room has the requested id.
pub fn broadcast_handler(reg: &RoomRegistry, req: &BroadcastRequest) -> (r: Option<u32>)
    ensures
        r == lookup_spec(reg@, req.room.room_id@),
{
    reg.find(req.room.room_id.as_str())
}

/// The room whose snapshot is to be published after an action toggle, or
/// `None` (not found). The toggle itself has no effect on the room.
pub fn enable_action_handler(reg: &RoomRegistry, req: &EnableActionRequest) -> (r: Option<u32>)
    ensures
        r == lookup_spec(reg@, req.room.room_id@),
{
    reg.find(req.room.room_id.as_str())
}

/// Sets the requested room's game phase and changes nothing else; the room on
/// whose channel the new phase is to be broadcast, or `None` (not found), and
/// then nothing changes. Setting the phase a room already has changes nothing.
pub fn next_phase_handler(reg: &mut RoomRegistry, req: &NextPhaseRequest) -> (r: Option<u32>)
    requires
        old(reg).wf(),
    ensures
        final(reg).wf(),
        r == lookup_spec(old(reg)@, req.room.room_id@),
        match r {
            Some(k) => {
                &&& final(reg)@ == old(reg)@.insert(k, with_phase(old(reg)@[k], req.phase))
                &&& old(reg)@[k].realtime_state.game_phase == req.phase ==> final(reg)@ == old(
                    reg,
                )@
            },
            None => final(reg)@ == old(reg)@,
        },
{
    match reg.find(req.room.room_id.as_str()) {
        Some(k) => {
            let mut room = reg.take(k).unwrap();
            room.realtime_state.game_phase = req.phase.clone();
            reg.put(k, room);
            proof {
                assert(reg@ =~= old(reg)@.insert(k, with_phase(old(reg)@[k], req.phase)));
                if old(reg)@[k].realtime_state.game_phase == req.phase {
                    assert(with_phase(old(reg)@[k], req.phase) == old(reg)@[k]);
                    assert(reg@ =~= old(reg)@);
                }
            }
            Some(k)
        },
        None => None,
    }
}

} // verus!
