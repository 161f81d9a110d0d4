//! Snapshots as callers of the backend get them.

use std::sync::Arc;

use vstd::prelude::*;
use vstd::string::*;

use crate::contract::{
    AttemptId, BackendError, BackendFailure, BackendFailureCode, FailureMessage,
};
use crate::frame::RuntimeFrameFacts;
use crate::number::{Single, Vec3Value};
use crate::snapshot::{
    InventorySlotSnapshot, MinecraftSnapshotV1, SelfSnapshot, TrackedPlayerSnapshot,
};
use crate::time::UtcInstant;

verus! {

/// The modes of play.
#[derive(Clone, Copy, Debug, PartialEq, Eq, Structural)]
pub enum GameMode {
    Survival,
    Creative,
    Adventure,
    Spectator,
}

/// The mode of play by its name.
pub open spec fn game_mode_named(name: Seq<char>) -> Option<GameMode> {
    if name == "survival"@ {
        Some(GameMode::Survival)
    } else if name == "creative"@ {
        Some(GameMode::Creative)
    } else if name == "adventure"@ {
        Some(GameMode::Adventure)
    } else if name == "spectator"@ {
        Some(GameMode::Spectator)
    } else {
        None
    }
}

/// The mode of play by its name.
pub fn game_mode_of(name: &String) -> (mode: Option<GameMode>)
    ensures
        mode == game_mode_named(name@),
{
    if *name == "survival".to_owned() {
        Some(GameMode::Survival)
    } else if *name == "creative".to_owned() {
        Some(GameMode::Creative)
    } else if *name == "adventure".to_owned() {
        Some(GameMode::Adventure)
    } else if *name == "spectator".to_owned() {
        Some(GameMode::Spectator)
    } else {
        None
    }
}

/// The world as callers see it.
#[derive(Debug, PartialEq, Eq)]
pub struct PublicWorld {
    pub world_id: String,
    pub dimension: String,
    pub minecraft_version: String,
    pub protocol_version: i32,
    pub game_mode: GameMode,
    pub min_y: i32,
    pub height: u32,
}

/// One inventory slot as callers see it.
#[derive(Debug, PartialEq, Eq)]
pub struct PublicSlot {
    pub slot: u32,
    pub item_name: String,
    pub count: u32,
}

/// A listed player as callers see it.
#[derive(Debug, PartialEq, Eq)]
pub struct PublicPlayer {
    pub player_key: String,
    /// Nothing, where the server gave none.
    pub uuid: Option<String>,
    pub username: String,
    pub listed: bool,
    pub entity_tracked: bool,
    pub position: Option<Vec3Value>,
    pub yaw: Option<Single>,
    pub pitch: Option<Single>,
}

/// A snapshot as callers see it.
#[derive(Debug, PartialEq, Eq)]
pub struct PublicSnapshot {
    pub snapshot_revision: u64,
    pub lifecycle_revision: u64,
    pub captured_at: UtcInstant,
    pub process_session_id: String,
    pub connection_epoch: u64,
    pub connection_attempt_id: AttemptId,
    pub world: PublicWorld,
    pub self_snapshot: SelfSnapshot,
    pub selected_hotbar_slot: u8,
    pub slots: Vec<PublicSlot>,
    pub tracked_players: Vec<PublicPlayer>,
}

/// Snapshot, armor and light of one frame, as callers see them.
#[derive(Debug, PartialEq, Eq)]
pub struct MinecraftFrameFacts {
    pub snapshot: Arc<PublicSnapshot>,
    pub armor: Option<u8>,
    pub light: Option<u8>,
}

/// A failure that nothing can be retried for.
pub open spec fn protocol_failure(message: FailureMessage) -> BackendError {
    BackendError::BackendFailure {
        failure: BackendFailure {
            code: BackendFailureCode::ProtocolError,
            message,
            retryable: false,
        },
    }
}

/// A failure that nothing can be retried for.
pub fn protocol_error(message: FailureMessage) -> (error: BackendError)
    ensures
        error == protocol_failure(message),
{
    BackendError::BackendFailure {
        failure: BackendFailure {
            code: BackendFailureCode::ProtocolError,
            message,
            retryable: false,
        },
    }
}

/// What is wrong with a slot: its count is looked at first.
pub open spec fn slot_error(slot: InventorySlotSnapshot) -> Option<FailureMessage> {
    if slot.count < 0 {
        Some(FailureMessage::NegativeInventoryCount(slot.count))
    } else if slot.slot > u32::MAX {
        Some(FailureMessage::InventorySlotOverflow(slot.slot))
    } else {
        None
    }
}

/// What is wrong with the first bad slot, from one place on.
pub open spec fn slots_error(slots: Seq<InventorySlotSnapshot>, from: int) -> Option<FailureMessage>
    decreases slots.len() - from,
{
    if from >= slots.len() {
        None
    } else {
        match slot_error(slots[from]) {
            Some(message) => Some(message),
            None => slots_error(slots, from + 1),
        }
    }
}

/// What keeps a snapshot from callers, if anything does.
pub open spec fn snapshot_error(raw: MinecraftSnapshotV1) -> Option<FailureMessage> {
    match game_mode_named(raw.world.game_mode@) {
        None => Some(FailureMessage::UnknownGameMode(raw.world.game_mode)),
        Some(_) => slots_error(raw.inventory.slots@, 0),
    }
}

/// A slot and its public form say the same.
pub open spec fn same_slot(raw: InventorySlotSnapshot, out: PublicSlot) -> bool {
    &&& out.slot == raw.slot
    &&& out.item_name == raw.item_name
    &&& out.count == raw.count
}

/// A player and its public form say the same; an empty uuid is none.
pub open spec fn same_player(raw: TrackedPlayerSnapshot, out: PublicPlayer) -> bool {
    &&& out.player_key == raw.player_key
    &&& out.uuid == (if raw.uuid@.len() == 0 {
        None
    } else {
        Some(raw.uuid)
    })
    &&& out.username == raw.username
    &&& out.listed == raw.listed
    &&& out.entity_tracked == raw.entity_tracked
    &&& out.position == raw.position
    &&& out.yaw == raw.yaw
    &&& out.pitch == raw.pitch
}

/// A snapshot and its public form say the same.
pub open spec fn same_snapshot(raw: MinecraftSnapshotV1, out: PublicSnapshot) -> bool {
    &&& out.snapshot_revision == raw.snapshot_revision
    &&& out.lifecycle_revision == raw.lifecycle_revision
    &&& out.captured_at == raw.captured_at
    &&& out.process_session_id == raw.process_session_id
    &&& out.connection_epoch == raw.connection_epoch
    &&& out.connection_attempt_id == raw.connection_attempt_id
    &&& out.world.world_id == raw.world.world_id
    &&& out.world.dimension == raw.world.dimension
    &&& out.world.minecraft_version == raw.world.minecraft_version
    &&& out.world.protocol_version == raw.world.protocol_version
    &&& game_mode_named(raw.world.game_mode@) == Some(out.world.game_mode)
    &&& out.world.min_y == raw.world.min_y
    &&& out.world.height == raw.world.height
    &&& out.self_snapshot == raw.self_snapshot
    &&& out.selected_hotbar_slot == raw.inventory.selected_hotbar_slot
    &&& out.slots@.len() == raw.inventory.slots@.len()
    &&& forall|i: int|
        0 <= i < out.slots@.len() ==> same_slot(
            raw.inventory.slots@[i],
            #[trigger] out.slots@[i],
        )
    &&& out.tracked_players@.len() == raw.tracked_players@.len()
    &&& forall|i: int|
        0 <= i < out.tracked_players@.len() ==> same_player(
            raw.tracked_players@[i],
            #[trigger] out.tracked_players@[i],
        )
}

fn convert_slots(slots: &Vec<InventorySlotSnapshot>) -> (r: Result<
    Vec<PublicSlot>,
    FailureMessage,
>)
    ensures
        match slots_error(slots@, 0) {
            Some(message) => r == Err::<Vec<PublicSlot>, FailureMessage>(message),
            None => r is Ok && (r->Ok_0)@.len() == slots@.len() && forall|i: int|
                0 <= i < slots@.len() ==> same_slot(slots@[i], #[trigger] (r->Ok_0)@[i]),
        },
{
    let mut out: Vec<PublicSlot> = Vec::new();
    let mut i: usize = 0;
    while i < slots.len()
        invariant
            i <= slots@.len(),
            out@.len() == i,
            slots_error(slots@, i as int) == slots_error(slots@, 0),
            forall|k: int| 0 <= k < i ==> same_slot(slots@[k], #[trigger] out@[k]),
        decreases slots@.len() - i,
    {
        let slot = &slots[i];
        if slot.count < 0 {
            return Err(FailureMessage::NegativeInventoryCount(slot.count));
        }
        if slot.slot > u32::MAX as u64 {
            return Err(FailureMessage::InventorySlotOverflow(slot.slot));
        }
        out.push(
            PublicSlot {
                slot: slot.slot as u32,
                item_name: slot.item_name.clone(),
                count: slot.count as u32,
            },
        );
        i = i + 1;
    }
    Ok(out)
}

fn convert_player(player: &TrackedPlayerSnapshot) -> (out: PublicPlayer)
    ensures
        same_player(*player, out),
{
    let uuid = if player.uuid.as_str().unicode_len() == 0 {
        None
    } else {
        Some(player.uuid.clone())
    };
    PublicPlayer {
        player_key: player.player_key.clone(),
        uuid,
        username: player.username.clone(),
        listed: player.listed,
        entity_tracked: player.entity_tracked,
        position: player.position,
        yaw: player.yaw,
        pitch: player.pitch,
    }
}

fn convert_players(players: &Vec<TrackedPlayerSnapshot>) -> (out: Vec<PublicPlayer>)
    ensures
        out@.len() == players@.len(),
        forall|i: int|
            0 <= i < players@.len() ==> same_player(players@[i], #[trigger] out@[i]),
{
    let mut out: Vec<PublicPlayer> = Vec::new();
    let mut i: usize = 0;
    while i < players.len()
        invariant
            i <= players@.len(),
            out@.len() == i,
            forall|k: int| 0 <= k < i ==> same_player(players@[k], #[trigger] out@[k]),
        decreases players@.len() - i,
    {
        out.push(convert_player(&players[i]));
        i = i + 1;
    }
    out
}

/// Why a snapshot cannot be handed out, if it cannot, given what the check of
/// its axes says; that check is made of what the other ones let pass.
pub open spec fn refused_snapshot(
    raw: MinecraftSnapshotV1,
    axes: Result<(), BackendError>,
) -> Option<BackendError> {
    match snapshot_error(raw) {
        Some(message) => Some(protocol_failure(message)),
        None => match axes {
            Ok(()) => None,
            Err(error) => Some(error),
        },
    }
}

/// Gives a snapshot the form that callers get. What the check of the axes says
/// of that form is given; it counts where nothing else is wrong.
pub fn convert_snapshot(raw: &MinecraftSnapshotV1, axes: Result<(), BackendError>) -> (r: Result<
    PublicSnapshot,
    BackendError,
>)
    ensures
        match refused_snapshot(*raw, axes) {
            Some(error) => r == Err::<PublicSnapshot, BackendError>(error),
            None => r is Ok && same_snapshot(*raw, r->Ok_0),
        },
{
    let game_mode = match game_mode_of(&raw.world.game_mode) {
        Some(mode) => mode,
        None => {
            return Err(
                protocol_error(FailureMessage::UnknownGameMode(raw.world.game_mode.clone())),
            );
        },
    };
    let slots = match convert_slots(&raw.inventory.slots) {
        Ok(slots) => slots,
        Err(message) => {
            return Err(protocol_error(message));
        },
    };
    if let Err(error) = axes {
        return Err(error);
    }
    let tracked_players = convert_players(&raw.tracked_players);
    Ok(
        PublicSnapshot {
            snapshot_revision: raw.snapshot_revision,
            lifecycle_revision: raw.lifecycle_revision,
            captured_at: raw.captured_at,
            process_session_id: raw.process_session_id.clone(),
            connection_epoch: raw.connection_epoch,
            connection_attempt_id: raw.connection_attempt_id,
            world: PublicWorld {
                world_id: raw.world.world_id.clone(),
                dimension: raw.world.dimension.clone(),
                minecraft_version: raw.world.minecraft_version.clone(),
                protocol_version: raw.world.protocol_version,
                game_mode,
                min_y: raw.world.min_y,
                height: raw.world.height,
            },
            self_snapshot: raw.self_snapshot.clone(),
            selected_hotbar_slot: raw.inventory.selected_hotbar_slot,
            slots,
            tracked_players,
        },
    )
}

/// Gives the facts of a frame the form that callers get.
pub fn convert_frame_facts(raw: &RuntimeFrameFacts, axes: Result<(), BackendError>) -> (r: Result<
    MinecraftFrameFacts,
    BackendError,
>)
    ensures
        match refused_snapshot(*raw.snapshot, axes) {
            Some(error) => r == Err::<MinecraftFrameFacts, BackendError>(error),
            None => r is Ok && same_snapshot(*raw.snapshot, *r->Ok_0.snapshot) && r->Ok_0.armor
                == raw.armor && r->Ok_0.light == raw.light,
        },
{
    match convert_snapshot(&raw.snapshot, axes) {
        Ok(snapshot) => Ok(
            MinecraftFrameFacts {
                snapshot: Arc::new(snapshot),
                armor: raw.armor,
                light: raw.light,
            },
        ),
        Err(error) => Err(error),
    }
}

/// A snapshot whose every slot can be shown is never refused for its inventory.
pub proof fn law_fitting_slots_are_shown(slots: Seq<InventorySlotSnapshot>, from: int)
    requires
        0 <= from,
        forall|i: int| from <= i < slots.len() ==> slot_error(#[trigger] slots[i]) is None,
    ensures
        slots_error(slots, from) is None,
    decreases slots.len() - from,
{
    if from < slots.len() {
        law_fitting_slots_are_shown(slots, from + 1);
    }
}

/// No two modes of play share a name.
pub proof fn law_game_modes_have_their_own_names(first: Seq<char>, second: Seq<char>)
    requires
        game_mode_named(first) is Some,
        game_mode_named(first) == game_mode_named(second),
    ensures
        first == second,
{
}

/// The four modes of play have these names, and there is no fifth.
pub proof fn law_the_modes_of_play(name: Seq<char>)
    ensures
        game_mode_named(name) == Some(GameMode::Survival) <==> name == "survival"@,
        name == "creative"@ ==> game_mode_named(name) == Some(GameMode::Creative),
        name == "adventure"@ ==> game_mode_named(name) == Some(GameMode::Adventure),
        name == "spectator"@ ==> game_mode_named(name) == Some(GameMode::Spectator),
        game_mode_named(name) is None <==> name != "survival"@ && name != "creative"@ && name
            != "adventure"@ && name != "spectator"@,
{
    reveal_strlit("survival");
    reveal_strlit("creative");
    reveal_strlit("adventure");
    reveal_strlit("spectator");
    assert("survival"@[0] != "creative"@[0]);
    assert("survival"@.len() != "adventure"@.len());
    assert("creative"@.len() != "adventure"@.len());
    assert("survival"@.len() != "spectator"@.len());
    assert("creative"@.len() != "spectator"@.len());
    assert("adventure"@[0] != "spectator"@[0]);
}

/// A slot is refused for a negative count, or else for a number that is too large,
/// and told which.
pub proof fn law_which_slots_are_refused(slot: InventorySlotSnapshot)
    ensures
        slot_error(slot) == (if slot.count < 0 {
            Some(FailureMessage::NegativeInventoryCount(slot.count))
        } else if slot.slot > 0xFFFF_FFFF {
            Some(FailureMessage::InventorySlotOverflow(slot.slot))
        } else {
            None
        }),
{
}

/// Of the slots that cannot be shown the first one is told.
pub proof fn law_the_first_bad_slot_is_told(
    slots: Seq<InventorySlotSnapshot>,
    from: int,
    at: int,
)
    requires
        0 <= from <= at < slots.len(),
        slot_error(slots[at]) is Some,
        forall|i: int| from <= i < at ==> slot_error(#[trigger] slots[i]) is None,
    ensures
        slots_error(slots, from) == slot_error(slots[at]),
    decreases at - from,
{
    if from < at {
        law_the_first_bad_slot_is_told(slots, from + 1, at);
    }
}

/// A snapshot is refused for its mode of play, or else for its inventory, or else
/// for its axes; the first two can never be retried.
pub proof fn law_why_a_snapshot_is_refused(
    raw: MinecraftSnapshotV1,
    axes: Result<(), BackendError>,
)
    ensures
        ({
            let refusal = refused_snapshot(raw, axes);
            let mode = game_mode_named(raw.world.game_mode@);
            let slots = slots_error(raw.inventory.slots@, 0);
            &&& mode is None ==> refusal == Some(
                BackendError::BackendFailure {
                    failure: BackendFailure {
                        code: BackendFailureCode::ProtocolError,
                        message: FailureMessage::UnknownGameMode(raw.world.game_mode),
                        retryable: false,
                    },
                },
            )
            &&& mode is Some && slots is Some ==> refusal == Some(
                BackendError::BackendFailure {
                    failure: BackendFailure {
                        code: BackendFailureCode::ProtocolError,
                        message: slots->0,
                        retryable: false,
                    },
                },
            )
            &&& mode is Some && slots is None && axes is Err ==> refusal == Some(axes->Err_0)
            &&& mode is Some && slots is None && axes is Ok ==> refusal is None
        }),
{
}

/// What callers get of a snapshot is what was captured: its identity, the world,
/// the player, each slot and each player in the list, in order. Only an empty uuid
/// is left out.
pub proof fn law_callers_get_what_was_captured(
    raw: MinecraftSnapshotV1,
    out: PublicSnapshot,
    slot: int,
    player: int,
)
    requires
        same_snapshot(raw, out),
    ensures
        out.snapshot_revision == raw.snapshot_revision,
        out.lifecycle_revision == raw.lifecycle_revision,
        out.captured_at == raw.captured_at,
        out.process_session_id == raw.process_session_id,
        out.connection_epoch == raw.connection_epoch,
        out.connection_attempt_id == raw.connection_attempt_id,
        out.world.world_id == raw.world.world_id,
        out.world.dimension == raw.world.dimension,
        out.world.minecraft_version == raw.world.minecraft_version,
        out.world.protocol_version == raw.world.protocol_version,
        out.world.min_y == raw.world.min_y,
        out.world.height == raw.world.height,
        game_mode_named(raw.world.game_mode@) == Some(out.world.game_mode),
        out.self_snapshot == raw.self_snapshot,
        out.selected_hotbar_slot == raw.inventory.selected_hotbar_slot,
        out.slots@.len() == raw.inventory.slots@.len(),
        out.tracked_players@.len() == raw.tracked_players@.len(),
        0 <= slot < out.slots@.len() ==> {
            &&& out.slots@[slot].slot == raw.inventory.slots@[slot].slot
            &&& out.slots@[slot].item_name == raw.inventory.slots@[slot].item_name
            &&& out.slots@[slot].count == raw.inventory.slots@[slot].count
        },
        0 <= player < out.tracked_players@.len() ==> {
            let known = raw.tracked_players@[player];
            let shown = out.tracked_players@[player];
            &&& shown.player_key == known.player_key
            &&& shown.username == known.username
            &&& shown.listed == known.listed
            &&& shown.entity_tracked == known.entity_tracked
            &&& shown.position == known.position
            &&& shown.yaw == known.yaw
            &&& shown.pitch == known.pitch
            &&& known.uuid@.len() == 0 ==> shown.uuid is None
            &&& known.uuid@.len() > 0 ==> shown.uuid == Some(known.uuid)
        },
{
    if 0 <= slot < out.slots@.len() {
        assert(same_slot(raw.inventory.slots@[slot], out.slots@[slot]));
    }
    if 0 <= player < out.tracked_players@.len() {
        assert(same_player(raw.tracked_players@[player], out.tracked_players@[player]));
    }
}

} // verus!
