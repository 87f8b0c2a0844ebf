//! Level descriptions: their validation, the entities they give rise to,
//! transitions between levels, and gates that open with an ability.

use crate::components::{AbilitySet, Collider, LevelGeometry, Position, PowerUp, SwingPoint};
use crate::enums::Ability;
use crate::swing::SWING_RANGE;
use vstd::prelude::*;
use vstd::string::{to_string_from_display_ensures, StringExecFns};

verus! {

/// Where the player starts in a level.
#[derive(Clone, Copy, Debug, PartialEq, Eq, Structural)]
pub struct SpawnPoint {
    pub x: i32,
    pub y: i32,
}

/// A rectangle of level geometry with its kind.
#[derive(Clone, Debug, PartialEq, Eq)]
pub struct GeometryData {
    pub geometry_type: String,
    pub x: i32,
    pub y: i32,
    pub width: i32,
    pub height: i32,
}

/// The position of a swing point.
#[derive(Clone, Copy, Debug, PartialEq, Eq, Structural)]
pub struct SwingPointData {
    pub x: i32,
    pub y: i32,
}

/// A checkpoint with its position.
#[derive(Clone, Debug, PartialEq, Eq)]
pub struct CheckpointData {
    pub id: String,
    pub x: i32,
    pub y: i32,
}

/// A power-up with its position.
#[derive(Clone, Copy, Debug, PartialEq, Eq, Structural)]
pub struct PowerUpData {
    pub ability_type: Ability,
    pub x: i32,
    pub y: i32,
}

/// A rectangle in world coordinates.
#[derive(Clone, Copy, Debug, PartialEq, Eq, Structural)]
pub struct TriggerArea {
    pub x: i32,
    pub y: i32,
    pub width: i32,
    pub height: i32,
}

/// A passage to another level.
#[derive(Clone, Debug, PartialEq, Eq)]
pub struct TransitionData {
    pub to_level: String,
    pub trigger_area: TriggerArea,
    pub spawn_point: SpawnPoint,
}

/// An area that is blocked until an ability is unlocked.
#[derive(Clone, Copy, Debug, PartialEq, Eq, Structural)]
pub struct AbilityGateData {
    pub required_ability: Ability,
    pub gate_area: TriggerArea,
}

/// A whole level.
#[derive(Clone, Debug, PartialEq, Eq)]
pub struct LevelData {
    pub id: String,
    pub width: i32,
    pub height: i32,
    pub spawn_point: SpawnPoint,
    pub geometry: Vec<GeometryData>,
    pub swing_points: Vec<SwingPointData>,
    pub checkpoints: Vec<CheckpointData>,
    pub power_ups: Vec<PowerUpData>,
    pub transitions: Vec<TransitionData>,
    pub ability_gates: Vec<AbilityGateData>,
}

/// A transition that the player has triggered and that is yet to happen.
#[derive(Clone, Debug, PartialEq, Eq)]
pub struct PendingTransition {
    pub to_level: String,
    pub spawn_point: Position,
}

/// An area that sends the player to another level.
#[derive(Clone, Debug, PartialEq, Eq)]
pub struct LevelTransitionTrigger {
    pub to_level: String,
    pub spawn_point: Position,
    /// The area in world coordinates: the offsets are its top left corner.
    pub trigger_area: Collider,
}

/// A gate in the level, which blocks until the player has its ability.
#[derive(Clone, Copy, Debug, PartialEq, Eq, Structural)]
pub struct AbilityGate {
    pub required_ability: Ability,
    /// The area in world coordinates: the offsets are its top left corner.
    pub gate_area: Collider,
    pub is_blocking: bool,
}

/// Why a level could not be loaded.
#[derive(Clone, Debug, PartialEq, Eq)]
pub enum LevelLoadError {
    FileNotFound(String),
    IoError(String, String),
    ParseError(String, String),
    ValidationError(String),
}

/// Joins two strings: the result holds the characters of `first`, then
/// those of `second`.
fn concat(first: &str, second: &str) -> (joined: String)
    ensures
        joined@ == first@ + second@,
{
    let mut joined = first.to_owned();
    joined.append(second);
    joined
}

impl LevelLoadError {
    /// The text that describes the error.
    pub open spec fn spec_message(self) -> Seq<char> {
        match self {
            LevelLoadError::FileNotFound(path) => "Level file not found: "@ + path@,
            LevelLoadError::IoError(path, err) => "IO error reading level file "@ + path@ + ": "@ + err@,
            LevelLoadError::ParseError(path, err) => "Failed to parse level file "@ + path@ + ": "@ + err@,
            LevelLoadError::ValidationError(msg) => "Level validation error: "@ + msg@,
        }
    }

    /// Describes the error in words.
    pub fn message(&self) -> (text: String)
        ensures
            text@ == self.spec_message(),
    {
        match self {
            LevelLoadError::FileNotFound(path) => concat("Level file not found: ", path.as_str()),
            LevelLoadError::IoError(path, err) => {
                let start = concat("IO error reading level file ", path.as_str());
                let middle = concat(start.as_str(), ": ");
                concat(middle.as_str(), err.as_str())
            },
            LevelLoadError::ParseError(path, err) => {
                let start = concat("Failed to parse level file ", path.as_str());
                let middle = concat(start.as_str(), ": ");
                concat(middle.as_str(), err.as_str())
            },
            LevelLoadError::ValidationError(msg) => concat("Level validation error: ", msg.as_str()),
        }
    }
}

/// Whether a rectangle of geometry has no area.
pub open spec fn has_invalid_dimensions(geometry: GeometryData) -> bool {
    geometry.width <= 0 || geometry.height <= 0
}

/// A level is valid if it has a name and a positive size, and every
/// rectangle of its geometry has a positive size.
pub open spec fn level_is_valid(level: LevelData) -> bool {
    &&& level.id@.len() > 0
    &&& level.width > 0
    &&& level.height > 0
    &&& forall|i: int| 0 <= i < level.geometry@.len() ==> !has_invalid_dimensions(#[trigger] level.geometry@[i])
}

/// Whether `index` is that of the first rectangle without area.
pub open spec fn is_first_invalid_geometry(level: LevelData, index: int) -> bool {
    &&& 0 <= index < level.geometry@.len()
    &&& has_invalid_dimensions(level.geometry@[index])
    &&& forall|j: int| 0 <= j < index ==> !has_invalid_dimensions(#[trigger] level.geometry@[j])
}

/// Whether `message` is what the validation says of an invalid level: it
/// names the first rule that the level breaks, in the order name, width,
/// height, geometry; for geometry, with the index of the first rectangle
/// without area, in decimal.
pub open spec fn is_validation_message(level: LevelData, message: Seq<char>) -> bool {
    if level.id@.len() == 0 {
        message == "Level ID cannot be empty"@
    } else if level.width <= 0 {
        message == "Level width must be positive"@
    } else if level.height <= 0 {
        message == "Level height must be positive"@
    } else {
        exists|index: usize, digits: String|
            {
                &&& is_first_invalid_geometry(level, index as int)
                &&& #[trigger] to_string_from_display_ensures::<usize>(&index, digits)
                &&& message == "Geometry "@ + digits@ + " has invalid dimensions"@
            }
    }
}

/// Checks a level for its required fields and for sizes that make sense.
pub fn validate_level_data(level: &LevelData) -> (result: Result<(), LevelLoadError>)
    ensures
        result is Ok <==> level_is_valid(*level),
        result matches Err(error) ==> error matches LevelLoadError::ValidationError(message) && is_validation_message(*level, message@),
{
    if level.id.as_str().is_empty() {
        return Err(LevelLoadError::ValidationError("Level ID cannot be empty".to_owned()));
    }
    if level.width <= 0 {
        return Err(LevelLoadError::ValidationError("Level width must be positive".to_owned()));
    }
    if level.height <= 0 {
        return Err(LevelLoadError::ValidationError("Level height must be positive".to_owned()));
    }
    let mut i: usize = 0;
    while i < level.geometry.len()
        invariant
            i <= level.geometry@.len(),
            level.id@.len() > 0,
            level.width > 0,
            level.height > 0,
            forall|j: int| 0 <= j < i ==> !has_invalid_dimensions(#[trigger] level.geometry@[j]),
        decreases level.geometry.len() - i,
    {
        if level.geometry[i].width <= 0 || level.geometry[i].height <= 0 {
            let digits = i.to_string();
            let start = concat("Geometry ", digits.as_str());
            let message = concat(start.as_str(), " has invalid dimensions");
            proof {
                assert(is_first_invalid_geometry(*level, i as int));
                assert(to_string_from_display_ensures::<usize>(&i, digits));
            }
            return Err(LevelLoadError::ValidationError(message));
        }
        i += 1;
    }
    Ok(())
}

/// The entities that a level gives rise to.
#[derive(Clone, Debug, PartialEq, Eq)]
pub struct LevelEntities {
    pub geometry: Vec<LevelGeometry>,
    pub swing_points: Vec<(Position, SwingPoint)>,
    pub power_ups: Vec<(Position, PowerUp)>,
    pub transitions: Vec<LevelTransitionTrigger>,
    pub ability_gates: Vec<AbilityGate>,
}

/// The collision rectangle of a rectangle of geometry.
pub open spec fn geometry_entity(data: GeometryData) -> LevelGeometry {
    LevelGeometry { x: data.x, y: data.y, width: data.width, height: data.height }
}

/// The swing point at a position, with the usual range.
pub open spec fn swing_point_entity(data: SwingPointData) -> (Position, SwingPoint) {
    (Position { x: data.x, y: data.y }, SwingPoint { range: SWING_RANGE })
}

/// The power-up of a level's power-up.
pub open spec fn power_up_entity(data: PowerUpData) -> (Position, PowerUp) {
    (Position { x: data.x, y: data.y }, PowerUp { ability: data.ability_type })
}

/// An area as a collider in world coordinates.
pub open spec fn area_collider(area: TriggerArea) -> Collider {
    Collider { width: area.width, height: area.height, offset_x: area.x, offset_y: area.y }
}

/// The trigger of a transition.
pub open spec fn transition_entity(data: TransitionData) -> LevelTransitionTrigger {
    LevelTransitionTrigger {
        to_level: data.to_level,
        spawn_point: Position { x: data.spawn_point.x, y: data.spawn_point.y },
        trigger_area: area_collider(data.trigger_area),
    }
}

/// A gate as it is when its level starts: it blocks.
pub open spec fn gate_entity(data: AbilityGateData) -> AbilityGate {
    AbilityGate { required_ability: data.required_ability, gate_area: area_collider(data.gate_area), is_blocking: true }
}

/// Lists the entities of a level: its collision rectangles, swing points,
/// power-ups, transition triggers and gates, each list in the level's order.
pub fn spawn_level_entities(level: &LevelData) -> (entities: LevelEntities)
    ensures
        entities.geometry@.len() == level.geometry@.len(),
        forall|i: int| 0 <= i < level.geometry@.len() ==> #[trigger] entities.geometry@[i] == geometry_entity(level.geometry@[i]),
        entities.swing_points@.len() == level.swing_points@.len(),
        forall|i: int| 0 <= i < level.swing_points@.len() ==> #[trigger] entities.swing_points@[i] == swing_point_entity(level.swing_points@[i]),
        entities.power_ups@.len() == level.power_ups@.len(),
        forall|i: int| 0 <= i < level.power_ups@.len() ==> #[trigger] entities.power_ups@[i] == power_up_entity(level.power_ups@[i]),
        entities.transitions@.len() == level.transitions@.len(),
        forall|i: int| 0 <= i < level.transitions@.len() ==> #[trigger] entities.transitions@[i] == transition_entity(level.transitions@[i]),
        entities.ability_gates@.len() == level.ability_gates@.len(),
        forall|i: int| 0 <= i < level.ability_gates@.len() ==> #[trigger] entities.ability_gates@[i] == gate_entity(level.ability_gates@[i]),
{
    let mut geometry: Vec<LevelGeometry> = Vec::new();
    let mut i: usize = 0;
    while i < level.geometry.len()
        invariant
            i <= level.geometry@.len(),
            geometry@.len() == i,
            forall|j: int| 0 <= j < i ==> #[trigger] geometry@[j] == geometry_entity(level.geometry@[j]),
        decreases level.geometry.len() - i,
    {
        let geo = &level.geometry[i];
        geometry.push(LevelGeometry { x: geo.x, y: geo.y, width: geo.width, height: geo.height });
        i += 1;
    }
    let mut swing_points: Vec<(Position, SwingPoint)> = Vec::new();
    let mut i: usize = 0;
    while i < level.swing_points.len()
        invariant
            i <= level.swing_points@.len(),
            swing_points@.len() == i,
            forall|j: int| 0 <= j < i ==> #[trigger] swing_points@[j] == swing_point_entity(level.swing_points@[j]),
        decreases level.swing_points.len() - i,
    {
        let point = level.swing_points[i];
        swing_points.push((Position { x: point.x, y: point.y }, SwingPoint { range: SWING_RANGE }));
        i += 1;
    }
    let mut power_ups: Vec<(Position, PowerUp)> = Vec::new();
    let mut i: usize = 0;
    while i < level.power_ups.len()
        invariant
            i <= level.power_ups@.len(),
            power_ups@.len() == i,
            forall|j: int| 0 <= j < i ==> #[trigger] power_ups@[j] == power_up_entity(level.power_ups@[j]),
        decreases level.power_ups.len() - i,
    {
        let power_up = level.power_ups[i];
        power_ups.push((Position { x: power_up.x, y: power_up.y }, PowerUp { ability: power_up.ability_type }));
        i += 1;
    }
    let mut transitions: Vec<LevelTransitionTrigger> = Vec::new();
    let mut i: usize = 0;
    while i < level.transitions.len()
        invariant
            i <= level.transitions@.len(),
            transitions@.len() == i,
            forall|j: int| 0 <= j < i ==> #[trigger] transitions@[j] == transition_entity(level.transitions@[j]),
        decreases level.transitions.len() - i,
    {
        let transition = &level.transitions[i];
        transitions.push(
            LevelTransitionTrigger {
                to_level: transition.to_level.clone(),
                spawn_point: Position { x: transition.spawn_point.x, y: transition.spawn_point.y },
                trigger_area: Collider {
                    width: transition.trigger_area.width,
                    height: transition.trigger_area.height,
                    offset_x: transition.trigger_area.x,
                    offset_y: transition.trigger_area.y,
                },
            },
        );
        i += 1;
    }
    let mut ability_gates: Vec<AbilityGate> = Vec::new();
    let mut i: usize = 0;
    while i < level.ability_gates.len()
        invariant
            i <= level.ability_gates@.len(),
            ability_gates@.len() == i,
            forall|j: int| 0 <= j < i ==> #[trigger] ability_gates@[j] == gate_entity(level.ability_gates@[j]),
        decreases level.ability_gates.len() - i,
    {
        let gate = level.ability_gates[i];
        ability_gates.push(
            AbilityGate {
                required_ability: gate.required_ability,
                gate_area: Collider {
                    width: gate.gate_area.width,
                    height: gate.gate_area.height,
                    offset_x: gate.gate_area.x,
                    offset_y: gate.gate_area.y,
                },
                is_blocking: true,
            },
        );
        i += 1;
    }
    LevelEntities { geometry, swing_points, power_ups, transitions, ability_gates }
}

/// Whether the player's box overlaps an area given in world coordinates.
/// Boxes that only touch do not overlap.
pub open spec fn overlaps_area(player_pos: Position, collider: Collider, area: Collider) -> bool {
    &&& collider.right(player_pos) > area.offset_x
    &&& collider.left(player_pos) < area.offset_x + area.width
    &&& collider.bottom(player_pos) > area.offset_y
    &&& collider.top(player_pos) < area.offset_y + area.height
}

/// Whether `index` is that of the first trigger that the player overlaps.
pub open spec fn is_first_trigger(player_pos: Position, collider: Collider, triggers: Seq<LevelTransitionTrigger>, index: int) -> bool {
    &&& 0 <= index < triggers.len()
    &&& overlaps_area(player_pos, collider, triggers[index].trigger_area)
    &&& forall|j: int| 0 <= j < index ==> !overlaps_area(player_pos, collider, (#[trigger] triggers[j]).trigger_area)
}

/// Finds the transition that the player has walked into: that of the first
/// trigger whose area the player's box overlaps.
pub fn detect_level_transitions(player_pos: &Position, player_collider: &Collider, triggers: &Vec<LevelTransitionTrigger>) -> (pending: Option<PendingTransition>)
    ensures
        pending is None <==> forall|j: int| 0 <= j < triggers@.len() ==> !overlaps_area(*player_pos, *player_collider, (#[trigger] triggers@[j]).trigger_area),
        pending matches Some(transition) ==> exists|i: int| is_first_trigger(*player_pos, *player_collider, triggers@, i) && transition.to_level == (#[trigger] triggers@[i]).to_level && transition.spawn_point == triggers@[i].spawn_point,
{
    let player_left = player_pos.x as i64 + player_collider.offset_x as i64;
    let player_right = player_left + player_collider.width as i64;
    let player_top = player_pos.y as i64 + player_collider.offset_y as i64;
    let player_bottom = player_top + player_collider.height as i64;
    let mut i: usize = 0;
    while i < triggers.len()
        invariant
            i <= triggers@.len(),
            player_left == player_collider.left(*player_pos),
            player_right == player_collider.right(*player_pos),
            player_top == player_collider.top(*player_pos),
            player_bottom == player_collider.bottom(*player_pos),
            forall|j: int| 0 <= j < i ==> !overlaps_area(*player_pos, *player_collider, (#[trigger] triggers@[j]).trigger_area),
        decreases triggers.len() - i,
    {
        let trigger = &triggers[i];
        let trigger_left = trigger.trigger_area.offset_x as i64;
        let trigger_right = trigger_left + trigger.trigger_area.width as i64;
        let trigger_top = trigger.trigger_area.offset_y as i64;
        let trigger_bottom = trigger_top + trigger.trigger_area.height as i64;
        if player_right > trigger_left && player_left < trigger_right && player_bottom > trigger_top && player_top
            < trigger_bottom {
            proof {
                assert(is_first_trigger(*player_pos, *player_collider, triggers@, i as int));
            }
            return Some(PendingTransition { to_level: trigger.to_level.clone(), spawn_point: trigger.spawn_point });
        }
        i += 1;
    }
    None
}

/// What is to be done with the blocking geometry of a gate.
#[derive(Clone, Copy, Debug, PartialEq, Eq, Structural)]
pub enum GateAction {
    /// Leave the geometry as it is.
    Keep,
    /// Add this rectangle as blocking geometry.
    AddGeometry(LevelGeometry),
    /// Remove the blocking rectangle with this index.
    RemoveGeometry(usize),
}

/// How far a rectangle may differ from a gate's area and still count as
/// its geometry.
pub const GATE_MATCH_TOLERANCE: i32 = 100;

/// Whether two values differ by less than the tolerance.
pub open spec fn nearly_equal(a: int, b: int) -> bool {
    -GATE_MATCH_TOLERANCE < a - b < GATE_MATCH_TOLERANCE
}

/// Whether a rectangle is the blocking geometry of a gate area.
pub open spec fn matches_gate(geometry: LevelGeometry, area: Collider) -> bool {
    &&& nearly_equal(geometry.x as int, area.offset_x as int)
    &&& nearly_equal(geometry.y as int, area.offset_y as int)
    &&& nearly_equal(geometry.width as int, area.width as int)
    &&& nearly_equal(geometry.height as int, area.height as int)
}

/// The rectangle that blocks a gate area.
pub open spec fn gate_geometry(area: Collider) -> LevelGeometry {
    LevelGeometry { x: area.offset_x, y: area.offset_y, width: area.width, height: area.height }
}

/// Whether `index` is that of the first rectangle that is the geometry of
/// this gate area.
pub open spec fn is_first_match(geometry: Seq<LevelGeometry>, area: Collider, index: int) -> bool {
    &&& 0 <= index < geometry.len()
    &&& matches_gate(geometry[index], area)
    &&& forall|j: int| 0 <= j < index ==> !matches_gate(#[trigger] geometry[j], area)
}

/// Whether `action` is what a gate asks for. A gate blocks exactly while
/// the player lacks its ability. A gate that starts to block gets its
/// geometry; one that stops has the first matching rectangle removed, if
/// there is one; one that goes on blocking gets its geometry if it is missing.
pub open spec fn is_gate_action(abilities: AbilitySet, gate: AbilityGate, geometry: Seq<LevelGeometry>, action: GateAction) -> bool {
    let should_block = !abilities@.contains(gate.required_ability);
    let missing = forall|j: int| 0 <= j < geometry.len() ==> !matches_gate(#[trigger] geometry[j], gate.gate_area);
    if should_block && (!gate.is_blocking || missing) {
        action == GateAction::AddGeometry(gate_geometry(gate.gate_area))
    } else if !should_block && gate.is_blocking && !missing {
        action matches GateAction::RemoveGeometry(index) && is_first_match(geometry, gate.gate_area, index as int)
    } else {
        action == GateAction::Keep
    }
}

fn find_gate_geometry(gate_geometry: &Vec<LevelGeometry>, area: &Collider) -> (found: Option<usize>)
    ensures
        found is None <==> forall|j: int| 0 <= j < gate_geometry@.len() ==> !matches_gate(#[trigger] gate_geometry@[j], *area),
        found matches Some(index) ==> is_first_match(gate_geometry@, *area, index as int),
{
    let tolerance = GATE_MATCH_TOLERANCE as i64;
    let mut i: usize = 0;
    while i < gate_geometry.len()
        invariant
            i <= gate_geometry@.len(),
            tolerance == GATE_MATCH_TOLERANCE,
            forall|j: int| 0 <= j < i ==> !matches_gate(#[trigger] gate_geometry@[j], *area),
        decreases gate_geometry.len() - i,
    {
        let geo = gate_geometry[i];
        let dx = geo.x as i64 - area.offset_x as i64;
        let dy = geo.y as i64 - area.offset_y as i64;
        let dw = geo.width as i64 - area.width as i64;
        let dh = geo.height as i64 - area.height as i64;
        if -tolerance < dx && dx < tolerance && -tolerance < dy && dy < tolerance && -tolerance < dw && dw < tolerance
            && -tolerance < dh && dh < tolerance {
            return Some(i);
        }
        i += 1;
    }
    None
}

/// Opens or closes a gate according to the player's abilities, and says
/// what is to be done with its blocking geometry. `gate_geometry` holds the
/// blocking rectangles of all gates.
pub fn update_ability_gates(abilities: &AbilitySet, gate: &mut AbilityGate, gate_geometry: &Vec<LevelGeometry>) -> (action: GateAction)
    ensures
        final(gate).is_blocking == !abilities@.contains(old(gate).required_ability),
        final(gate).required_ability == old(gate).required_ability,
        final(gate).gate_area == old(gate).gate_area,
        is_gate_action(*abilities, *old(gate), gate_geometry@, action),
{
    let should_block = !abilities.has(gate.required_ability);
    let area = gate.gate_area;
    let blocking = LevelGeometry { x: area.offset_x, y: area.offset_y, width: area.width, height: area.height };
    if gate.is_blocking != should_block {
        gate.is_blocking = should_block;
        if should_block {
            GateAction::AddGeometry(blocking)
        } else {
            match find_gate_geometry(gate_geometry, &area) {
                Some(index) => GateAction::RemoveGeometry(index),
                None => GateAction::Keep,
            }
        }
    } else if should_block {
        match find_gate_geometry(gate_geometry, &area) {
            Some(_) => GateAction::Keep,
            None => GateAction::AddGeometry(blocking),
        }
    } else {
        GateAction::Keep
    }
}

} // verus!
