//! Components and events of the player character and the interactable
//! entities.
//!
//! Spatial data is carried in whole world units (`Vec2` over `i64`): every
//! per-tick displacement the systems apply is a whole number of units,
//! so integer coordinates represent the reachable positions exactly.

use vstd::prelude::*;

verus! {

/// Bound on the world coordinates a session starts a tick with.  Wide
/// enough for any level, and far enough from `WORLD_LIMIT` that one tick
/// of movement can never carry a transform past it.
pub const COORD_LIMIT: i64 = 0x1000_0000_0000;

/// Bound within which the spatial systems accept a coordinate: every
/// displacement, difference and squared distance of coordinates under this
/// bound stays inside the range of the machine integers that compute it.
pub const WORLD_LIMIT: i64 = 0x1000_0000_0000_0000;

/// A 2D point or displacement in whole world units.
#[derive(Copy, Clone, Eq, PartialEq, Debug, Structural)]
pub struct Vec2 {
    pub x: i64,
    pub y: i64,
}

impl Vec2 {
    /// Both coordinates lie within the per-tick starting bound.
    pub open spec fn in_bounds(self) -> bool {
        -COORD_LIMIT <= self.x <= COORD_LIMIT && -COORD_LIMIT <= self.y <= COORD_LIMIT
    }

    /// Both coordinates lie within the computational bound.
    pub open spec fn in_world(self) -> bool {
        -WORLD_LIMIT <= self.x <= WORLD_LIMIT && -WORLD_LIMIT <= self.y <= WORLD_LIMIT
    }
}

/// The player's interaction mode.
#[derive(Copy, Clone, Eq, PartialEq, Debug, Structural)]
pub enum Player {
    Moving,
    Interacting,
}

impl Default for Player {
    /// A fresh player starts out moving.
    fn default() -> (new: Self)
        ensures
            new == Player::Moving,
    {
        let new = Player::Moving;
        new
    }
}

/// Tag carried by each body-part entity.
#[derive(Copy, Clone, Eq, PartialEq, Debug, Structural)]
pub enum BodyPart {
    Body,
    LeftArm,
    RightArm,
    LeftLeg,
    RightLeg,
    Head,
}

impl Default for BodyPart {
    fn default() -> (new: Self)
        ensures
            new == BodyPart::Body,
    {
        BodyPart::Body
    }
}

/// The player-owned aggregate of available body parts: the ordered list of
/// tags the player can cycle through, the cursor into it, and the tag at the
/// cursor.
#[derive(Clone, Eq, PartialEq, Debug)]
pub struct BodyParts {
    pub body_parts: Vec<BodyPart>,
    pub current_part: BodyPart,
    pub index: usize,
}

impl BodyParts {
    /// Invariant: the list is never empty, the cursor is in range, and the
    /// current part is the tag at the cursor.
    pub open spec fn wf(self) -> bool {
        &&& self.body_parts@.len() >= 1
        &&& self.index < self.body_parts@.len()
        &&& self.current_part == self.body_parts@[self.index as int]
    }
}

impl Default for BodyParts {
    /// The player starts with only the body available, cursor at its start.
    fn default() -> (new: Self)
        ensures
            new.body_parts@ =~= seq![BodyPart::Body],
            new.current_part == BodyPart::Body,
            new.index == 0,
            new.wf(),
    {
        let mut new = BodyParts {
            body_parts: Vec::new(),
            current_part: BodyPart::Body,
            index: 0,
        };
        new.body_parts.push(new.current_part);
        new
    }
}

/// Origin of the current arm-aim drag gesture; transient, overwritten on
/// each press of the pointer button.
#[derive(Copy, Clone, PartialEq, Eq, Debug, Structural)]
pub struct ArmVec(pub Vec2);

impl Default for ArmVec {
    fn default() -> (new: Self)
        ensures
            new == (ArmVec(Vec2 { x: 0, y: 0 })),
    {
        ArmVec(Vec2 { x: 0, y: 0 })
    }
}

/// Number of item slots in the player's inventory.
pub const INVENTORY_SLOTS: usize = 8;

/// Fixed-capacity array of optional item slots.  Pickups fill the first
/// empty slot; there is no removal path (doors consume by matching, not by
/// deleting).
#[derive(Clone, Debug)]
pub struct Inventory(pub Vec<Option<Item>>);

impl Inventory {
    /// Invariant: the slot array always has exactly `INVENTORY_SLOTS` slots.
    pub open spec fn wf(self) -> bool {
        self.0@.len() == INVENTORY_SLOTS
    }

    /// Every slot is occupied.
    pub open spec fn is_full(self) -> bool {
        forall|i: int| 0 <= i < self.0@.len() ==> self.0@[i] is Some
    }
}

impl Default for Inventory {
    /// A fresh inventory has all eight slots empty.
    fn default() -> (new: Self)
        ensures
            new.0@.len() == INVENTORY_SLOTS,
            forall|i: int| 0 <= i < new.0@.len() ==> new.0@[i] is None,
            new.wf(),
    {
        let mut slots: Vec<Option<Item>> = Vec::new();
        slots.push(None);
        slots.push(None);
        slots.push(None);
        slots.push(None);
        slots.push(None);
        slots.push(None);
        slots.push(None);
        slots.push(None);
        let new = Inventory(slots);
        new
    }
}

/// An item identified by a content key (for example "Gumball"); copied into
/// inventory slots on pickup.
#[derive(Clone, Debug)]
pub struct Item {
    pub id: String,
}

impl Item {
    /// A field-for-field copy, exact enough for contracts to track it.
    pub fn duplicate(&self) -> (new: Item)
        ensures
            new == *self,
    {
        Item { id: self.id.clone() }
    }
}

impl Default for Item {
    /// The placeholder item: an empty identifier.
    fn default() -> (new: Self)
        ensures
            new.id@ == Seq::<char>::empty(),
    {
        let new = Item { id: String::new() };
        new
    }
}

/// Marker for a clickable dialogue choice.
#[derive(Copy, Clone, Eq, PartialEq, Debug, Default, Structural)]
pub struct DialogueChoice;

/// Placeholder payload of a puzzle interaction.
#[derive(Copy, Clone, Eq, PartialEq, Debug, Default, Structural)]
pub struct Puzzle;

/// One node of a conversation: a prompt, a finished flag, and up to three
/// labelled branches to other node indices.
#[derive(Clone, Debug)]
pub struct Dialogue {
    pub prompt: String,
    pub finished: bool,
    pub choice1: Option<(String, usize)>,
    pub choice2: Option<(String, usize)>,
    pub choice3: Option<(String, usize)>,
}

/// A person owns an ordered sequence of dialogue nodes.
#[derive(Clone, Debug)]
pub struct Person(pub Vec<Dialogue>);

impl Default for Person {
    /// A person with no dialogue yet.
    fn default() -> (new: Self)
        ensures
            new.0@.len() == 0,
    {
        let new = Person(Vec::new());
        new
    }
}

/// State of a door: an optional list of required item identifiers
/// (`None` means the door opens unconditionally), whether it can be used
/// again, and whether it is currently closed.
#[derive(Clone, Debug)]
pub struct Door {
    pub requirements: Option<Vec<String>>,
    pub reusable: bool,
    pub closed: bool,
}

impl Door {
    /// The requirement list as a mathematical value: `None`, or the sequence
    /// of required identifier strings.
    pub open spec fn reqs(self) -> Option<Seq<String>> {
        match self.requirements {
            Some(rs) => Some(rs@),
            None => None,
        }
    }

    /// A field-for-field copy, exact enough for contracts to track it.
    pub fn duplicate(&self) -> (new: Door)
        ensures
            new.reqs() == self.reqs(),
            new.reusable == self.reusable,
            new.closed == self.closed,
    {
        let requirements = match &self.requirements {
            Some(reqs) => Some(reqs.clone()),
            None => None,
        };
        proof {
            if self.requirements is Some {
                let r1 = self.requirements->0@;
                let r2 = requirements->0@;
                assert forall|i: int| 0 <= i < r1.len() implies r1[i] == r2[i] by {
                    assert(cloned::<String>(r1[i], r2[i]));
                }
                assert(r1 =~= r2);
            }
        }
        Door { requirements, reusable: self.reusable, closed: self.closed }
    }
}

impl Default for Door {
    /// A door with no requirements that is closed but reusable.
    fn default() -> (new: Self)
        ensures
            new.requirements is None,
            new.reusable == true,
            new.closed == true,
    {
        Door { requirements: None, reusable: true, closed: true }
    }
}

/// Which kind of interaction an interactable entity offers.
#[derive(Copy, Clone, Eq, PartialEq, Debug, Structural)]
pub enum InteractionType {
    Item,
    Puzzle,
    Person,
    Door,
}

impl Default for InteractionType {
    fn default() -> (new: Self)
        ensures
            new == InteractionType::Door,
    {
        InteractionType::Door
    }
}

/// Per-entity interaction component: the proximity flag recomputed every
/// tick, the interaction kind, and the payload of that kind.
#[derive(Clone, Debug)]
pub struct Interactable {
    pub can_interact: bool,
    pub interaction_type: InteractionType,
    pub item: Option<Item>,
    pub puzzle: Option<Puzzle>,
    pub person: Option<Person>,
    pub door: Option<Door>,
}

impl Interactable {
    /// Invariant: exactly the payload matching `interaction_type` is
    /// populated; the other three are absent.
    pub open spec fn wf(self) -> bool {
        match self.interaction_type {
            InteractionType::Item => {
                self.item is Some && self.puzzle is None && self.person is None
                    && self.door is None
            },
            InteractionType::Puzzle => {
                self.item is None && self.puzzle is Some && self.person is None
                    && self.door is None
            },
            InteractionType::Person => {
                self.item is None && self.puzzle is None && self.person is Some
                    && self.door is None
            },
            InteractionType::Door => {
                self.item is None && self.puzzle is None && self.person is None
                    && self.door is Some
            },
        }
    }
}

impl Default for Interactable {
    /// The fallback interactable: a closed, requirement-free door that is
    /// out of reach until the detector flags it.
    fn default() -> (new: Self)
        ensures
            new.can_interact == false,
            new.interaction_type == InteractionType::Door,
            new.door matches Some(door) && door.requirements is None && door.reusable
                && door.closed,
            new.item is None,
            new.puzzle is None,
            new.person is None,
            new.wf(),
    {
        Interactable {
            can_interact: false,
            interaction_type: InteractionType::Door,
            item: None,
            puzzle: None,
            person: None,
            door: Some(Door::default()),
        }
    }
}

/// The logical input actions the player can bind keys to.
#[derive(Copy, Clone, Eq, PartialEq, Hash, Debug, Structural)]
pub enum Action {
    Up,
    Down,
    Left,
    Right,
    Interact,
    CycleForward,
    CycleBackward,
    Unused,
    Split,
}

/// One boolean per logical action.
#[derive(Copy, Clone, Eq, PartialEq, Debug, Structural)]
pub struct ActionFlags {
    pub up: bool,
    pub down: bool,
    pub left: bool,
    pub right: bool,
    pub interact: bool,
    pub cycle_forward: bool,
    pub cycle_backward: bool,
    pub unused: bool,
    pub split: bool,
}

impl ActionFlags {
    /// The flag recorded for `action`.
    pub open spec fn spec_get(self, action: Action) -> bool {
        match action {
            Action::Up => self.up,
            Action::Down => self.down,
            Action::Left => self.left,
            Action::Right => self.right,
            Action::Interact => self.interact,
            Action::CycleForward => self.cycle_forward,
            Action::CycleBackward => self.cycle_backward,
            Action::Unused => self.unused,
            Action::Split => self.split,
        }
    }

    /// No action is flagged.
    pub fn none() -> (new: Self)
        ensures
            forall|a: Action| !new.spec_get(a),
    {
        ActionFlags {
            up: false,
            down: false,
            left: false,
            right: false,
            interact: false,
            cycle_forward: false,
            cycle_backward: false,
            unused: false,
            split: false,
        }
    }
}

/// The per-tick state of the logical actions, each independently queryable
/// as held or as freshly pressed this tick (edge-triggered).
#[derive(Copy, Clone, Eq, PartialEq, Debug, Structural)]
pub struct ActionState {
    pub held: ActionFlags,
    pub fresh: ActionFlags,
}

impl ActionState {
    /// The action is held down this tick.
    pub fn pressed(&self, action: Action) -> (r: bool)
        ensures
            r == self.held.spec_get(action),
    {
        match action {
            Action::Up => self.held.up,
            Action::Down => self.held.down,
            Action::Left => self.held.left,
            Action::Right => self.held.right,
            Action::Interact => self.held.interact,
            Action::CycleForward => self.held.cycle_forward,
            Action::CycleBackward => self.held.cycle_backward,
            Action::Unused => self.held.unused,
            Action::Split => self.held.split,
        }
    }

    /// The action transitioned from released to pressed on this very tick.
    pub fn just_pressed(&self, action: Action) -> (r: bool)
        ensures
            r == self.fresh.spec_get(action),
    {
        match action {
            Action::Up => self.fresh.up,
            Action::Down => self.fresh.down,
            Action::Left => self.fresh.left,
            Action::Right => self.fresh.right,
            Action::Interact => self.fresh.interact,
            Action::CycleForward => self.fresh.cycle_forward,
            Action::CycleBackward => self.fresh.cycle_backward,
            Action::Unused => self.fresh.unused,
            Action::Split => self.fresh.split,
        }
    }

    /// A tick on which nothing is pressed.
    pub fn idle() -> (new: Self)
        ensures
            forall|a: Action| !new.held.spec_get(a) && !new.fresh.spec_get(a),
    {
        ActionState { held: ActionFlags::none(), fresh: ActionFlags::none() }
    }
}

/// The per-tick state of the primary pointer button and the pointer
/// position, used for the arm-aim drag gesture.
#[derive(Copy, Clone, Eq, PartialEq, Debug, Structural)]
pub struct MouseState {
    pub left_just_pressed: bool,
    pub left_just_released: bool,
    pub cursor: Vec2,
}

/// A body-part entity: its tag and its spatial transform.
#[derive(Copy, Clone, Eq, PartialEq, Debug, Structural)]
pub struct BodyPartEntity {
    pub part: BodyPart,
    pub transform: Vec2,
}

/// An interactable entity: a stable identifier, the interaction component,
/// and the spatial transform.
#[derive(Clone, Debug)]
pub struct InteractableEntity {
    pub entity: u64,
    pub interactable: Interactable,
    pub transform: Vec2,
}

/// Everything the player entity owns: mode, inventory, the body-part
/// cursor, and the arm-aim origin.
#[derive(Clone, Debug)]
pub struct PlayerParentBundle {
    pub player: Player,
    pub inventory: Inventory,
    pub body_parts: BodyParts,
    pub arm_vec: ArmVec,
}

impl Default for PlayerParentBundle {
    /// The freshly spawned player: moving, empty inventory, only the body
    /// available, no drag in progress.
    fn default() -> (new: Self)
        ensures
            new.player == Player::Moving,
            new.inventory.wf(),
            forall|i: int| 0 <= i < new.inventory.0@.len() ==> new.inventory.0@[i] is None,
            new.body_parts.wf(),
            new.body_parts.body_parts@ =~= seq![BodyPart::Body],
            new.body_parts.index == 0,
            new.body_parts.current_part == BodyPart::Body,
            new.arm_vec == (ArmVec(Vec2 { x: 0, y: 0 })),
    {
        PlayerParentBundle {
            player: Player::default(),
            inventory: Inventory::default(),
            body_parts: BodyParts::default(),
            arm_vec: ArmVec::default(),
        }
    }
}

// EVENTS

/// Raised when an eligible interactable is triggered: the entity identifier
/// and its interaction kind, fanned out by the broadcast stage.
pub struct InteractionWrapper(pub u64, pub InteractionType);

/// Typed event of an item interaction.
pub struct ItemInteraction(pub Item);

/// Typed event of a puzzle interaction.
pub struct PuzzleInteraction(pub Puzzle);

/// Typed event of a person interaction, with the conversation cursor.
pub struct PersonInteraction(pub Person, pub (usize, usize));

/// Typed event of a door interaction: the door's state and the originating
/// entity identifier.
pub struct DoorInteraction(pub Door, pub u64);

/// Raised when the player moves to another room.
pub struct RoomChange(pub usize);

/// Raised once the camera should be placed over the freshly loaded level.
pub struct CameraSetupEvent;

/// Whether two string slices read the same.  Exact comparison of content
/// keys, stated over the character sequences.
pub fn str_eq(a: &str, b: &str) -> (r: bool)
    ensures
        r == (a@ == b@),
{
    let a_owned: String = a.to_owned();
    let b_owned: String = b.to_owned();
    a_owned == b_owned
}

impl Interactable {
    /// Maps a level-authoring entity identifier to the interactable spawned
    /// for it.  Known keys select a person or item payload; unrecognized
    /// keys fall back to the door-type default.
    pub fn from_identifier(identifier: &str) -> (new: Interactable)
        ensures
            new.wf(),
            new.can_interact == false,
            identifier@ == "NPC_spawn"@ ==> new.interaction_type == InteractionType::Person
                && (new.person matches Some(p) && p.0@.len() == 0),
            identifier@ == "Gum_Machine"@ ==> new.interaction_type == InteractionType::Item
                && (new.item matches Some(item) && item.id@ == "Gumball"@),
            identifier@ == "Vendor"@ ==> new.interaction_type == InteractionType::Item && (
            new.item matches Some(item) && item.id@ == Seq::<char>::empty()),
            identifier@ != "NPC_spawn"@ && identifier@ != "Gum_Machine"@ && identifier@
                != "Vendor"@ ==> new.interaction_type == InteractionType::Door && (new.door
                matches Some(door) && door.requirements is None && door.reusable
                && door.closed),
    {
        proof {
            reveal_strlit("NPC_spawn");
            reveal_strlit("Gum_Machine");
            reveal_strlit("Vendor");
            reveal_strlit("Gumball");
            assert("NPC_spawn"@.len() == 9);
            assert("Gum_Machine"@.len() == 11);
            assert("Vendor"@.len() == 6);
            assert("NPC_spawn"@ != "Gum_Machine"@);
            assert("NPC_spawn"@ != "Vendor"@);
            assert("Gum_Machine"@ != "Vendor"@);
        }
        if str_eq(identifier, "NPC_spawn") {
            Interactable {
                can_interact: false,
                interaction_type: InteractionType::Person,
                item: None,
                puzzle: None,
                person: Some(Person::default()),
                door: None,
            }
        } else if str_eq(identifier, "Gum_Machine") {
            Interactable {
                can_interact: false,
                interaction_type: InteractionType::Item,
                item: Some(Item { id: String::from_str("Gumball") }),
                puzzle: None,
                person: None,
                door: None,
            }
        } else if str_eq(identifier, "Vendor") {
            Interactable {
                can_interact: false,
                interaction_type: InteractionType::Item,
                item: Some(Item::default()),
                puzzle: None,
                person: None,
                door: None,
            }
        } else {
            Interactable::default()
        }
    }
}

/// Spawn record of a non-player character: starts with an empty
/// conversation.
#[derive(Clone, Debug)]
pub struct NpcBundle {
    pub interactable: Interactable,
}

impl Default for NpcBundle {
    fn default() -> (new: Self)
        ensures
            new.interactable.wf(),
            new.interactable.can_interact == false,
            new.interactable.interaction_type == InteractionType::Person,
            new.interactable.person matches Some(p) && p.0@.len() == 0,
    {
        NpcBundle {
            interactable: Interactable {
                can_interact: false,
                interaction_type: InteractionType::Person,
                item: None,
                puzzle: None,
                person: Some(Person::default()),
                door: None,
            },
        }
    }
}

/// Spawn record of a pickupable object: starts with the placeholder item.
#[derive(Clone, Debug)]
pub struct InteractableObject {
    pub interactable: Interactable,
}

impl Default for InteractableObject {
    fn default() -> (new: Self)
        ensures
            new.interactable.wf(),
            new.interactable.can_interact == false,
            new.interactable.interaction_type == InteractionType::Item,
            new.interactable.item matches Some(item) && item.id@ == Seq::<char>::empty(),
    {
        InteractableObject {
            interactable: Interactable {
                can_interact: false,
                interaction_type: InteractionType::Item,
                item: Some(Item::default()),
                puzzle: None,
                person: None,
                door: None,
            },
        }
    }
}

/// Spawn record of a door: starts closed, reusable, without requirements.
#[derive(Clone, Debug)]
pub struct DoorObject {
    pub interactable: Interactable,
}

impl Default for DoorObject {
    fn default() -> (new: Self)
        ensures
            new.interactable.wf(),
            new.interactable.can_interact == false,
            new.interactable.interaction_type == InteractionType::Door,
            new.interactable.door matches Some(door) && door.requirements is None
                && door.reusable && door.closed,
    {
        DoorObject { interactable: Interactable::default() }
    }
}

} // verus!

