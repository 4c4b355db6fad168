//! Construction of components from level data, settings translation, and
//! the session life cycle.

use project_bones::components_events::{
    ActionFlags, ActionState, Action, ArmVec, BodyPart, BodyPartEntity, BodyParts, Door,
    DoorObject, Interactable, InteractableEntity, InteractableObject, InteractionType, Inventory,
    Item, MouseState, NpcBundle, Person, Player, PlayerParentBundle, Vec2,
};
use project_bones::session::Session;
use project_bones::settings::string_to_action;
use project_bones::GameState;

fn no_flags() -> ActionFlags {
    ActionFlags {
        up: false,
        down: false,
        left: false,
        right: false,
        interact: false,
        cycle_forward: false,
        cycle_backward: false,
        unused: false,
        split: false,
    }
}

fn idle() -> ActionState {
    ActionState { held: no_flags(), fresh: no_flags() }
}

fn still_mouse() -> MouseState {
    MouseState {
        left_just_pressed: false,
        left_just_released: false,
        cursor: Vec2 { x: 0, y: 0 },
    }
}

#[test]
fn defaults_match_the_design() {
    assert_eq!(Player::default(), Player::Moving);
    assert_eq!(BodyPart::default(), BodyPart::Body);

    let bp = BodyParts::default();
    assert_eq!(bp.body_parts, vec![BodyPart::Body]);
    assert_eq!(bp.index, 0);
    assert_eq!(bp.current_part, BodyPart::Body);

    let inv = Inventory::default();
    assert_eq!(inv.0.len(), 8);
    assert!(inv.0.iter().all(|slot| slot.is_none()));

    assert_eq!(ArmVec::default().0, Vec2 { x: 0, y: 0 });
    assert_eq!(Item::default().id, "");

    let door = Door::default();
    assert_eq!(door.requirements, None);
    assert!(door.reusable);
    assert!(door.closed);

    assert!(matches!(InteractionType::default(), InteractionType::Door));

    let fallback = Interactable::default();
    assert!(!fallback.can_interact);
    assert!(matches!(fallback.interaction_type, InteractionType::Door));
    assert!(fallback.door.is_some());
    assert!(fallback.item.is_none());

    assert!(Person::default().0.is_empty());
}

#[test]
fn bundles_carry_their_payload_kind() {
    let npc = NpcBundle::default();
    assert!(matches!(npc.interactable.interaction_type, InteractionType::Person));
    assert!(npc.interactable.person.as_ref().unwrap().0.is_empty());

    let object = InteractableObject::default();
    assert!(matches!(object.interactable.interaction_type, InteractionType::Item));
    assert_eq!(object.interactable.item.as_ref().unwrap().id, "");

    let door = DoorObject::default();
    assert!(matches!(door.interactable.interaction_type, InteractionType::Door));
    assert!(door.interactable.door.as_ref().unwrap().closed);
}

#[test]
fn level_identifiers_choose_the_interactable() {
    let npc = Interactable::from_identifier("NPC_spawn");
    assert!(matches!(npc.interaction_type, InteractionType::Person));
    assert!(npc.person.is_some());
    assert!(npc.item.is_none());

    let gum = Interactable::from_identifier("Gum_Machine");
    assert!(matches!(gum.interaction_type, InteractionType::Item));
    assert_eq!(gum.item.as_ref().unwrap().id, "Gumball");

    let vendor = Interactable::from_identifier("Vendor");
    assert!(matches!(vendor.interaction_type, InteractionType::Item));
    assert_eq!(vendor.item.as_ref().unwrap().id, "");

    let unknown = Interactable::from_identifier("Coffee_Table");
    assert!(matches!(unknown.interaction_type, InteractionType::Door));
    assert!(unknown.door.is_some());
}

#[test]
fn action_names_map_to_logical_actions() {
    assert_eq!(string_to_action("Up"), Action::Up);
    assert_eq!(string_to_action("Down"), Action::Down);
    assert_eq!(string_to_action("Left"), Action::Left);
    assert_eq!(string_to_action("Right"), Action::Right);
    assert_eq!(string_to_action("Split"), Action::Split);
    assert_eq!(string_to_action("Interact"), Action::Interact);
    assert_eq!(string_to_action("CycleForward"), Action::CycleForward);
    assert_eq!(string_to_action("CycleBackward"), Action::CycleBackward);
    assert_eq!(string_to_action("Jump"), Action::Unused);
}

#[test]
fn player_parent_bundle_defaults_are_fresh() {
    let bundle = PlayerParentBundle::default();
    assert_eq!(bundle.player, Player::Moving);
    assert!(bundle.inventory.0.iter().all(|slot| slot.is_none()));
    assert_eq!(bundle.body_parts.body_parts, vec![BodyPart::Body]);
    assert_eq!(bundle.arm_vec.0, Vec2 { x: 0, y: 0 });
}

#[test]
fn session_setup_walks_the_phases() {
    let mut parts: Vec<BodyPartEntity> = Vec::new();
    parts.push(BodyPartEntity { part: BodyPart::Body, transform: Vec2 { x: 40, y: 60 } });
    let mut session = Session::new(parts, Vec::new());
    assert_eq!(session.state, GameState::Loading);

    session.add_player_parent();
    assert_eq!(session.state, GameState::Setup);
    assert_eq!(session.player_parent.player, Player::Moving);
    assert_eq!(session.player_parent.body_parts.body_parts, vec![BodyPart::Body]);
    assert_eq!(session.player_parent.body_parts.index, 0);
    assert_eq!(session.player_parent.body_parts.current_part, BodyPart::Body);
    assert_eq!(session.player_parent.arm_vec, ArmVec(Vec2 { x: 0, y: 0 }));
    assert!(session.player_parent.inventory.0.iter().all(|slot| slot.is_none()));

    session.camera_setup();
    assert_eq!(session.camera, Vec2 { x: 40, y: 60 });

    session.hotkey_setup();
    assert_eq!(session.state, GameState::Running);
}

#[test]
fn tick_outside_running_changes_nothing() {
    let mut parts: Vec<BodyPartEntity> = Vec::new();
    parts.push(BodyPartEntity { part: BodyPart::Body, transform: Vec2 { x: 0, y: 0 } });
    let mut session = Session::new(parts, Vec::new());

    let mut actions = idle();
    actions.held.up = true;
    let events = session.tick(&actions, &still_mouse());

    assert_eq!(session.state, GameState::Loading);
    assert_eq!(session.parts[0].transform, Vec2 { x: 0, y: 0 });
    assert!(events.wrappers.is_empty());
    assert!(events.opened_doors.is_empty());
}

#[test]
fn paused_tick_changes_nothing() {
    let mut parts: Vec<BodyPartEntity> = Vec::new();
    parts.push(BodyPartEntity { part: BodyPart::Body, transform: Vec2 { x: 3, y: 4 } });
    let mut session = Session::new(parts, Vec::new());
    session.add_player_parent();
    session.hotkey_setup();
    session.state = GameState::Pause;

    let mut actions = idle();
    actions.held.up = true;
    actions.fresh.split = true;
    let events = session.tick(&actions, &still_mouse());

    assert_eq!(session.state, GameState::Pause);
    assert_eq!(session.parts.len(), 1);
    assert_eq!(session.parts[0].transform, Vec2 { x: 3, y: 4 });
    assert!(events.door_events.is_empty());
}

#[test]
fn running_tick_moves_detects_and_resolves() {
    let mut parts: Vec<BodyPartEntity> = Vec::new();
    parts.push(BodyPartEntity { part: BodyPart::Body, transform: Vec2 { x: 0, y: 0 } });
    let mut interactables: Vec<InteractableEntity> = Vec::new();
    interactables.push(InteractableEntity {
        entity: 1,
        interactable: Interactable {
            can_interact: false,
            interaction_type: InteractionType::Door,
            item: None,
            puzzle: None,
            person: None,
            door: Some(Door { requirements: None, reusable: true, closed: true }),
        },
        transform: Vec2 { x: 0, y: 12 },
    });

    let mut session = Session::new(parts, interactables);
    session.add_player_parent();
    session.camera_setup();
    session.hotkey_setup();

    // walk up towards the door and interact in the same tick
    let mut actions = idle();
    actions.held.up = true;
    actions.fresh.interact = true;
    let events = session.tick(&actions, &still_mouse());

    // movement ran before the camera followed
    assert_eq!(session.parts[0].transform, Vec2 { x: 0, y: 2 });
    assert_eq!(session.camera, Vec2 { x: 0, y: 2 });
    // detection ran before the trigger stage read the flags
    assert!(session.interactables[0].interactable.can_interact);
    assert_eq!(events.wrappers.len(), 1);
    assert_eq!(events.door_events.len(), 1);
    assert_eq!(events.opened_doors, vec![1]);
}

#[test]
fn running_tick_detaches_and_snaps_camera() {
    let mut parts: Vec<BodyPartEntity> = Vec::new();
    parts.push(BodyPartEntity { part: BodyPart::Body, transform: Vec2 { x: 10, y: 10 } });
    let mut session = Session::new(parts, Vec::new());
    session.add_player_parent();
    session.camera_setup();
    session.hotkey_setup();

    let mut actions = idle();
    actions.fresh.split = true;
    session.tick(&actions, &still_mouse());

    assert_eq!(session.player_parent.body_parts.body_parts, vec![
        BodyPart::Body,
        BodyPart::LeftArm,
    ]);
    assert_eq!(session.player_parent.body_parts.current_part, BodyPart::LeftArm);
    assert_eq!(session.parts.len(), 2);
    assert_eq!(session.parts[1].transform, Vec2 { x: -10, y: -10 });
    // the camera follow stage then recentres on the new active part
    assert_eq!(session.camera, Vec2 { x: -10, y: -10 });
}
