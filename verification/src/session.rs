//! The game session: the state that persists across ticks, the setup
//! transitions, and the fixed per-tick system pipeline.
//!
//! The pipeline preserves the ordering the design relies on: movement
//! completes before the camera follows, detection completes before the
//! trigger stage reads the proximity flags, and the trigger stage's events
//! are fanned out and resolved within the same tick.  The `tick_*` spec
//! functions state the whole pipeline as one transition of the session, so
//! `tick`'s contract fixes the new state and the raised events outright.

use vstd::prelude::*;

use crate::components_events::{
    ActionState, ArmVec, BodyPart, BodyPartEntity, DoorInteraction, InteractableEntity,
    InteractionType, InteractionWrapper, ItemInteraction, MouseState, PersonInteraction,
    PlayerParentBundle, Player, PuzzleInteraction, Vec2, COORD_LIMIT,
};
use crate::movement::{
    arm_vec_after, camera_follow, camera_target, cycle_part, cycled_camera, cycled_index,
    detach_fires, detach_part, detach_spawn, last_tagged, lemma_first_tagged_is_member,
    moved_parts, parts_in_world, player_movement,
};
use crate::systems::{
    apply_door_events, broadcast_interactions, detect_interactables, door_interaction,
    door_state_for, ids_of_type, in_proximity, interact, item_interaction, opened_ids,
    pickup_all, spec_interact, with_flag,
};
use crate::GameState;

verus! {

/// Everything a running game owns: the phase, the player-owned aggregates,
/// the body-part and interactable entities, and the camera target.
pub struct Session {
    pub state: GameState,
    pub player_parent: PlayerParentBundle,
    pub parts: Vec<BodyPartEntity>,
    pub interactables: Vec<InteractableEntity>,
    pub camera: Vec2,
}

/// The transient events of one tick, in the order they were produced.
/// They live for this tick only; the caller observes them and lets them
/// go.
pub struct TickEvents {
    pub wrappers: Vec<InteractionWrapper>,
    pub item_events: Vec<ItemInteraction>,
    pub puzzle_events: Vec<PuzzleInteraction>,
    pub person_events: Vec<PersonInteraction>,
    pub door_events: Vec<DoorInteraction>,
    pub opened_doors: Vec<u64>,
}

/// The part entities once movement has resolved, before any detachment.
pub open spec fn tick_moved_parts(s: Session, actions: ActionState, mouse: MouseState) -> Seq<
    BodyPartEntity,
> {
    moved_parts(
        s.parts@,
        s.player_parent.player,
        s.player_parent.body_parts.current_part,
        actions.held,
        mouse,
        s.player_parent.arm_vec.0,
    )
}

/// The cursor once the cycling inputs have been applied.
pub open spec fn tick_cycled_index(s: Session, actions: ActionState) -> int {
    cycled_index(
        s.player_parent.body_parts.index as int,
        s.player_parent.body_parts.body_parts@.len() as int,
        actions.fresh,
    )
}

/// The active part once the cycling inputs have been applied.
pub open spec fn tick_cycled_current(s: Session, actions: ActionState) -> BodyPart {
    s.player_parent.body_parts.body_parts@[tick_cycled_index(s, actions)]
}

/// Whether this tick detaches a limb: the detach input fires against the
/// post-cycling active part and the post-movement entities.
pub open spec fn tick_detaches(s: Session, actions: ActionState, mouse: MouseState) -> bool {
    detach_fires(
        actions.fresh,
        tick_cycled_current(s, actions),
        tick_moved_parts(s, actions, mouse),
    )
}

/// The part entities at the end of the tick: moved, plus the freshly
/// detached limb when the detach transition fires.
pub open spec fn tick_parts(s: Session, actions: ActionState, mouse: MouseState) -> Seq<
    BodyPartEntity,
> {
    if tick_detaches(s, actions, mouse) {
        tick_moved_parts(s, actions, mouse).push(
            BodyPartEntity {
                part: BodyPart::LeftArm,
                transform: detach_spawn(tick_moved_parts(s, actions, mouse)),
            },
        )
    } else {
        tick_moved_parts(s, actions, mouse)
    }
}

/// The cycle list at the end of the tick.
pub open spec fn tick_body_list(s: Session, actions: ActionState, mouse: MouseState) -> Seq<
    BodyPart,
> {
    if tick_detaches(s, actions, mouse) {
        s.player_parent.body_parts.body_parts@.push(BodyPart::LeftArm)
    } else {
        s.player_parent.body_parts.body_parts@
    }
}

/// The cursor at the end of the tick: the new tail after a detachment,
/// else the cycled cursor.
pub open spec fn tick_index(s: Session, actions: ActionState, mouse: MouseState) -> int {
    if tick_detaches(s, actions, mouse) {
        s.player_parent.body_parts.body_parts@.len() as int
    } else {
        tick_cycled_index(s, actions)
    }
}

/// The active part at the end of the tick.
pub open spec fn tick_current(s: Session, actions: ActionState, mouse: MouseState) -> BodyPart {
    if tick_detaches(s, actions, mouse) {
        BodyPart::LeftArm
    } else {
        tick_cycled_current(s, actions)
    }
}

/// The camera at the end of the tick: previewed by the cycling steps,
/// snapped to the spawn point by a detachment, and finally recentred on
/// the active part's entity — so the cycling preview's vertical lift never
/// survives to the end of a tick in which such an entity exists.
pub open spec fn tick_camera(s: Session, actions: ActionState, mouse: MouseState) -> Vec2 {
    let after_cycle = cycled_camera(
        s.player_parent.body_parts.body_parts@,
        s.player_parent.body_parts.index as int,
        actions.fresh,
        tick_moved_parts(s, actions, mouse),
        s.camera,
    );
    let after_detach = if tick_detaches(s, actions, mouse) {
        detach_spawn(tick_moved_parts(s, actions, mouse))
    } else {
        after_cycle
    };
    camera_target(
        tick_parts(s, actions, mouse),
        tick_current(s, actions, mouse),
        0,
        after_detach,
    )
}

/// The interactable entities once the proximity scan has reflagged them
/// against the tick's final active part, or untouched when no entity
/// carries its tag.
pub open spec fn tick_detected(s: Session, actions: ActionState, mouse: MouseState) -> Seq<
    InteractableEntity,
> {
    match last_tagged(tick_parts(s, actions, mouse), tick_current(s, actions, mouse)) {
        Some(t) => Seq::new(
            s.interactables@.len(),
            |i: int|
                with_flag(s.interactables@[i], in_proximity(t, s.interactables@[i].transform)),
        ),
        None => s.interactables@,
    }
}

/// The wrapper events the trigger stage raises this tick: one per flagged
/// interactable on the interact input's rising edge, none otherwise.
pub open spec fn tick_wrappers(s: Session, actions: ActionState, mouse: MouseState) -> Seq<
    InteractionWrapper,
> {
    if actions.fresh.interact {
        spec_interact(tick_detected(s, actions, mouse))
    } else {
        Seq::empty()
    }
}

impl Session {
    /// Invariant at a tick boundary: the player aggregates are well
    /// formed, and every transform starts the tick inside the per-tick
    /// coordinate bound.
    pub open spec fn wf(self) -> bool {
        &&& self.player_parent.body_parts.wf()
        &&& self.player_parent.body_parts.body_parts@.len() < usize::MAX
        &&& self.player_parent.inventory.wf()
        &&& self.player_parent.arm_vec.0.in_bounds()
        &&& forall|i: int|
            0 <= i < self.parts@.len() ==> (#[trigger] self.parts@[i]).transform.in_bounds()
        &&& forall|i: int|
            0 <= i < self.interactables@.len() ==> (#[trigger] self.interactables@[i])
                .transform.in_bounds()
    }

    /// Begins a session over freshly loaded level entities, in the
    /// `Loading` phase with the player still to be spawned.
    pub fn new(parts: Vec<BodyPartEntity>, interactables: Vec<InteractableEntity>) -> (session:
        Session)
        ensures
            session.state == GameState::Loading,
            session.parts@ == parts@,
            session.interactables@ == interactables@,
            session.camera == (Vec2 { x: 0, y: 0 }),
            session.player_parent.player == Player::Moving,
            session.player_parent.body_parts.body_parts@ == seq![BodyPart::Body],
            session.player_parent.body_parts.index == 0,
            session.player_parent.body_parts.current_part == BodyPart::Body,
            session.player_parent.arm_vec == (ArmVec(Vec2 { x: 0, y: 0 })),
            session.player_parent.body_parts.wf(),
            session.player_parent.inventory.wf(),
            forall|i: int|
                0 <= i < session.player_parent.inventory.0@.len()
                    ==> session.player_parent.inventory.0@[i] is None,
    {
        Session {
            state: GameState::Loading,
            player_parent: PlayerParentBundle::default(),
            parts,
            interactables,
            camera: Vec2 { x: 0, y: 0 },
        }
    }

    /// Once the level's body part has appeared, the player aggregate is
    /// spawned fresh — mode `Moving`, empty inventory, the cycle list
    /// exactly the body with the cursor at its start, no drag recorded —
    /// and the session moves on to the `Setup` phase.
    pub fn add_player_parent(&mut self)
        ensures
            final(self).state == GameState::Setup,
            final(self).player_parent.player == Player::Moving,
            final(self).player_parent.body_parts.body_parts@ == seq![BodyPart::Body],
            final(self).player_parent.body_parts.index == 0,
            final(self).player_parent.body_parts.current_part == BodyPart::Body,
            final(self).player_parent.arm_vec == (ArmVec(Vec2 { x: 0, y: 0 })),
            final(self).player_parent.body_parts.wf(),
            final(self).player_parent.inventory.wf(),
            forall|i: int|
                0 <= i < final(self).player_parent.inventory.0@.len()
                    ==> final(self).player_parent.inventory.0@[i] is None,
            final(self).parts@ == old(self).parts@,
            final(self).interactables@ == old(self).interactables@,
            final(self).camera == old(self).camera,
    {
        self.player_parent = PlayerParentBundle::default();
        self.state = GameState::Setup;
    }

    /// Places the camera over the first body-part entity, if one exists.
    pub fn camera_setup(&mut self)
        ensures
            final(self).state == old(self).state,
            final(self).player_parent == old(self).player_parent,
            final(self).parts@ == old(self).parts@,
            final(self).interactables@ == old(self).interactables@,
            old(self).parts@.len() > 0 ==> *final(self) == (Session {
                camera: old(self).parts@[0].transform,
                ..*old(self)
            }),
            old(self).parts@.len() == 0 ==> *final(self) == *old(self),
    {
        if self.parts.len() > 0 {
            self.camera = self.parts[0].transform;
        }
    }

    /// With the hotkeys bound, setup is complete and the session starts
    /// running.
    pub fn hotkey_setup(&mut self)
        ensures
            *final(self) == (Session { state: GameState::Running, ..*old(self) }),
    {
        self.state = GameState::Running;
    }

    /// Runs one tick of the gameplay pipeline, in the fixed order the
    /// design relies on: movement, cycling, detachment, camera follow,
    /// proximity detection, the interaction trigger, the typed broadcast,
    /// then item and door resolution.  Camera follow is the last spatial
    /// stage, so whenever an entity carries the active tag it overrides
    /// the cycling preview and the detachment snap within the same tick.
    /// Outside the `Running` phase nothing runs and nothing changes.
    pub fn tick(&mut self, actions: &ActionState, mouse: &MouseState) -> (events: TickEvents)
        requires
            old(self).wf(),
            mouse.cursor.in_bounds(),
        ensures
            final(self).state == old(self).state,
            old(self).state != GameState::Running ==> *final(self) == *old(self)
                && events.wrappers@.len() == 0 && events.item_events@.len() == 0
                && events.puzzle_events@.len() == 0 && events.person_events@.len() == 0
                && events.door_events@.len() == 0 && events.opened_doors@.len() == 0,
            final(self).player_parent.player == old(self).player_parent.player,
            final(self).player_parent.body_parts.wf(),
            final(self).player_parent.inventory.wf(),
            final(self).player_parent.inventory.0@ == pickup_all(
                old(self).player_parent.inventory.0@,
                events.item_events@,
            ),
            forall|j: int|
                0 <= j < old(self).player_parent.inventory.0@.len()
                    && old(self).player_parent.inventory.0@[j] is Some
                    ==> final(self).player_parent.inventory.0@[j]
                        == old(self).player_parent.inventory.0@[j],
            events.opened_doors@ == opened_ids(
                events.door_events@,
                final(self).player_parent.inventory.0@,
            ),
            old(self).parts@.len() <= final(self).parts@.len() <= old(self).parts@.len() + 1,
            final(self).interactables@.len() == old(self).interactables@.len(),
            old(self).state == GameState::Running ==> ({
                let s = *old(self);
                &&& final(self).parts@ == tick_parts(s, *actions, *mouse)
                &&& final(self).player_parent.body_parts.body_parts@ == tick_body_list(
                    s,
                    *actions,
                    *mouse,
                )
                &&& final(self).player_parent.body_parts.index as int == tick_index(
                    s,
                    *actions,
                    *mouse,
                )
                &&& final(self).player_parent.body_parts.current_part == tick_current(
                    s,
                    *actions,
                    *mouse,
                )
                &&& final(self).player_parent.arm_vec == arm_vec_after(
                    s.player_parent.arm_vec,
                    s.player_parent.player,
                    s.player_parent.body_parts.current_part,
                    *mouse,
                )
                &&& final(self).camera == tick_camera(s, *actions, *mouse)
                &&& events.wrappers@ == tick_wrappers(s, *actions, *mouse)
                &&& events.item_events@.len() == ids_of_type(
                    tick_wrappers(s, *actions, *mouse),
                    InteractionType::Item,
                ).len()
                &&& forall|k: int|
                    0 <= k < events.item_events@.len() ==> (#[trigger] events.item_events@[k])
                        .0.id@ == Seq::<char>::empty()
                &&& events.puzzle_events@.len() == ids_of_type(
                    tick_wrappers(s, *actions, *mouse),
                    InteractionType::Puzzle,
                ).len()
                &&& events.person_events@.len() == ids_of_type(
                    tick_wrappers(s, *actions, *mouse),
                    InteractionType::Person,
                ).len()
                &&& forall|k: int|
                    0 <= k < events.person_events@.len() ==> (#[trigger] events.person_events@[k])
                        .0.0@.len() == 0 && events.person_events@[k].1 == (0usize, 0usize)
                &&& events.door_events@.len() == ids_of_type(
                    tick_wrappers(s, *actions, *mouse),
                    InteractionType::Door,
                ).len()
                &&& forall|k: int|
                    0 <= k < events.door_events@.len() ==> (#[trigger] events.door_events@[k]).1
                        == ids_of_type(
                        tick_wrappers(s, *actions, *mouse),
                        InteractionType::Door,
                    )[k] && (events.door_events@[k].0.reqs(), events.door_events@[k].0.reusable,
                    events.door_events@[k].0.closed) == door_state_for(
                        tick_detected(s, *actions, *mouse),
                        ids_of_type(tick_wrappers(s, *actions, *mouse), InteractionType::Door)[k],
                    )
                &&& final(self).interactables@ == apply_door_events(
                    tick_detected(s, *actions, *mouse),
                    events.door_events@,
                    final(self).player_parent.inventory.0@,
                )
            }),
    {
        if !(self.state == GameState::Running) {
            let events = TickEvents {
                wrappers: Vec::new(),
                item_events: Vec::new(),
                puzzle_events: Vec::new(),
                person_events: Vec::new(),
                door_events: Vec::new(),
                opened_doors: Vec::new(),
            };
            proof {
                assert(pickup_all(self.player_parent.inventory.0@, Seq::empty())
                    == self.player_parent.inventory.0@);
                assert(opened_ids(Seq::empty(), self.player_parent.inventory.0@) =~= Seq::<
                    u64,
                >::empty());
            }
            return events;
        }

        let ghost s0 = *old(self);

        proof {
            assert forall|i: int|
                0 <= i < self.parts@.len() implies (#[trigger] self.parts@[i])
                .transform.in_world() by {
                assert(old(self).parts@[i].transform.in_bounds());
            }
            assert forall|i: int|
                0 <= i < self.interactables@.len() implies (#[trigger] self.interactables@[i])
                .transform.in_world() by {
                assert(old(self).interactables@[i].transform.in_bounds());
            }
            assert(old(self).player_parent.arm_vec.0.in_bounds());
        }

        player_movement(
            &self.player_parent.player,
            &self.player_parent.body_parts,
            &mut self.parts,
            &mut self.player_parent.arm_vec,
            actions,
            mouse,
        );
        let ghost moved = self.parts@;
        proof {
            assert(moved == tick_moved_parts(s0, *actions, *mouse));
            // one tick of movement keeps every transform well inside the
            // computational bound
            assert forall|i: int|
                0 <= i < moved.len() implies -4 * COORD_LIMIT <= (#[trigger] moved[i]).transform.x
                <= 4 * COORD_LIMIT && -4 * COORD_LIMIT <= moved[i].transform.y <= 4
                * COORD_LIMIT by {
                assert(old(self).parts@[i].transform.in_bounds());
            }
            assert(parts_in_world(moved));
        }

        cycle_part(actions, &mut self.player_parent.body_parts, &self.parts, &mut self.camera);
        proof {
            assert(self.player_parent.body_parts.index as int == tick_cycled_index(s0, *actions));
            assert(self.player_parent.body_parts.current_part == tick_cycled_current(
                s0,
                *actions,
            ));
        }
        let ghost after_cycle_camera = self.camera;

        detach_part(actions, &mut self.player_parent.body_parts, &mut self.parts, &mut self.camera);
        proof {
            assert(self.parts@ == tick_parts(s0, *actions, *mouse));
            assert(self.player_parent.body_parts.body_parts@ == tick_body_list(
                s0,
                *actions,
                *mouse,
            ));
            assert(self.player_parent.body_parts.index as int == tick_index(s0, *actions, *mouse));
            assert(self.player_parent.body_parts.current_part == tick_current(
                s0,
                *actions,
                *mouse,
            ));
            lemma_first_tagged_is_member(moved, BodyPart::Body);
            assert forall|i: int|
                0 <= i < self.parts@.len() implies (#[trigger] self.parts@[i])
                .transform.in_world() by {
                if i < moved.len() {
                    assert(self.parts@[i] == moved[i]);
                }
            }
        }

        camera_follow(&self.player_parent.body_parts, &self.parts, &mut self.camera);
        proof {
            assert(self.camera == tick_camera(s0, *actions, *mouse));
        }

        detect_interactables(&mut self.interactables, &self.parts, &self.player_parent.body_parts);
        proof {
            assert(self.interactables@ =~= tick_detected(s0, *actions, *mouse));
        }

        let wrappers = interact(&self.interactables, actions);
        proof {
            assert(wrappers@ == tick_wrappers(s0, *actions, *mouse));
        }

        let (item_events, puzzle_events, person_events, door_events) = broadcast_interactions(
            &wrappers,
            &self.interactables,
        );

        item_interaction(&item_events, &mut self.player_parent.inventory);

        let ghost pre_door = self.interactables@;
        let opened_doors = door_interaction(
            &door_events,
            &self.player_parent.inventory,
            &mut self.interactables,
        );
        proof {
            crate::systems::lemma_apply_door_events_len(
                pre_door,
                door_events@,
                self.player_parent.inventory.0@,
            );
        }

        TickEvents {
            wrappers,
            item_events,
            puzzle_events,
            person_events,
            door_events,
            opened_doors,
        }
    }
}

} // verus!
