//! Movement resolution, camera tracking, and the body-part cycling and
//! detachment transitions.
//!
//! The systems here run once per tick while the game is running.  They read
//! the abstracted input state and mutate the body-part transforms, the
//! player's body-part cursor, and the camera target; the engine shell
//! applies those transforms to the screen.

use vstd::prelude::*;

use crate::components_events::{
    Action, ActionFlags, ActionState, ArmVec, BodyPart, BodyPartEntity, BodyParts, MouseState,
    Player, Vec2, COORD_LIMIT, WORLD_LIMIT,
};

verus! {

use vstd::arithmetic::div_mod::{lemma_add_mod_noop, lemma_mod_self_0};

/// Units moved per tick per held direction while the body is active.
pub const MOVE_SPEED: i64 = 2;

/// Scale applied to the arm-aim drag delta.
pub const ARM_SPEED: i64 = 1;

/// Vertical camera bias applied while cycling, so the camera previews the
/// selected part from above.
pub const CYCLE_CAMERA_LIFT: i64 = 680;

/// Offset from the body at which a freshly detached part spawns, on both
/// axes.
pub const DETACH_OFFSET: i64 = 20;

/// Horizontal displacement of the body for one tick of held input.
pub open spec fn body_delta_x(held: ActionFlags) -> int {
    (if held.right {
        MOVE_SPEED as int
    } else {
        0
    }) - (if held.left {
        MOVE_SPEED as int
    } else {
        0
    })
}

/// Vertical displacement of the body for one tick of held input.
pub open spec fn body_delta_y(held: ActionFlags) -> int {
    (if held.up {
        MOVE_SPEED as int
    } else {
        0
    }) - (if held.down {
        MOVE_SPEED as int
    } else {
        0
    })
}

/// The transform of the last entity in `parts` that carries `tag`, if any.
/// The systems that scan the part entities overwrite their target once per
/// matching entity, so the last match is the one that sticks.
pub open spec fn last_tagged(parts: Seq<BodyPartEntity>, tag: BodyPart) -> Option<Vec2>
    decreases parts.len(),
{
    if parts.len() == 0 {
        None
    } else if parts.last().part == tag {
        Some(parts.last().transform)
    } else {
        last_tagged(parts.drop_last(), tag)
    }
}

/// The transform of the first entity in `parts` that carries `tag`, if any.
pub open spec fn first_tagged(parts: Seq<BodyPartEntity>, tag: BodyPart) -> Option<Vec2>
    decreases parts.len(),
{
    if parts.len() == 0 {
        None
    } else if parts[0].part == tag {
        Some(parts[0].transform)
    } else {
        first_tagged(parts.drop_first(), tag)
    }
}

/// A transform found by `first_tagged` belongs to one of the scanned
/// entities.
pub proof fn lemma_first_tagged_is_member(parts: Seq<BodyPartEntity>, tag: BodyPart)
    ensures
        first_tagged(parts, tag) matches Some(t) ==> exists|i: int|
            0 <= i < parts.len() && (#[trigger] parts[i]).part == tag && parts[i].transform == t,
    decreases parts.len(),
{
    if parts.len() > 0 && parts[0].part != tag {
        lemma_first_tagged_is_member(parts.drop_first(), tag);
        match first_tagged(parts.drop_first(), tag) {
            Some(t) => {
                let i = choose|i: int|
                    0 <= i < parts.drop_first().len() && (#[trigger] parts.drop_first()[i]).part
                        == tag && parts.drop_first()[i].transform == t;
                assert(parts[i + 1] == parts.drop_first()[i]);
            },
            None => {},
        }
    }
}

/// All part transforms lie within the world bound.
pub open spec fn parts_in_world(parts: Seq<BodyPartEntity>) -> bool {
    forall|i: int| 0 <= i < parts.len() ==> (#[trigger] parts[i]).transform.in_world()
}

/// The part entities after one tick of movement resolution, as a function
/// of the inputs.  Body mode shifts every body-tagged entity by the
/// held-direction deltas; arm mode, on a release of the pointer button,
/// shifts every arm-tagged entity against the drag from the recorded
/// origin (or from the pointer itself when the press lands on the same
/// tick); every other mode moves nothing.
pub open spec fn moved_parts(
    parts: Seq<BodyPartEntity>,
    player: Player,
    current: BodyPart,
    held: ActionFlags,
    mouse: MouseState,
    origin_before: Vec2,
) -> Seq<BodyPartEntity> {
    if player == Player::Moving && current == BodyPart::Body {
        Seq::new(
            parts.len(),
            |i: int|
                if parts[i].part == BodyPart::Body {
                    BodyPartEntity {
                        part: parts[i].part,
                        transform: Vec2 {
                            x: (parts[i].transform.x + body_delta_x(held)) as i64,
                            y: (parts[i].transform.y + body_delta_y(held)) as i64,
                        },
                    }
                } else {
                    parts[i]
                },
        )
    } else if player == Player::Moving && (current == BodyPart::LeftArm || current
        == BodyPart::RightArm) && mouse.left_just_released {
        let origin = if mouse.left_just_pressed {
            mouse.cursor
        } else {
            origin_before
        };
        Seq::new(
            parts.len(),
            |i: int|
                if parts[i].part == BodyPart::LeftArm || parts[i].part == BodyPart::RightArm {
                    BodyPartEntity {
                        part: parts[i].part,
                        transform: Vec2 {
                            x: (parts[i].transform.x - ARM_SPEED * (mouse.cursor.x
                                - origin.x)) as i64,
                            y: (parts[i].transform.y - ARM_SPEED * (mouse.cursor.y
                                - origin.y)) as i64,
                        },
                    }
                } else {
                    parts[i]
                },
        )
    } else {
        parts
    }
}

/// The drag origin after one tick: a press of the pointer button in arm
/// mode records the pointer position; everything else leaves it alone.
pub open spec fn arm_vec_after(
    arm: ArmVec,
    player: Player,
    current: BodyPart,
    mouse: MouseState,
) -> ArmVec {
    if player == Player::Moving && (current == BodyPart::LeftArm || current
        == BodyPart::RightArm) && mouse.left_just_pressed {
        ArmVec(mouse.cursor)
    } else {
        arm
    }
}

/// Per-tick movement of the player.  With the body active, each held
/// direction applies a fixed displacement to every body-tagged entity.
/// With an arm active, a press of the pointer button records the drag
/// origin and a release applies the scaled drag delta to every arm-tagged
/// entity.  In the `Interacting` mode, or with any other part active,
/// nothing moves.
pub fn player_movement(
    player: &Player,
    body: &BodyParts,
    parts: &mut Vec<BodyPartEntity>,
    arm_vec: &mut ArmVec,
    actions: &ActionState,
    mouse: &MouseState,
)
    requires
        parts_in_world(old(parts)@),
        old(arm_vec).0.in_world(),
        mouse.cursor.in_world(),
    ensures
        final(parts)@ == moved_parts(
            old(parts)@,
            *player,
            body.current_part,
            actions.held,
            *mouse,
            old(arm_vec).0,
        ),
        *final(arm_vec) == arm_vec_after(
            *old(arm_vec),
            *player,
            body.current_part,
            *mouse,
        ),
        final(parts)@.len() == old(parts)@.len(),
        forall|i: int|
            0 <= i < old(parts)@.len()
                ==> (#[trigger] final(parts)@[i]).part == old(parts)@[i].part,
        *player == Player::Moving && body.current_part == BodyPart::Body ==> ({
            &&& forall|i: int|
                0 <= i < old(parts)@.len() && old(parts)@[i].part == BodyPart::Body
                    ==> (#[trigger] final(parts)@[i]).transform.x
                        == old(parts)@[i].transform.x + body_delta_x(actions.held)
                    && final(parts)@[i].transform.y
                        == old(parts)@[i].transform.y + body_delta_y(actions.held)
            &&& forall|i: int|
                0 <= i < old(parts)@.len() && old(parts)@[i].part != BodyPart::Body
                    ==> (#[trigger] final(parts)@[i]) == old(parts)@[i]
            &&& *final(arm_vec) == *old(arm_vec)
        }),
        *player == Player::Moving && (body.current_part == BodyPart::LeftArm
            || body.current_part == BodyPart::RightArm) ==> ({
            let origin = if mouse.left_just_pressed {
                mouse.cursor
            } else {
                old(arm_vec).0
            };
            &&& final(arm_vec).0 == origin
            &&& mouse.left_just_released ==> forall|i: int|
                0 <= i < old(parts)@.len() && (old(parts)@[i].part == BodyPart::LeftArm
                    || old(parts)@[i].part == BodyPart::RightArm)
                    ==> (#[trigger] final(parts)@[i]).transform.x
                        == old(parts)@[i].transform.x - ARM_SPEED * (mouse.cursor.x - origin.x)
                    && final(parts)@[i].transform.y
                        == old(parts)@[i].transform.y - ARM_SPEED * (mouse.cursor.y - origin.y)
            &&& mouse.left_just_released ==> forall|i: int|
                0 <= i < old(parts)@.len() && !(old(parts)@[i].part == BodyPart::LeftArm
                    || old(parts)@[i].part == BodyPart::RightArm)
                    ==> (#[trigger] final(parts)@[i]) == old(parts)@[i]
            &&& !mouse.left_just_released ==> final(parts)@ == old(parts)@
        }),
        !(*player == Player::Moving && (body.current_part == BodyPart::Body
            || body.current_part == BodyPart::LeftArm || body.current_part
            == BodyPart::RightArm)) ==> final(parts)@ == old(parts)@ && *final(arm_vec)
            == *old(arm_vec),
{
    let is_moving = *player == Player::Moving;

    // Body movement
    if is_moving && body.current_part == BodyPart::Body {
        let mut dx: i64 = 0;
        let mut dy: i64 = 0;
        if actions.pressed(Action::Up) {
            dy = dy + MOVE_SPEED;
        }
        if actions.pressed(Action::Left) {
            dx = dx - MOVE_SPEED;
        }
        if actions.pressed(Action::Down) {
            dy = dy - MOVE_SPEED;
        }
        if actions.pressed(Action::Right) {
            dx = dx + MOVE_SPEED;
        }
        assert(dx == body_delta_x(actions.held));
        assert(dy == body_delta_y(actions.held));

        let ghost orig = parts@;
        let mut i: usize = 0;
        while i < parts.len()
            invariant
                i <= parts@.len(),
                parts@.len() == orig.len(),
                parts_in_world(orig),
                dx == body_delta_x(actions.held),
                dy == body_delta_y(actions.held),
                -4 <= dx <= 4,
                -4 <= dy <= 4,
                forall|j: int| i <= j < orig.len() ==> (#[trigger] parts@[j]) == orig[j],
                forall|j: int|
                    0 <= j < i && orig[j].part == BodyPart::Body ==> (#[trigger] parts@[j]).part
                        == orig[j].part && parts@[j].transform.x == orig[j].transform.x + dx
                        && parts@[j].transform.y == orig[j].transform.y + dy,
                forall|j: int|
                    0 <= j < i && orig[j].part != BodyPart::Body ==> (#[trigger] parts@[j])
                        == orig[j],
            decreases parts@.len() - i,
        {
            if parts[i].part == BodyPart::Body {
                let t = parts[i].transform;
                parts[i] = BodyPartEntity {
                    part: BodyPart::Body,
                    transform: Vec2 { x: t.x + dx, y: t.y + dy },
                };
            }
            i = i + 1;
        }
    }

    // Arm movement
    if is_moving && (body.current_part == BodyPart::LeftArm || body.current_part
        == BodyPart::RightArm) {
        if mouse.left_just_pressed {
            arm_vec.0 = mouse.cursor;
        }

        if mouse.left_just_released {
            let drag_x = ARM_SPEED * (mouse.cursor.x - arm_vec.0.x);
            let drag_y = ARM_SPEED * (mouse.cursor.y - arm_vec.0.y);

            let ghost orig = parts@;
            let mut i: usize = 0;
            while i < parts.len()
                invariant
                    i <= parts@.len(),
                    parts@.len() == orig.len(),
                    parts_in_world(orig),
                    -2 * WORLD_LIMIT <= drag_x <= 2 * WORLD_LIMIT,
                    -2 * WORLD_LIMIT <= drag_y <= 2 * WORLD_LIMIT,
                    forall|j: int| i <= j < orig.len() ==> (#[trigger] parts@[j]) == orig[j],
                    forall|j: int|
                        0 <= j < i && (orig[j].part == BodyPart::LeftArm || orig[j].part
                            == BodyPart::RightArm) ==> (#[trigger] parts@[j]).part
                            == orig[j].part && parts@[j].transform.x == orig[j].transform.x
                            - drag_x && parts@[j].transform.y == orig[j].transform.y - drag_y,
                    forall|j: int|
                        0 <= j < i && !(orig[j].part == BodyPart::LeftArm || orig[j].part
                            == BodyPart::RightArm) ==> (#[trigger] parts@[j]) == orig[j],
                decreases parts@.len() - i,
            {
                let p = parts[i].part;
                if p == BodyPart::LeftArm || p == BodyPart::RightArm {
                    let t = parts[i].transform;
                    parts[i] = BodyPartEntity {
                        part: p,
                        transform: Vec2 { x: t.x - drag_x, y: t.y - drag_y },
                    };
                }
                i = i + 1;
            }
        }
    }

    proof {
        let m = moved_parts(
            old(parts)@,
            *player,
            body.current_part,
            actions.held,
            *mouse,
            old(arm_vec).0,
        );
        assert forall|i: int| 0 <= i < parts@.len() implies parts@[i] == m[i] by {
            assert(old(parts)@[i].transform.in_world());
        }
        assert(parts@ =~= m);
    }
}

/// Where the camera ends up after scanning `parts` for `tag` with a
/// vertical `lift`: over the last matching part, or wherever it already was
/// if nothing matches.
pub open spec fn camera_target(
    parts: Seq<BodyPartEntity>,
    tag: BodyPart,
    lift: int,
    fallback: Vec2,
) -> Vec2 {
    match last_tagged(parts, tag) {
        Some(t) => Vec2 { x: t.x, y: (t.y + lift) as i64 },
        None => fallback,
    }
}

/// Scans the part entities and recentres the camera on the last one tagged
/// `tag`, `lift` units above it.  Leaves the camera alone when no entity
/// carries the tag.
fn retarget_camera(parts: &Vec<BodyPartEntity>, tag: BodyPart, lift: i64, camera: &mut Vec2)
    requires
        parts_in_world(parts@),
        0 <= lift <= COORD_LIMIT,
    ensures
        *final(camera) == camera_target(parts@, tag, lift as int, *old(camera)),
{
    let ghost all = parts@;
    let mut i: usize = 0;
    while i < parts.len()
        invariant
            i <= all.len(),
            parts@ == all,
            parts_in_world(all),
            0 <= lift <= COORD_LIMIT,
            *camera == camera_target(all.take(i as int), tag, lift as int, *old(camera)),
        decreases all.len() - i,
    {
        proof {
            assert(all.take(i + 1).drop_last() =~= all.take(i as int));
            assert(all.take(i + 1).last() == all[i as int]);
        }
        let p = parts[i];
        if p.part == tag {
            *camera = Vec2 { x: p.transform.x, y: p.transform.y + lift };
        }
        i = i + 1;
    }
    proof {
        assert(all.take(all.len() as int) =~= all);
    }
}

/// Recentres the camera on the transform of the entity whose tag is the
/// player's current part.  Runs after movement in the same tick, so it
/// reads the freshly updated transforms.
pub fn camera_follow(player: &BodyParts, parts: &Vec<BodyPartEntity>, camera: &mut Vec2)
    requires
        parts_in_world(parts@),
    ensures
        *final(camera) == camera_target(parts@, player.current_part, 0, *old(camera)),
{
    retarget_camera(parts, player.current_part, 0, camera);
}

/// The cursor one step forward: past the last index it wraps to the start.
pub open spec fn cycle_forward_index(index: int, len: int) -> int {
    if index + 1 > len - 1 {
        0
    } else {
        index + 1
    }
}

/// The cursor one step backward: below the first index it wraps to the
/// end.
pub open spec fn cycle_backward_index(index: int, len: int) -> int {
    if index - 1 < 0 {
        len - 1
    } else {
        index - 1
    }
}

/// The cursor after one tick of cycling input: a step forward on the
/// forward input's rising edge, then a step backward on the backward
/// input's rising edge.
pub open spec fn cycled_index(index: int, len: int, fresh: ActionFlags) -> int {
    let mid = if fresh.cycle_forward {
        cycle_forward_index(index, len)
    } else {
        index
    };
    if fresh.cycle_backward {
        cycle_backward_index(mid, len)
    } else {
        mid
    }
}

/// The camera after one tick of cycling input: each step that fires
/// retargets the camera onto the part selected by that step, lifted by
/// `CYCLE_CAMERA_LIFT`.
pub open spec fn cycled_camera(
    list: Seq<BodyPart>,
    index: int,
    fresh: ActionFlags,
    parts: Seq<BodyPartEntity>,
    cam: Vec2,
) -> Vec2 {
    let len = list.len() as int;
    let mid = if fresh.cycle_forward {
        cycle_forward_index(index, len)
    } else {
        index
    };
    let cam_mid = if fresh.cycle_forward {
        camera_target(parts, list[mid], CYCLE_CAMERA_LIFT as int, cam)
    } else {
        cam
    };
    let end = if fresh.cycle_backward {
        cycle_backward_index(mid, len)
    } else {
        mid
    };
    if fresh.cycle_backward {
        camera_target(parts, list[end], CYCLE_CAMERA_LIFT as int, cam_mid)
    } else {
        cam_mid
    }
}

/// Advances the body-part cursor on the cycling inputs' rising edges and
/// previews the newly selected part with the camera, lifted by
/// `CYCLE_CAMERA_LIFT`.  A forward and a backward step can both fire on
/// the same tick, in that order.
pub fn cycle_part(
    actions: &ActionState,
    player: &mut BodyParts,
    parts: &Vec<BodyPartEntity>,
    camera: &mut Vec2,
)
    requires
        old(player).wf(),
        parts_in_world(parts@),
    ensures
        final(player).wf(),
        final(player).body_parts@ == old(player).body_parts@,
        final(player).index == cycled_index(
            old(player).index as int,
            old(player).body_parts@.len() as int,
            actions.fresh,
        ),
        final(player).current_part == old(player).body_parts@[final(player).index as int],
        *final(camera) == cycled_camera(
            old(player).body_parts@,
            old(player).index as int,
            actions.fresh,
            parts@,
            *old(camera),
        ),
{
    let max_size = player.body_parts.len() - 1;

    if actions.just_pressed(Action::CycleForward) {
        if player.index + 1 > max_size {
            player.index = 0;
        } else {
            player.index = player.index + 1;
        }
        player.current_part = player.body_parts[player.index];

        retarget_camera(parts, player.current_part, CYCLE_CAMERA_LIFT, camera);
    }

    if actions.just_pressed(Action::CycleBackward) {
        if player.index == 0 {
            player.index = max_size;
        } else {
            player.index = player.index - 1;
        }
        player.current_part = player.body_parts[player.index];

        retarget_camera(parts, player.current_part, CYCLE_CAMERA_LIFT, camera);
    }
}

/// Splits a new limb off the body on the detach input's rising edge: a new
/// physics-enabled entity tagged `LeftArm` spawns at a fixed offset from
/// the body's position, the cycle list grows by that tag, the cursor jumps
/// to the new tail, and the camera snaps to the spawn point.  Only legal
/// while the body itself is the active part; the rising-edge guard keeps a
/// held key from firing every tick.
/// Whether the detach transition fires: the detach input's rising edge,
/// with the body as the active part and a body-tagged entity to split
/// from.
pub open spec fn detach_fires(
    fresh: ActionFlags,
    current: BodyPart,
    parts: Seq<BodyPartEntity>,
) -> bool {
    fresh.split && current == BodyPart::Body && first_tagged(parts, BodyPart::Body) is Some
}

/// Where a detached limb spawns: a fixed offset below and left of the
/// body entity's position.
pub open spec fn detach_spawn(parts: Seq<BodyPartEntity>) -> Vec2 {
    let t = first_tagged(parts, BodyPart::Body).unwrap();
    Vec2 { x: (t.x - DETACH_OFFSET) as i64, y: (t.y - DETACH_OFFSET) as i64 }
}

pub fn detach_part(
    actions: &ActionState,
    parent: &mut BodyParts,
    parts: &mut Vec<BodyPartEntity>,
    camera: &mut Vec2,
)
    requires
        old(parent).wf(),
        parts_in_world(old(parts)@),
        old(parent).body_parts@.len() < usize::MAX,
    ensures
        final(parent).wf(),
        final(parts)@ == (if detach_fires(actions.fresh, old(parent).current_part, old(parts)@) {
            old(parts)@.push(
                BodyPartEntity { part: BodyPart::LeftArm, transform: detach_spawn(old(parts)@) },
            )
        } else {
            old(parts)@
        }),
        final(parent).body_parts@ == (if detach_fires(
            actions.fresh,
            old(parent).current_part,
            old(parts)@,
        ) {
            old(parent).body_parts@.push(BodyPart::LeftArm)
        } else {
            old(parent).body_parts@
        }),
        final(parent).index as int == (if detach_fires(
            actions.fresh,
            old(parent).current_part,
            old(parts)@,
        ) {
            old(parent).body_parts@.len() as int
        } else {
            old(parent).index as int
        }),
        final(parent).current_part == (if detach_fires(
            actions.fresh,
            old(parent).current_part,
            old(parts)@,
        ) {
            BodyPart::LeftArm
        } else {
            old(parent).current_part
        }),
        *final(camera) == (if detach_fires(actions.fresh, old(parent).current_part, old(parts)@) {
            detach_spawn(old(parts)@)
        } else {
            *old(camera)
        }),
{
    if actions.just_pressed(Action::Split) && parent.current_part == BodyPart::Body {
        let ghost all = parts@;
        let mut i: usize = 0;
        while i < parts.len()
            invariant
                i <= all.len(),
                parts@ == all,
                all == old(parts)@,
                parts_in_world(all),
                *parent == *old(parent),
                *camera == *old(camera),
                parent.wf(),
                parent.body_parts@.len() < usize::MAX,
                actions.fresh.split,
                old(parent).current_part == BodyPart::Body,
                first_tagged(all.take(i as int), BodyPart::Body) is None,
            decreases all.len() - i,
        {
            proof {
                assert(all.take(i + 1).drop_first() =~= all.subrange(1, i + 1));
                lemma_first_tagged_take_step(all, BodyPart::Body, i as int);
            }
            if parts[i].part == BodyPart::Body {
                let t = parts[i].transform;
                let x = t.x - DETACH_OFFSET;
                let y = t.y - DETACH_OFFSET;

                parts.push(
                    BodyPartEntity { part: BodyPart::LeftArm, transform: Vec2 { x, y } },
                );

                parent.body_parts.push(BodyPart::LeftArm);
                parent.current_part = BodyPart::LeftArm;
                parent.index = parent.body_parts.len() - 1;

                camera.x = x;
                camera.y = y;

                proof {
                    lemma_first_tagged_found(all, BodyPart::Body, i as int);
                }
                return ;
            }
            i = i + 1;
        }
        proof {
            assert(all.take(all.len() as int) =~= all);
        }
    }
}

/// The cursor after `n` forward cycling steps.
pub open spec fn iter_cycle_forward(index: int, len: int, n: nat) -> int
    decreases n,
{
    if n == 0 {
        index
    } else {
        cycle_forward_index(iter_cycle_forward(index, len, (n - 1) as nat), len)
    }
}

/// Each forward step advances the cursor by one, modulo the list length.
pub proof fn lemma_iter_cycle_forward_mod(index: int, len: int, n: nat)
    requires
        len >= 1,
        0 <= index < len,
    ensures
        iter_cycle_forward(index, len, n) == (index + n) % len,
        0 <= iter_cycle_forward(index, len, n) < len,
    decreases n,
{
    if n == 0 {
        vstd::arithmetic::div_mod::lemma_small_mod(index as nat, len as nat);
    } else {
        lemma_iter_cycle_forward_mod(index, len, (n - 1) as nat);
        let j = iter_cycle_forward(index, len, (n - 1) as nat);
        assert(j == (index + n - 1) % len);
        lemma_add_mod_noop(index + n - 1, 1, len);
        if j == len - 1 {
            lemma_mod_self_0(len);
            if len == 1 {
                assert((1int) % len == 0);
            } else {
                vstd::arithmetic::div_mod::lemma_small_mod(1nat, len as nat);
            }
            assert((j + 1) % len == 0);
        } else {
            vstd::arithmetic::div_mod::lemma_small_mod(1nat, len as nat);
            vstd::arithmetic::div_mod::lemma_small_mod((j + 1) as nat, len as nat);
        }
    }
}

/// Cycling forward once per entry of the cycle list brings the cursor back
/// to where it started, whatever the starting index: the forward step
/// generates a cycle over the whole list.
pub proof fn lemma_cycle_forward_full_loop(index: int, len: int)
    requires
        len >= 1,
        0 <= index < len,
    ensures
        iter_cycle_forward(index, len, len as nat) == index,
{
    lemma_iter_cycle_forward_mod(index, len, len as nat);
    vstd::arithmetic::div_mod::lemma_mod_multiples_vanish(1, index, len);
    vstd::arithmetic::div_mod::lemma_small_mod(index as nat, len as nat);
}

/// Cycling forward and then backward is an identity on the cursor, and
/// with it on the pair of index and current part: both steps re-read the
/// current part from the unchanged list at the resulting index.
pub proof fn lemma_cycle_forward_backward_identity(player: BodyParts)
    requires
        player.wf(),
    ensures
        ({
            let len = player.body_parts@.len() as int;
            let forward = cycle_forward_index(player.index as int, len);
            &&& cycle_backward_index(forward, len) == player.index as int
            &&& player.body_parts@[cycle_backward_index(forward, len)] == player.current_part
        }),
{
}

/// Stepping `first_tagged` one element at a time: if the prefix of length
/// `i` holds no match and element `i` does not match either, the prefix of
/// length `i + 1` holds none.
proof fn lemma_first_tagged_take_step(parts: Seq<BodyPartEntity>, tag: BodyPart, i: int)
    requires
        0 <= i < parts.len(),
        first_tagged(parts.take(i), tag) is None,
    ensures
        parts[i].part != tag ==> first_tagged(parts.take(i + 1), tag) is None,
        parts[i].part == tag ==> first_tagged(parts.take(i + 1), tag) == Some(
            parts[i].transform,
        ),
    decreases i,
{
    reveal_with_fuel(first_tagged, 3);
    if i == 0 {
        assert(parts.take(1) =~= seq![parts[0]]);
    } else {
        assert(parts.take(i + 1)[0] == parts[0]);
        assert(parts.take(i)[0] == parts[0]);
        if parts[0].part == tag {
        } else {
            assert(parts.take(i + 1).drop_first() =~= parts.drop_first().take(i));
            assert(parts.take(i).drop_first() =~= parts.drop_first().take(i - 1));
            lemma_first_tagged_take_step(parts.drop_first(), tag, i - 1);
            assert(parts.drop_first()[i - 1] == parts[i]);
        }
    }
}

/// When the first `i` elements hold no match and element `i` matches, the
/// first match of the whole sequence is element `i`.
proof fn lemma_first_tagged_found(parts: Seq<BodyPartEntity>, tag: BodyPart, i: int)
    requires
        0 <= i < parts.len(),
        first_tagged(parts.take(i), tag) is None,
        parts[i].part == tag,
    ensures
        first_tagged(parts, tag) == Some(parts[i].transform),
    decreases i,
{
    if i == 0 {
    } else {
        assert(parts.take(i)[0] == parts[0]);
        assert(parts.take(i).drop_first() =~= parts.drop_first().take(i - 1));
        lemma_first_tagged_found(parts.drop_first(), tag, i - 1);
        assert(parts.drop_first()[i - 1] == parts[i]);
    }
}

} // verus!
