//! The interaction pipeline: per-tick proximity detection, the trigger
//! stage that turns flagged interactables into typed events, and the
//! resolution of item pickups and door unlocking against the inventory.

use vstd::prelude::*;

use crate::components_events::{
    Action, ActionState, BodyPart, BodyPartEntity, BodyParts, Door, DoorInteraction, Interactable,
    InteractableEntity, InteractionType, InteractionWrapper, Inventory, Item, ItemInteraction,
    Person, PersonInteraction, Puzzle, PuzzleInteraction, Vec2,
};
use crate::movement::{last_tagged, parts_in_world};

verus! {

/// Greatest distance, in world units, at which an interactable is within
/// reach of the active body part.
pub const INTERACT_RANGE: i64 = 20;

/// Squared Euclidean distance between two points.
pub open spec fn dist_sq(a: Vec2, b: Vec2) -> int {
    (a.x - b.x) * (a.x - b.x) + (a.y - b.y) * (a.y - b.y)
}

/// Whether an interactable at `target` is within reach of the active body
/// part at `part`.  The proximity flag is exactly this predicate of the two
/// positions and the threshold, recomputed fresh every tick: distance at
/// most `INTERACT_RANGE` sets the flag, anything farther clears it.
pub open spec fn in_proximity(part: Vec2, target: Vec2) -> bool {
    dist_sq(part, target) <= INTERACT_RANGE * INTERACT_RANGE
}

/// Squared distance between two in-bounds points, computed without
/// overflow in 128-bit arithmetic.
fn square_dist(a: Vec2, b: Vec2) -> (d: i128)
    requires
        a.in_world(),
        b.in_world(),
    ensures
        d == dist_sq(a, b),
{
    let dx: i128 = (a.x as i128) - (b.x as i128);
    let dy: i128 = (a.y as i128) - (b.y as i128);
    proof {
        assert(0 <= dx * dx <= 0x4000000000000000000000000000000 && 0 <= dy * dy
            <= 0x4000000000000000000000000000000) by (nonlinear_arith)
            requires
                -0x2000000000000000 <= dx <= 0x2000000000000000,
                -0x2000000000000000 <= dy <= 0x2000000000000000,
        ;
    }
    dx * dx + dy * dy
}

/// The entity with `can_interact` replaced by `flag` and everything else
/// as it was.
pub open spec fn with_flag(e: InteractableEntity, flag: bool) -> InteractableEntity {
    InteractableEntity {
        interactable: Interactable { can_interact: flag, ..e.interactable },
        ..e
    }
}

/// The transform of the last part entity tagged with the player's current
/// part, if any: the detector and the camera both overwrite their result
/// once per matching entity, so the last one sticks.
fn active_part_transform(parts: &Vec<BodyPartEntity>, tag: BodyPart) -> (r: Option<Vec2>)
    ensures
        r == last_tagged(parts@, tag),
{
    let ghost all = parts@;
    let mut found: Option<Vec2> = None;
    let mut i: usize = 0;
    while i < parts.len()
        invariant
            i <= all.len(),
            parts@ == all,
            found == last_tagged(all.take(i as int), tag),
        decreases all.len() - i,
    {
        proof {
            assert(all.take(i + 1).drop_last() =~= all.take(i as int));
            assert(all.take(i + 1).last() == all[i as int]);
        }
        let p = parts[i];
        if p.part == tag {
            found = Some(p.transform);
        }
        i = i + 1;
    }
    proof {
        assert(all.take(all.len() as int) =~= all);
    }
    found
}

/// A transform found by `last_tagged` belongs to one of the scanned
/// entities, so it inherits their world bound.
proof fn lemma_last_tagged_in_bounds(parts: Seq<BodyPartEntity>, tag: BodyPart)
    requires
        parts_in_world(parts),
    ensures
        last_tagged(parts, tag) matches Some(t) ==> t.in_world(),
    decreases parts.len(),
{
    if parts.len() > 0 {
        assert(parts.last() == parts[parts.len() - 1]);
        assert(forall|i: int|
            0 <= i < parts.drop_last().len() ==> #[trigger] parts.drop_last()[i] == parts[i]);
        lemma_last_tagged_in_bounds(parts.drop_last(), tag);
    }
}

/// Per-tick proximity scan.  For every interactable entity, the flag
/// becomes whether it lies within `INTERACT_RANGE` of the body part the
/// player currently controls; with no entity carrying the active tag the
/// flags are left as they were.  The flag is recomputed unconditionally,
/// so it never sticks across ticks.
pub fn detect_interactables(
    interactables: &mut Vec<InteractableEntity>,
    parts: &Vec<BodyPartEntity>,
    parent: &BodyParts,
)
    requires
        parts_in_world(parts@),
        forall|i: int|
            0 <= i < old(interactables)@.len() ==> (#[trigger] old(
                interactables,
            )@[i]).transform.in_world(),
    ensures
        (last_tagged(parts@, parent.current_part) is Some) ==> ({
            let t = last_tagged(parts@, parent.current_part).unwrap();
            final(interactables)@ =~= Seq::new(
                old(interactables)@.len(),
                |i: int|
                    with_flag(
                        old(interactables)@[i],
                        in_proximity(t, old(interactables)@[i].transform),
                    ),
            )
        }),
        last_tagged(parts@, parent.current_part) is None ==> final(interactables)@ == old(
            interactables,
        )@,
{
    proof {
        lemma_last_tagged_in_bounds(parts@, parent.current_part);
    }
    let active = active_part_transform(parts, parent.current_part);
    match active {
        Some(t) => {
            let ghost orig = interactables@;
            let mut i: usize = 0;
            while i < interactables.len()
                invariant
                    i <= orig.len(),
                    interactables@.len() == orig.len(),
                    t.in_world(),
                    forall|j: int|
                        0 <= j < orig.len() ==> (#[trigger] orig[j]).transform.in_world(),
                    forall|j: int| i <= j < orig.len() ==> interactables@[j] == orig[j],
                    forall|j: int|
                        0 <= j < i ==> interactables@[j] == with_flag(
                            orig[j],
                            in_proximity(t, orig[j].transform),
                        ),
                decreases orig.len() - i,
            {
                let target = interactables[i].transform;
                let d = square_dist(t, target);
                let range_sq: i128 = (INTERACT_RANGE as i128) * (INTERACT_RANGE as i128);
                interactables[i].interactable.can_interact = d <= range_sq;
                i = i + 1;
            }
        },
        None => {},
    }
}

/// The trigger-stage events raised for `entities`: one wrapper per flagged
/// interactable, in entity order, carrying its identity and kind.
pub open spec fn spec_interact(entities: Seq<InteractableEntity>) -> Seq<InteractionWrapper>
    decreases entities.len(),
{
    if entities.len() == 0 {
        Seq::empty()
    } else {
        spec_interact(entities.drop_last()) + (if entities.last().interactable.can_interact {
            seq![
                InteractionWrapper(
                    entities.last().entity,
                    entities.last().interactable.interaction_type,
                ),
            ]
        } else {
            Seq::empty()
        })
    }
}

/// Trigger stage.  On the interact input's rising edge, every interactable
/// whose proximity flag is set raises its own wrapper event; simultaneous
/// eligible interactables each get one.  Off the rising edge nothing is
/// raised.
pub fn interact(query: &Vec<InteractableEntity>, actions: &ActionState) -> (events: Vec<
    InteractionWrapper,
>)
    ensures
        actions.fresh.interact ==> events@ == spec_interact(query@),
        !actions.fresh.interact ==> events@ == Seq::<InteractionWrapper>::empty(),
{
    let mut events: Vec<InteractionWrapper> = Vec::new();

    if actions.just_pressed(Action::Interact) {
        let ghost all = query@;
        let mut i: usize = 0;
        while i < query.len()
            invariant
                i <= all.len(),
                query@ == all,
                events@ == spec_interact(all.take(i as int)),
            decreases all.len() - i,
        {
            proof {
                assert(all.take(i + 1).drop_last() =~= all.take(i as int));
                assert(all.take(i + 1).last() == all[i as int]);
            }
            if query[i].interactable.can_interact {
                events.push(
                    InteractionWrapper(query[i].entity, query[i].interactable.interaction_type),
                );
            }
            i = i + 1;
        }
        proof {
            assert(all.take(all.len() as int) =~= all);
        }
    }
    events
}

/// The position of the first entity in `ents` whose identifier is `id`.
pub open spec fn find_entity_idx(ents: Seq<InteractableEntity>, id: u64) -> Option<int>
    decreases ents.len(),
{
    if ents.len() == 0 {
        None
    } else if ents[0].entity == id {
        Some(0)
    } else {
        match find_entity_idx(ents.drop_first(), id) {
            Some(j) => Some(j + 1),
            None => None,
        }
    }
}

/// Stepping the search one element at a time: a prefix without the
/// identifier stays without it past a non-matching element.
proof fn lemma_find_idx_step(ents: Seq<InteractableEntity>, id: u64, i: int)
    requires
        0 <= i < ents.len(),
        find_entity_idx(ents.take(i), id) is None,
    ensures
        ents[i].entity != id ==> find_entity_idx(ents.take(i + 1), id) is None,
    decreases i,
{
    reveal_with_fuel(find_entity_idx, 3);
    if i == 0 {
        assert(ents.take(1) =~= seq![ents[0]]);
    } else {
        assert(ents.take(i + 1)[0] == ents[0]);
        assert(ents.take(i)[0] == ents[0]);
        assert(ents.take(i).len() == i);
        assert(ents[0].entity != id);
        assert(ents.take(i + 1).drop_first() =~= ents.drop_first().take(i));
        assert(ents.take(i).drop_first() =~= ents.drop_first().take(i - 1));
        lemma_find_idx_step(ents.drop_first(), id, i - 1);
        assert(ents.drop_first()[i - 1] == ents[i]);
        if ents[i].entity != id {
            assert(find_entity_idx(ents.drop_first().take(i), id) is None);
            assert(find_entity_idx(ents.take(i + 1), id) is None);
        }
    }
}

/// When the first `i` elements miss the identifier and element `i` carries
/// it, the search over the whole sequence lands exactly there.
proof fn lemma_find_idx_found(ents: Seq<InteractableEntity>, id: u64, i: int)
    requires
        0 <= i < ents.len(),
        find_entity_idx(ents.take(i), id) is None,
        ents[i].entity == id,
    ensures
        find_entity_idx(ents, id) == Some(i),
    decreases i,
{
    if i == 0 {
    } else {
        assert(ents.take(i)[0] == ents[0]);
        assert(ents.take(i).drop_first() =~= ents.drop_first().take(i - 1));
        lemma_find_idx_found(ents.drop_first(), id, i - 1);
        assert(ents.drop_first()[i - 1] == ents[i]);
    }
}

/// Finds the entity carrying `id`, scanning in order.
fn find_interactable(ents: &Vec<InteractableEntity>, id: u64) -> (r: Option<usize>)
    ensures
        r matches Some(ix) ==> ix < ents@.len() && find_entity_idx(ents@, id) == Some(ix as int),
        r is None ==> find_entity_idx(ents@, id) is None,
{
    let ghost all = ents@;
    let mut i: usize = 0;
    while i < ents.len()
        invariant
            i <= all.len(),
            ents@ == all,
            find_entity_idx(all.take(i as int), id) is None,
        decreases all.len() - i,
    {
        if ents[i].entity == id {
            proof {
                lemma_find_idx_found(all, id, i as int);
            }
            return Some(i);
        }
        proof {
            lemma_find_idx_step(all, id, i as int);
        }
        i = i + 1;
    }
    proof {
        assert(all.take(all.len() as int) =~= all);
    }
    None
}

/// The identifiers of the events of kind `t`, in arrival order.
pub open spec fn ids_of_type(events: Seq<InteractionWrapper>, t: InteractionType) -> Seq<u64>
    decreases events.len(),
{
    if events.len() == 0 {
        Seq::empty()
    } else {
        ids_of_type(events.drop_last(), t) + (if events.last().1 == t {
            seq![events.last().0]
        } else {
            Seq::empty()
        })
    }
}

/// The door state forwarded for entity `id`: the requirement list and
/// flags of its door payload, or the default door when the entity or its
/// payload is missing.
pub open spec fn door_state_for(ents: Seq<InteractableEntity>, id: u64) -> (
    Option<Seq<String>>,
    bool,
    bool,
) {
    match find_entity_idx(ents, id) {
        Some(ix) => {
            if 0 <= ix < ents.len() {
                match ents[ix].interactable.door {
                    Some(d) => (d.reqs(), d.reusable, d.closed),
                    None => (None, true, true),
                }
            } else {
                (None, true, true)
            }
        },
        None => (None, true, true),
    }
}

/// Broadcast stage.  Each wrapper event fans out into exactly one typed
/// channel by its kind: items and persons are forwarded as placeholder
/// payloads, puzzles as the unit payload, and doors carry the door state
/// of the originating entity together with its identifier.
pub fn broadcast_interactions(
    events: &Vec<InteractionWrapper>,
    interactables: &Vec<InteractableEntity>,
) -> (out: (Vec<ItemInteraction>, Vec<PuzzleInteraction>, Vec<PersonInteraction>, Vec<
    DoorInteraction,
>))
    ensures
        out.0@.len() == ids_of_type(events@, InteractionType::Item).len(),
        forall|k: int|
            0 <= k < out.0@.len() ==> (#[trigger] out.0@[k]).0.id@ == Seq::<char>::empty(),
        out.1@.len() == ids_of_type(events@, InteractionType::Puzzle).len(),
        out.2@.len() == ids_of_type(events@, InteractionType::Person).len(),
        forall|k: int|
            0 <= k < out.2@.len() ==> (#[trigger] out.2@[k]).0.0@.len() == 0 && out.2@[k].1 == (
            0usize,
            0usize,
            ),
        out.3@.len() == ids_of_type(events@, InteractionType::Door).len(),
        forall|k: int|
            0 <= k < out.3@.len() ==> (#[trigger] out.3@[k]).1 == ids_of_type(
                events@,
                InteractionType::Door,
            )[k] && (out.3@[k].0.reqs(), out.3@[k].0.reusable, out.3@[k].0.closed)
                == door_state_for(interactables@, ids_of_type(events@, InteractionType::Door)[k]),
{
    let mut item_events: Vec<ItemInteraction> = Vec::new();
    let mut puzzle_events: Vec<PuzzleInteraction> = Vec::new();
    let mut person_events: Vec<PersonInteraction> = Vec::new();
    let mut door_events: Vec<DoorInteraction> = Vec::new();

    let ghost all = events@;
    let mut i: usize = 0;
    while i < events.len()
        invariant
            i <= all.len(),
            events@ == all,
            item_events@.len() == ids_of_type(all.take(i as int), InteractionType::Item).len(),
            forall|k: int|
                0 <= k < item_events@.len() ==> (#[trigger] item_events@[k]).0.id@ == Seq::<
                    char,
                >::empty(),
            puzzle_events@.len() == ids_of_type(all.take(i as int), InteractionType::Puzzle).len(),
            person_events@.len() == ids_of_type(all.take(i as int), InteractionType::Person).len(),
            forall|k: int|
                0 <= k < person_events@.len() ==> (#[trigger] person_events@[k]).0.0@.len() == 0
                    && person_events@[k].1 == (0usize, 0usize),
            door_events@.len() == ids_of_type(all.take(i as int), InteractionType::Door).len(),
            forall|k: int|
                0 <= k < door_events@.len() ==> (#[trigger] door_events@[k]).1 == ids_of_type(
                    all.take(i as int),
                    InteractionType::Door,
                )[k] && (door_events@[k].0.reqs(), door_events@[k].0.reusable,
                door_events@[k].0.closed) == door_state_for(
                    interactables@,
                    ids_of_type(all.take(i as int), InteractionType::Door)[k],
                ),
        decreases all.len() - i,
    {
        proof {
            assert(all.take(i + 1).drop_last() =~= all.take(i as int));
            assert(all.take(i + 1).last() == all[i as int]);
        }
        let id = events[i].0;
        match events[i].1 {
            InteractionType::Item => {
                item_events.push(ItemInteraction(Item::default()));
            },
            InteractionType::Puzzle => {
                puzzle_events.push(PuzzleInteraction(Puzzle));
            },
            InteractionType::Person => {
                person_events.push(PersonInteraction(Person::default(), (0, 0)));
            },
            InteractionType::Door => {
                let door = match find_interactable(interactables, id) {
                    Some(ix) => match &interactables[ix].interactable.door {
                        Some(d) => d.duplicate(),
                        None => Door::default(),
                    },
                    None => Door::default(),
                };
                door_events.push(DoorInteraction(door, id));
            },
        }
        i = i + 1;
    }
    proof {
        assert(all.take(all.len() as int) =~= all);
    }
    (item_events, puzzle_events, person_events, door_events)
}

/// The slot array after one pickup: the first empty slot receives the
/// item, occupied slots are never touched, and a full inventory absorbs
/// the pickup silently.
pub open spec fn pickup(slots: Seq<Option<Item>>, item: Item) -> Seq<Option<Item>> {
    Seq::new(
        slots.len(),
        |i: int|
            if slots[i] is None && (forall|j: int| 0 <= j < i ==> slots[j] is Some) {
                Some(item)
            } else {
                slots[i]
            },
    )
}

/// The slot array after a whole batch of pickups, applied in arrival
/// order.
pub open spec fn pickup_all(slots: Seq<Option<Item>>, events: Seq<ItemInteraction>) -> Seq<
    Option<Item>,
>
    decreases events.len(),
{
    if events.len() == 0 {
        slots
    } else {
        pickup(pickup_all(slots, events.drop_last()), events.last().0)
    }
}

/// Pickups never overwrite an occupied slot: whatever a slot held before a
/// batch of pickups, it still holds afterwards, and no occupied slot ever
/// becomes empty.
pub proof fn lemma_pickup_never_overwrites(slots: Seq<Option<Item>>, events: Seq<ItemInteraction>)
    ensures
        pickup_all(slots, events).len() == slots.len(),
        forall|j: int|
            0 <= j < slots.len() && slots[j] is Some ==> pickup_all(slots, events)[j] == slots[j],
    decreases events.len(),
{
    if events.len() > 0 {
        lemma_pickup_never_overwrites(slots, events.drop_last());
    }
}

/// Once every slot is full, further pickups leave the inventory unchanged.
pub proof fn lemma_pickup_full_noop(slots: Seq<Option<Item>>, events: Seq<ItemInteraction>)
    requires
        forall|j: int| 0 <= j < slots.len() ==> slots[j] is Some,
    ensures
        pickup_all(slots, events) == slots,
    decreases events.len(),
{
    if events.len() > 0 {
        lemma_pickup_full_noop(slots, events.drop_last());
        assert(pickup(slots, events.last().0) =~= slots);
    }
}

/// Stores a copy of the item in the first empty slot; a full inventory
/// drops it silently.
fn store_item(inventory: &mut Inventory, item: &Item)
    requires
        old(inventory).wf(),
    ensures
        final(inventory).wf(),
        final(inventory).0@ == pickup(old(inventory).0@, *item),
{
    let ghost slots = inventory.0@;
    let n = inventory.0.len();
    let mut a: usize = 0;
    while a < n
        invariant
            a <= n,
            n == slots.len(),
            slots == old(inventory).0@,
            old(inventory).wf(),
            inventory.0@ == slots,
            forall|j: int| 0 <= j < a ==> slots[j] is Some,
        decreases n - a,
    {
        if inventory.0[a].is_none() {
            inventory.0[a] = Some(item.duplicate());
            proof {
                assert(inventory.0@ =~= pickup(slots, *item));
            }
            return ;
        }
        a = a + 1;
    }
    proof {
        assert(inventory.0@ =~= pickup(slots, *item));
    }
}

/// Resolution of item interactions: each event stores a copy of its item
/// in the first empty inventory slot.  Occupied slots are never
/// overwritten, and once all slots are full further pickups leave the
/// inventory unchanged; the overflow is not surfaced.
pub fn item_interaction(item_events: &Vec<ItemInteraction>, inventory: &mut Inventory)
    requires
        old(inventory).wf(),
    ensures
        final(inventory).wf(),
        final(inventory).0@ == pickup_all(old(inventory).0@, item_events@),
        forall|j: int|
            0 <= j < old(inventory).0@.len() && old(inventory).0@[j] is Some
                ==> final(inventory).0@[j] == old(inventory).0@[j],
        old(inventory).is_full() ==> final(inventory).0@ == old(inventory).0@,
{
    let ghost orig = inventory.0@;
    let ghost all = item_events@;
    let mut e: usize = 0;
    while e < item_events.len()
        invariant
            e <= all.len(),
            item_events@ == all,
            inventory.wf(),
            inventory.0@ == pickup_all(orig, all.take(e as int)),
        decreases all.len() - e,
    {
        proof {
            assert(all.take(e + 1).drop_last() =~= all.take(e as int));
            assert(all.take(e + 1).last() == all[e as int]);
        }
        store_item(inventory, &item_events[e].0);
        e = e + 1;
    }
    proof {
        assert(all.take(all.len() as int) =~= all);
        lemma_pickup_never_overwrites(orig, all);
        if forall|j: int| 0 <= j < orig.len() ==> orig[j] is Some {
            lemma_pickup_full_noop(orig, all);
        }
    }
}

/// The inventory holds an item matching this single requirement.
pub open spec fn matches_req(req: String, slots: Seq<Option<Item>>) -> bool {
    exists|j: int|
        0 <= j < slots.len() && (#[trigger] slots[j] matches Some(item) && item.id@ == req@)
}

/// Some listed requirement is matched by some held item.
pub open spec fn matches_any(reqs: Seq<String>, slots: Seq<Option<Item>>) -> bool {
    exists|i: int| 0 <= i < reqs.len() && matches_req(#[trigger] reqs[i], slots)
}

/// Whether a door opens when interacted with against this inventory: a
/// door without requirements opens unconditionally; one with requirements
/// opens as soon as any single listed identifier is matched by any held
/// item.
pub open spec fn door_opens(door: Door, slots: Seq<Option<Item>>) -> bool {
    match door.requirements {
        None => true,
        Some(rs) => matches_any(rs@, slots),
    }
}

/// A door without requirements opens on interaction whatever the
/// inventory holds.
pub proof fn lemma_unrequired_door_opens(door: Door, slots: Seq<Option<Item>>)
    requires
        door.requirements is None,
    ensures
        door_opens(door, slots),
{
}

/// The entity with its door payload replaced and everything else as it
/// was.
pub open spec fn with_door(e: InteractableEntity, d: Door) -> InteractableEntity {
    InteractableEntity { interactable: Interactable { door: Some(d), ..e.interactable }, ..e }
}

/// The unlocked door that replaces a satisfied one: requirements cleared,
/// the original reusable flag kept, and no longer closed.
pub open spec fn unlocked_door(reusable: bool) -> Door {
    Door { requirements: None, reusable: reusable, closed: false }
}

/// The interactable entities after one door event resolves: a door whose
/// requirement list is matched has the originating entity's payload
/// replaced by the unlocked door; an unconditional or unmatched door
/// changes nothing.
pub open spec fn apply_door_event(
    ents: Seq<InteractableEntity>,
    ev: DoorInteraction,
    slots: Seq<Option<Item>>,
) -> Seq<InteractableEntity> {
    match ev.0.requirements {
        None => ents,
        Some(rs) => {
            if matches_any(rs@, slots) {
                match find_entity_idx(ents, ev.1) {
                    Some(ix) => {
                        if 0 <= ix < ents.len() {
                            ents.update(ix, with_door(ents[ix], unlocked_door(ev.0.reusable)))
                        } else {
                            ents
                        }
                    },
                    None => ents,
                }
            } else {
                ents
            }
        },
    }
}

/// The interactable entities after a whole batch of door events, applied
/// in arrival order.
pub open spec fn apply_door_events(
    ents: Seq<InteractableEntity>,
    events: Seq<DoorInteraction>,
    slots: Seq<Option<Item>>,
) -> Seq<InteractableEntity>
    decreases events.len(),
{
    if events.len() == 0 {
        ents
    } else {
        apply_door_event(apply_door_events(ents, events.drop_last(), slots), events.last(), slots)
    }
}

/// Door resolution never adds or removes entities.
pub proof fn lemma_apply_door_events_len(
    ents: Seq<InteractableEntity>,
    events: Seq<DoorInteraction>,
    slots: Seq<Option<Item>>,
)
    ensures
        apply_door_events(ents, events, slots).len() == ents.len(),
    decreases events.len(),
{
    if events.len() > 0 {
        lemma_apply_door_events_len(ents, events.drop_last(), slots);
    }
}

/// The identifiers of the doors that open, in arrival order of their
/// events.
pub open spec fn opened_ids(events: Seq<DoorInteraction>, slots: Seq<Option<Item>>) -> Seq<u64>
    decreases events.len(),
{
    if events.len() == 0 {
        Seq::empty()
    } else {
        opened_ids(events.drop_last(), slots) + (if door_opens(events.last().0, slots) {
            seq![events.last().1]
        } else {
            Seq::empty()
        })
    }
}

/// Whether the inventory holds an item whose identifier reads `req`.
fn req_in_inventory(req: &String, inventory: &Inventory) -> (found: bool)
    ensures
        found == matches_req(*req, inventory.0@),
{
    let ghost slots = inventory.0@;
    let n = inventory.0.len();
    let mut j: usize = 0;
    while j < n
        invariant
            j <= n,
            n == slots.len(),
            inventory.0@ == slots,
            forall|k: int|
                0 <= k < j ==> !(#[trigger] slots[k] matches Some(item) && item.id@ == req@),
        decreases n - j,
    {
        match &inventory.0[j] {
            Some(item) => {
                if *req == item.id {
                    assert(slots[j as int] matches Some(it) && it.id@ == req@);
                    return true;
                }
            },
            None => {},
        }
        j = j + 1;
    }
    false
}

/// Whether any listed requirement is matched by any held item.
fn has_match(reqs: &Vec<String>, inventory: &Inventory) -> (found: bool)
    ensures
        found == matches_any(reqs@, inventory.0@),
{
    let ghost all = reqs@;
    let mut i: usize = 0;
    while i < reqs.len()
        invariant
            i <= all.len(),
            reqs@ == all,
            forall|k: int| 0 <= k < i ==> !matches_req(#[trigger] all[k], inventory.0@),
        decreases all.len() - i,
    {
        if req_in_inventory(&reqs[i], inventory) {
            return true;
        }
        i = i + 1;
    }
    false
}

/// Resolution of door interactions.  An event for a door without
/// requirements opens it outright and changes no state.  An event for a
/// door with requirements scans the inventory once per listed identifier
/// and, on the first match for any of them, replaces the originating
/// entity's door payload with the unlocked door.  The returned identifiers
/// are the doors that opened, in event order.
pub fn door_interaction(
    door_events: &Vec<DoorInteraction>,
    inventory: &Inventory,
    interactables: &mut Vec<InteractableEntity>,
) -> (opened: Vec<u64>)
    ensures
        final(interactables)@ == apply_door_events(
            old(interactables)@,
            door_events@,
            inventory.0@,
        ),
        opened@ == opened_ids(door_events@, inventory.0@),
{
    let mut opened: Vec<u64> = Vec::new();
    let ghost orig = interactables@;
    let ghost all = door_events@;
    let mut e: usize = 0;
    while e < door_events.len()
        invariant
            e <= all.len(),
            door_events@ == all,
            interactables@ == apply_door_events(orig, all.take(e as int), inventory.0@),
            opened@ == opened_ids(all.take(e as int), inventory.0@),
        decreases all.len() - e,
    {
        proof {
            assert(all.take(e + 1).drop_last() =~= all.take(e as int));
            assert(all.take(e + 1).last() == all[e as int]);
        }
        let ghost before = interactables@;
        match &door_events[e].0.requirements {
            None => {
                opened.push(door_events[e].1);
            },
            Some(reqs) => {
                if has_match(reqs, inventory) {
                    match find_interactable(interactables, door_events[e].1) {
                        Some(ix) => {
                            interactables[ix].interactable.door = Some(
                                Door {
                                    requirements: None,
                                    reusable: door_events[e].0.reusable,
                                    closed: false,
                                },
                            );
                            proof {
                                assert(interactables@ =~= before.update(
                                    ix as int,
                                    with_door(
                                        before[ix as int],
                                        unlocked_door(all[e as int].0.reusable),
                                    ),
                                ));
                            }
                        },
                        None => {},
                    }
                    opened.push(door_events[e].1);
                }
            },
        }
        e = e + 1;
    }
    proof {
        assert(all.take(all.len() as int) =~= all);
    }
    opened
}

} // verus!
