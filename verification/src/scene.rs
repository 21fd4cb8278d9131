//! The scene: the bodies of a world, each found again by the number it was given when it
//! entered, and the frame step that finds the player and the camera among them.
use vstd::prelude::*;
use crate::keys::{Key, KeySet};
use crate::movement::{movement_update, planned, Step, StepView};
use crate::orientation::{Frame, Orientation};

verus! {

/// What a body is looked up as.
#[derive(Clone, Copy, Debug, PartialEq, Eq, Structural)]
pub enum Role {
    /// What the camera follows.
    Player,
    /// What carries a camera and is not itself followed.
    Camera,
}

/// A body over unbounded coordinates.
pub struct EntityView {
    pub camera: bool,
    pub target: bool,
    pub orientation: Frame,
}

impl EntityView {
    /// Whether the body is looked up as `role`.
    pub open spec fn has_role(self, role: Role) -> bool {
        match role {
            Role::Player => self.target,
            Role::Camera => self.camera && !self.target,
        }
    }
}

/// A body of the scene: how it is turned, and the marks by which the player and the
/// camera are told from everything else.
#[derive(Clone, Copy, Debug, PartialEq, Eq, Structural)]
pub struct Entity {
    /// Whether the body carries a camera.
    pub camera: bool,
    /// Whether the body is what the camera follows.
    pub target: bool,
    pub orientation: Orientation,
}

impl View for Entity {
    type V = EntityView;

    open spec fn view(&self) -> EntityView {
        EntityView { camera: self.camera, target: self.target, orientation: self.orientation@ }
    }
}

impl Entity {
    /// The body with the given marks and orientation.
    pub fn new(camera: bool, target: bool, orientation: Orientation) -> (e: Entity)
        ensures
            e.camera == camera,
            e.target == target,
            e.orientation == orientation,
    {
        Entity { camera, target, orientation }
    }

    /// Whether the body is looked up as `role`.
    pub fn has_role(&self, role: Role) -> (b: bool)
        ensures
            b == self@.has_role(role),
    {
        match role {
            Role::Player => self.target,
            Role::Camera => self.camera && !self.target,
        }
    }
}

/// Whether the body numbered `id` is the one and only body of `entities` with `role`.
pub open spec fn is_sole(entities: Seq<EntityView>, role: Role, id: int) -> bool {
    &&& 0 <= id < entities.len()
    &&& entities[id].has_role(role)
    &&& forall|other: int|
        0 <= other < entities.len() && #[trigger] entities[other].has_role(role) ==> other == id
}

/// The number of the one body with `role`, or `None` where there is no such body or more
/// than one.
pub open spec fn sole(entities: Seq<EntityView>, role: Role) -> Option<int> {
    if exists|id: int| is_sole(entities, role, id) {
        Some(choose|id: int| is_sole(entities, role, id))
    } else {
        None
    }
}

/// A motion over unbounded numbers.
pub struct MotionView {
    pub player: int,
    pub step: StepView,
}

/// What a frame asks for: the step to take, and the number of the body that takes it.
#[derive(Clone, Copy, Debug, PartialEq, Eq, Structural)]
pub struct Motion {
    pub player: usize,
    pub step: Step,
}

impl View for Motion {
    type V = MotionView;

    open spec fn view(&self) -> MotionView {
        MotionView { player: self.player as int, step: self.step@ }
    }
}

/// What a frame asks of a scene: with exactly one player and exactly one camera, the step
/// of that player against that camera's orientation; in every other case nothing.
pub open spec fn motion_of(entities: Seq<EntityView>, keys: Set<Key>, ticks: nat) -> Option<
    MotionView,
> {
    match (sole(entities, Role::Player), sole(entities, Role::Camera)) {
        (Some(player), Some(camera)) => Some(
            MotionView { player, step: planned(keys, entities[camera].orientation, ticks) },
        ),
        _ => None,
    }
}

/// Whatever is the one body with a role is `sole`'s answer.
pub proof fn lemma_sole_is_unique(entities: Seq<EntityView>, role: Role, id: int)
    requires
        is_sole(entities, role, id),
    ensures
        sole(entities, role) == Some(id),
{
    let chosen = choose|id: int| is_sole(entities, role, id);
    assert(is_sole(entities, role, chosen));
}

/// Where no body has a role, none is the one body with it.
pub proof fn lemma_absent_role_has_no_sole(entities: Seq<EntityView>, role: Role)
    requires
        forall|id: int| 0 <= id < entities.len() ==> !(#[trigger] entities[id].has_role(role)),
    ensures
        sole(entities, role) is None,
{
}

/// Where two bodies have a role, none is the one body with it.
pub proof fn lemma_shared_role_has_no_sole(
    entities: Seq<EntityView>,
    role: Role,
    first: int,
    second: int,
)
    requires
        0 <= first < entities.len(),
        0 <= second < entities.len(),
        first != second,
        entities[first].has_role(role),
        entities[second].has_role(role),
    ensures
        sole(entities, role) is None,
{
}

/// A scene without exactly one player, or without exactly one camera, is asked for
/// nothing.
pub proof fn lemma_step_needs_player_and_camera(
    entities: Seq<EntityView>,
    keys: Set<Key>,
    ticks: nat,
)
    requires
        sole(entities, Role::Player) is None || sole(entities, Role::Camera) is None,
    ensures
        motion_of(entities, keys, ticks) is None,
{
}

/// The bodies of a world, numbered from zero in the order in which they entered.
pub struct Scene {
    entities: Vec<Entity>,
}

impl View for Scene {
    type V = Seq<EntityView>;

    closed spec fn view(&self) -> Seq<EntityView> {
        Seq::new(self.entities@.len(), |id: int| self.entities@[id]@)
    }
}

impl Scene {
    /// The scene without a body.
    pub fn new() -> (scene: Scene)
        ensures
            scene@ == Seq::<EntityView>::empty(),
    {
        let scene = Scene { entities: Vec::new() };
        assert(scene@ =~= Seq::<EntityView>::empty());
        scene
    }

    /// The number of bodies.
    pub fn len(&self) -> (n: usize)
        ensures
            n == self@.len(),
    {
        self.entities.len()
    }

    /// Adds a body and returns its number.
    pub fn spawn(&mut self, entity: Entity) -> (id: usize)
        ensures
            final(self)@ == old(self)@.push(entity@),
            id == old(self)@.len(),
    {
        let id: usize = self.entities.len();
        self.entities.push(entity);
        assert(self@ =~= old(self)@.push(entity@));
        id
    }

    /// The body numbered `id`, or `None` where no body has that number.
    pub fn get(&self, id: usize) -> (found: Option<Entity>)
        ensures
            id < self@.len() ==> found is Some && found->0@ == self@[id as int],
            id >= self@.len() ==> found is None,
    {
        if id < self.entities.len() {
            Some(self.entities[id])
        } else {
            None
        }
    }

    /// The number of the one body with `role`, or `None` where there is no such body or
    /// more than one.
    pub fn single(&self, role: Role) -> (found: Option<usize>)
        ensures
            sole(self@, role) == match found {
                Some(id) => Some(id as int),
                None => None,
            },
            found matches Some(id) ==> id < self@.len(),
    {
        let mut found: Option<usize> = None;
        let mut id: usize = 0;
        while id < self.entities.len()
            invariant
                id <= self.entities.len(),
                found is None ==> forall|other: int|
                    0 <= other < id ==> !(#[trigger] self@[other].has_role(role)),
                found matches Some(first) ==> {
                    &&& first < id
                    &&& self@[first as int].has_role(role)
                    &&& forall|other: int|
                        0 <= other < id && #[trigger] self@[other].has_role(role) ==> other
                            == first
                },
            decreases self.entities.len() - id,
        {
            if self.entities[id].has_role(role) {
                match found {
                    Some(first) => {
                        assert(self@[id as int].has_role(role));
                        assert(forall|any: int| !is_sole(self@, role, any)) by {
                            assert(self@[first as int].has_role(role));
                        }
                        return None;
                    },
                    None => {
                        found = Some(id);
                    },
                }
            }
            id += 1;
        }
        proof {
            match found {
                Some(first) => {
                    lemma_sole_is_unique(self@, role, first as int);
                },
                None => {},
            }
        }
        found
    }

    /// Decides one frame: with exactly one player and exactly one camera in the scene,
    /// the step of that player by the held keys relative to that camera; otherwise
    /// nothing. The scene itself is only read.
    pub fn step(&self, keys: &KeySet, ticks: u64) -> (motion: Option<Motion>)
        ensures
            motion_of(self@, keys@, ticks as nat) == match motion {
                Some(m) => Some(m@),
                None => None,
            },
    {
        let player: usize = match self.single(Role::Player) {
            Some(id) => id,
            None => {
                return None;
            },
        };
        let camera: usize = match self.single(Role::Camera) {
            Some(id) => id,
            None => {
                return None;
            },
        };
        let orientation = self.entities[camera].orientation;
        Some(Motion { player, step: movement_update(&orientation, keys, ticks) })
    }
}

} // verus!
