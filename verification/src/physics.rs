//! The rigid-body world that the puzzle is simulated in.
//!
//! The world is rapier's: its sets of bodies, colliders and joints and the
//! state of its collision phases. A world is made empty and filled body by
//! body and collider by collider, through rapier's own insertions, so that
//! its parts always belong together: rapier steps no other world safely.
//! For the same reason bodies come in without continuous collision
//! detection, and colliders only with shapes of the plain kinds.

use vstd::prelude::*;
use rapier2d::dynamics::{
    CCDSolver, GenericJoint, ImpulseJointSet, IntegrationParameters, IslandManager, MultibodyJointSet,
    RigidBodyHandle, RigidBodySet,
};
use rapier2d::geometry::{BroadPhase, Collider, ColliderHandle, ColliderSet, NarrowPhase};
use rapier2d::math::{Real, Vector};
use rapier2d::pipeline::{ChannelEventCollector, PhysicsPipeline};

verus! {

/// rapier's `PhysicsPipeline`: the buffers that a step works in.
#[verifier::external_type_specification]
#[verifier::external_body]
pub struct ExPhysicsPipeline(PhysicsPipeline);

/// rapier's `IslandManager`: which bodies are awake.
#[verifier::external_type_specification]
#[verifier::external_body]
pub struct ExIslandManager(IslandManager);

/// rapier's `BroadPhase`: the coarse search for pairs that may touch.
#[verifier::external_type_specification]
#[verifier::external_body]
pub struct ExBroadPhase(BroadPhase);

/// rapier's `NarrowPhase`: the contacts and intersections between pairs.
#[verifier::external_type_specification]
#[verifier::external_body]
pub struct ExNarrowPhase(NarrowPhase);

/// rapier's `RigidBodySet`: the bodies.
#[verifier::external_type_specification]
#[verifier::external_body]
pub struct ExRigidBodySet(RigidBodySet);

/// rapier's `RigidBody`: a body, in or out of a set.
#[verifier::external_type_specification]
#[verifier::external_body]
pub struct ExRigidBody(rapier2d::dynamics::RigidBody);

/// rapier's `Collider`: a collider, in or out of a set.
#[verifier::external_type_specification]
#[verifier::external_body]
pub struct ExCollider(Collider);

/// rapier's `GenericJoint`: what a joint allows and forbids.
#[verifier::external_type_specification]
#[verifier::external_body]
pub struct ExGenericJoint(GenericJoint);

/// rapier's `ColliderSet`: the colliders.
#[verifier::external_type_specification]
#[verifier::external_body]
pub struct ExColliderSet(ColliderSet);

/// rapier's `ImpulseJointSet`: the joints solved by impulses.
#[verifier::external_type_specification]
#[verifier::external_body]
pub struct ExImpulseJointSet(ImpulseJointSet);

/// rapier's `MultibodyJointSet`: the joints solved in reduced coordinates.
#[verifier::external_type_specification]
#[verifier::external_body]
pub struct ExMultibodyJointSet(MultibodyJointSet);

/// rapier's `CCDSolver`: continuous collision detection.
#[verifier::external_type_specification]
#[verifier::external_body]
pub struct ExCCDSolver(CCDSolver);

/// rapier's `IntegrationParameters`: the length of a step and the solver's
/// settings.
#[verifier::external_type_specification]
#[verifier::external_body]
pub struct ExIntegrationParameters(IntegrationParameters);

/// nalgebra's `Matrix`, of which rapier's vectors are made.
#[verifier::external_type_specification]
#[verifier::external_body]
#[verifier::reject_recursive_types(T)]
#[verifier::reject_recursive_types(R)]
#[verifier::reject_recursive_types(C)]
#[verifier::reject_recursive_types(S)]
pub struct ExMatrix<T, R, C, S>(nalgebra::Matrix<T, R, C, S>);

/// nalgebra's `Const`: a dimension known at compile time.
#[verifier::external_type_specification]
#[verifier::external_body]
pub struct ExConst<const N: usize>(nalgebra::Const<N>);

/// nalgebra's `ArrayStorage`: the entries of a matrix of fixed size.
#[verifier::external_type_specification]
#[verifier::external_body]
#[verifier::reject_recursive_types(T)]
pub struct ExArrayStorage<T, const R: usize, const C: usize>(nalgebra::ArrayStorage<T, R, C>);

/// `Clone::clone` of `IntegrationParameters`. Nothing is claimed of the copy.
pub assume_specification[ <IntegrationParameters as Clone>::clone ](
    _0: &IntegrationParameters,
) -> IntegrationParameters;

/// `Clone::clone` of `IslandManager`. Nothing is claimed of the copy.
pub assume_specification[ <IslandManager as Clone>::clone ](_0: &IslandManager) -> IslandManager;

/// `Clone::clone` of `BroadPhase`. Nothing is claimed of the copy.
pub assume_specification[ <BroadPhase as Clone>::clone ](_0: &BroadPhase) -> BroadPhase;

/// `Clone::clone` of `NarrowPhase`. Nothing is claimed of the copy.
pub assume_specification[ <NarrowPhase as Clone>::clone ](_0: &NarrowPhase) -> NarrowPhase;

/// `Clone::clone` of `RigidBodySet`. Nothing is claimed of the copy.
pub assume_specification[ <RigidBodySet as Clone>::clone ](_0: &RigidBodySet) -> RigidBodySet;

/// `Clone::clone` of `ColliderSet`. Nothing is claimed of the copy.
pub assume_specification[ <ColliderSet as Clone>::clone ](_0: &ColliderSet) -> ColliderSet;

/// `Clone::clone` of `ImpulseJointSet`. Nothing is claimed of the copy.
pub assume_specification[ <ImpulseJointSet as Clone>::clone ](_0: &ImpulseJointSet) -> ImpulseJointSet;

/// `Clone::clone` of `MultibodyJointSet`. Nothing is claimed of the copy.
pub assume_specification[ <MultibodyJointSet as Clone>::clone ](
    _0: &MultibodyJointSet,
) -> MultibodyJointSet;

/// `Clone::clone` of `CCDSolver`. Nothing is claimed of the copy.
pub assume_specification[ <CCDSolver as Clone>::clone ](_0: &CCDSolver) -> CCDSolver;

/// `Clone::clone` of nalgebra's `Matrix`. Nothing is claimed of the copy.
pub assume_specification<T, R, C, S>[ <nalgebra::Matrix<T, R, C, S> as Clone>::clone ](
    _0: &nalgebra::Matrix<T, R, C, S>,
) -> nalgebra::Matrix<T, R, C, S> where C: Clone, R: Clone, S: Clone, T: Clone;

/// The name of a collider in a world: the index and the generation that
/// make up rapier's `ColliderHandle`.
pub type ColliderId = (u32, u32);

/// The name of a body in a world: the index and the generation that make up
/// rapier's `RigidBodyHandle`.
pub type BodyId = (u32, u32);

/// What a `ColliderSet` holds, as far as the game reads it: for each
/// collider of the set, under the index and generation of its handle,
/// whether the collider is a sensor.
pub uninterp spec fn sensors(colliders: ColliderSet) -> Map<ColliderId, bool>;

/// What a `NarrowPhase` holds, as far as the game reads it: for each
/// collider that it knows, under the index and generation of its handle,
/// the contact pairs that involve the collider, each by whether it has an
/// active contact.
pub uninterp spec fn contact_pairs(narrow_phase: NarrowPhase) -> Map<ColliderId, Seq<bool>>;

/// The bodies that a `RigidBodySet` holds, each by the index and generation
/// of its handle.
pub uninterp spec fn body_ids(bodies: RigidBodySet) -> Set<BodyId>;

/// One state of a simulation: everything that a step reads and writes, and
/// which colliders are the walls.
///
/// The parts cannot be set from outside. They begin empty; bodies,
/// colliders and joints come in through `add_body`, `add_collider` and
/// `add_joint`; steps and copies are rapier's. So the parts of every world
/// belong together.
#[derive(Clone)]
pub struct PhysicsWorld {
    gravity: Vector<Real>,
    integration_parameters: IntegrationParameters,
    islands: IslandManager,
    broad_phase: BroadPhase,
    narrow_phase: NarrowPhase,
    bodies: RigidBodySet,
    colliders: ColliderSet,
    impulse_joints: ImpulseJointSet,
    multibody_joints: MultibodyJointSet,
    ccd_solver: CCDSolver,
    walls: Vec<ColliderId>,
}

/// The number of the last of the first five kinds in parry's list: ball,
/// cuboid, capsule, segment, triangle.
pub const TRIANGLE: u32 = 4;

/// The number of the kind of shape that is made of parts.
pub const COMPOUND: u32 = 9;

/// The number of the convex polygons.
pub const CONVEX_POLYGON: u32 = 10;

/// Whether a shape of the kind with this number in parry's list is plain:
/// a ball, a cuboid, a capsule, a segment, a triangle or a convex polygon.
/// The kinds with rounded corners are not, nor are those that the caller
/// wrote: rapier can fail on them. Shapes made of parts and the large
/// kinds, meshes and fields, are not plain either.
pub open spec fn plain_kind(code: u32) -> bool {
    code <= TRIANGLE || code == CONVEX_POLYGON
}

/// Whether a shape is taken in, given the number of its kind and those of
/// its parts: a plain shape is, and so is a shape made of plain parts.
pub open spec fn shape_taken(code: u32, parts: Seq<u32>) -> bool {
    plain_kind(code) || (code == COMPOUND && forall|i: int| 0 <= i < parts.len() ==> plain_kind(
        #[trigger] parts[i],
    ))
}

/// Whether a shape is taken in.
pub fn shape_allowed(code: u32, parts: &Vec<u32>) -> (taken: bool)
    ensures
        taken == shape_taken(code, parts@),
{
    if code <= TRIANGLE || code == CONVEX_POLYGON {
        return true;
    }
    if code != COMPOUND {
        return false;
    }
    let mut i: usize = 0;
    while i < parts.len()
        invariant
            i <= parts.len(),
            code == COMPOUND,
            forall|j: int| 0 <= j < i ==> plain_kind(#[trigger] parts@[j]),
        decreases parts.len() - i,
    {
        if !(parts[i] <= TRIANGLE || parts[i] == CONVEX_POLYGON) {
            assert(!plain_kind(parts@[i as int]));
            return false;
        }
        i += 1;
    }
    true
}

/// Whether the collider is a sensor, or `None` where the set has no such
/// collider.
pub open spec fn sensor_flag(colliders: ColliderSet, collider: ColliderId) -> Option<bool> {
    if sensors(colliders).contains_key(collider) {
        Some(sensors(colliders)[collider])
    } else {
        None
    }
}

/// The contact pairs that involve the collider, each by whether it has an
/// active contact: none for a collider that the narrow phase does not know.
pub open spec fn contacts_with(narrow_phase: NarrowPhase, collider: ColliderId) -> Seq<bool> {
    if contact_pairs(narrow_phase).contains_key(collider) {
        contact_pairs(narrow_phase)[collider]
    } else {
        Seq::empty()
    }
}

/// Whether one of the walls has a contact pair with an active contact.
pub open spec fn wall_touched(narrow_phase: NarrowPhase, walls: Seq<ColliderId>) -> bool {
    exists|i: int| 0 <= i < walls.len() && contacts_with(narrow_phase, #[trigger] walls[i]).contains(true)
}

/// `IslandManager::new`, `BroadPhase::new`, `NarrowPhase::new`,
/// `RigidBodySet::new`, `ColliderSet::new`, `ImpulseJointSet::new`,
/// `MultibodyJointSet::new`, `CCDSolver::new` and
/// `IntegrationParameters::default`: the parts of a world with nothing in
/// it, and rapier's own settings for the solver. The set of bodies holds no
/// body.
#[verifier::external_body]
fn empty_parts() -> (parts: (
    IslandManager,
    BroadPhase,
    NarrowPhase,
    RigidBodySet,
    ColliderSet,
    ImpulseJointSet,
    MultibodyJointSet,
    CCDSolver,
    IntegrationParameters,
))
    ensures
        body_ids(parts.3) == Set::<BodyId>::empty(),
{
    (
        IslandManager::new(), BroadPhase::new(), NarrowPhase::new(), RigidBodySet::new(),
        ColliderSet::new(), ImpulseJointSet::new(), MultibodyJointSet::new(), CCDSolver::new(),
        IntegrationParameters::default(),
    )
}

/// `RigidBody::enable_ccd`: the body with continuous collision detection
/// switched off.
#[verifier::external_body]
fn without_ccd(body: rapier2d::dynamics::RigidBody) -> rapier2d::dynamics::RigidBody {
    let mut body = body;
    body.enable_ccd(false);
    body
}

/// `Collider::shape` and `Shape::shape_type`: the kind of the collider's
/// shape, by its number in parry's list of kinds. Nothing is claimed of the
/// number.
#[verifier::external_body]
fn shape_code(collider: &Collider) -> (code: u32) {
    collider.shape().shape_type() as u32
}

/// `Shape::as_compound` and `Compound::shapes`: the kinds of the parts of
/// the collider's shape, each by its number in parry's list of kinds, where
/// the shape is made of parts; nothing where it is not. Nothing is claimed
/// of the numbers.
#[verifier::external_body]
fn part_codes(collider: &Collider) -> (codes: Vec<u32>) {
    let parts = collider.shape().as_compound().map(|compound| compound.shapes());
    parts.unwrap_or_default().iter().map(|(_, part)| part.shape_type() as u32).collect()
}

/// `RigidBodySet::insert`: puts the body into the set, under a handle that
/// the set did not hold, and returns the handle. rapier clears what the
/// body remembers of another set.
#[verifier::external_body]
fn insert_body(bodies: &mut RigidBodySet, body: rapier2d::dynamics::RigidBody) -> (id: BodyId)
    ensures
        !body_ids(*old(bodies)).contains(id),
        body_ids(*final(bodies)) == body_ids(*old(bodies)).insert(id),
{
    bodies.insert(body).into_raw_parts()
}

/// `RigidBodySet::contains`: whether the set holds the body.
#[verifier::external_body]
fn has_body(bodies: &RigidBodySet, body: BodyId) -> (found: bool)
    ensures
        found == body_ids(*bodies).contains(body),
{
    bodies.contains(RigidBodyHandle::from_raw_parts(body.0, body.1))
}

/// `ColliderSet::insert`: puts the collider into the set, attached to no
/// body, and returns its handle.
#[verifier::external_body]
fn insert_collider(colliders: &mut ColliderSet, collider: Collider) -> (id: ColliderId) {
    colliders.insert(collider).into_raw_parts()
}

/// `ColliderSet::insert_with_parent`: puts the collider into the set,
/// attached to the body, and returns its handle. The set of bodies holds
/// the same bodies afterwards. rapier fails where the body is not in the
/// set.
#[verifier::external_body]
fn insert_collider_with_parent(
    colliders: &mut ColliderSet,
    collider: Collider,
    parent: BodyId,
    bodies: &mut RigidBodySet,
) -> (id: ColliderId)
    requires
        body_ids(*old(bodies)).contains(parent),
    ensures
        body_ids(*final(bodies)) == body_ids(*old(bodies)),
{
    let handle = RigidBodyHandle::from_raw_parts(parent.0, parent.1);
    colliders.insert_with_parent(collider, handle, bodies).into_raw_parts()
}

/// `ImpulseJointSet::insert`: puts a joint between the two bodies into the
/// set, and has the bodies woken at the next step. Nothing is claimed of the
/// set afterwards.
#[verifier::external_body]
fn insert_joint(joints: &mut ImpulseJointSet, one: BodyId, other: BodyId, joint: GenericJoint) {
    let first = RigidBodyHandle::from_raw_parts(one.0, one.1);
    let second = RigidBodyHandle::from_raw_parts(other.0, other.1);
    joints.insert(first, second, joint, true);
}

/// `PhysicsPipeline::new`: a pipeline with empty buffers.
#[verifier::external_body]
pub(crate) fn new_pipeline() -> PhysicsPipeline {
    PhysicsPipeline::new()
}

/// `IntegrationParameters::set_inv_dt`: makes a step of the world last one
/// `rate`-th of a second. Nothing is claimed of the world afterwards.
#[verifier::external_body]
pub(crate) fn set_rate(world: &mut PhysicsWorld, rate: u32) {
    world.integration_parameters.set_inv_dt(rate as Real);
}

/// `PhysicsPipeline::step`, with a `ChannelEventCollector` to gather the
/// collision events of the step: advances the world by one step and returns,
/// for each collision event in the order in which rapier sent it, the two
/// colliders involved. Nothing is claimed of the world afterwards nor of the
/// events: what a step brings may differ from one machine to the next.
///
/// rapier looks up, without a test, what the parts of a world name in one
/// another. The parts of a `PhysicsWorld` are rapier's own work from the
/// empty world on, so they name nothing that is not there.
#[verifier::external_body]
pub(crate) fn step(pipeline: &mut PhysicsPipeline, world: &mut PhysicsWorld) -> (events: Vec<
    (ColliderId, ColliderId),
>) {
    let (collisions, collected) = rapier2d::crossbeam::channel::unbounded();
    let (forces, _unread) = rapier2d::crossbeam::channel::unbounded();
    let collector = ChannelEventCollector::new(collisions, forces);
    pipeline.step(
        &world.gravity, &world.integration_parameters, &mut world.islands,
        &mut world.broad_phase, &mut world.narrow_phase, &mut world.bodies,
        &mut world.colliders, &mut world.impulse_joints, &mut world.multibody_joints,
        &mut world.ccd_solver, None, &(), &collector,
    );
    collected.try_iter().map(|e| (e.collider1().into_raw_parts(), e.collider2().into_raw_parts())).collect()
}

/// `ColliderSet::get` and `Collider::is_sensor`: whether the collider is a
/// sensor, as the set holds it, or `None` where the set has no collider
/// under that handle.
#[verifier::external_body]
pub(crate) fn is_sensor(colliders: &ColliderSet, collider: ColliderId) -> (sensor: Option<bool>)
    ensures
        sensor == if sensors(*colliders).contains_key(collider) {
            Some(sensors(*colliders)[collider])
        } else {
            None
        },
{
    colliders.get(ColliderHandle::from_raw_parts(collider.0, collider.1)).map(|c| c.is_sensor())
}

/// `NarrowPhase::contacts_with`: for each contact pair that involves the
/// collider, as the narrow phase holds them, whether the pair has an active
/// contact; nothing for a collider that the narrow phase does not know.
#[verifier::external_body]
pub(crate) fn active_contacts(narrow_phase: &NarrowPhase, collider: ColliderId) -> (active: Vec<bool>)
    ensures
        active@ == if contact_pairs(*narrow_phase).contains_key(collider) {
            contact_pairs(*narrow_phase)[collider]
        } else {
            Seq::empty()
        },
{
    let handle = ColliderHandle::from_raw_parts(collider.0, collider.1);
    narrow_phase.contacts_with(handle).map(|pair| pair.has_any_active_contact).collect()
}

impl PhysicsWorld {
    /// The colliders of the walls, in the order in which they came in: the
    /// solid ones, which a shape can rest against, and the sensors, which
    /// report what meets a wall.
    pub closed spec fn wall_ids(&self) -> Seq<ColliderId> {
        self.walls@
    }

    /// The colliders of the world.
    pub closed spec fn collider_set(&self) -> ColliderSet {
        self.colliders
    }

    /// The bodies of the world.
    pub closed spec fn body_set(&self) -> RigidBodySet {
        self.bodies
    }

    /// A world with nothing in it, under the given pull. The solver has
    /// rapier's own settings: it fails on some others.
    pub fn new(gravity: Vector<Real>) -> (world: PhysicsWorld)
        ensures
            world.wall_ids() == Seq::<ColliderId>::empty(),
            body_ids(world.body_set()) == Set::<BodyId>::empty(),
    {
        let parts = empty_parts();
        PhysicsWorld {
            gravity,
            integration_parameters: parts.8,
            islands: parts.0,
            broad_phase: parts.1,
            narrow_phase: parts.2,
            bodies: parts.3,
            colliders: parts.4,
            impulse_joints: parts.5,
            multibody_joints: parts.6,
            ccd_solver: parts.7,
            walls: Vec::new(),
        }
    }

    /// Puts a body into the world and returns its name, which is new to the
    /// world. The body may be a copy of one of another world: what it
    /// remembers of that world is cleared. It comes in without continuous
    /// collision detection, whatever it had.
    pub fn add_body(&mut self, body: rapier2d::dynamics::RigidBody) -> (id: BodyId)
        ensures
            !body_ids(old(self).body_set()).contains(id),
            body_ids(final(self).body_set()) == body_ids(old(self).body_set()).insert(id),
            final(self).wall_ids() == old(self).wall_ids(),
            final(self).collider_set() == old(self).collider_set(),
    {
        insert_body(&mut self.bodies, without_ccd(body))
    }

    /// Puts a collider into the world, attached to the body `parent` if one
    /// is given, and returns the collider's name. `wall` says whether the
    /// collider belongs to a wall.
    ///
    /// Nothing comes in, and the result is `None`, where the world has no
    /// body `parent`, and where the shape of the collider is not taken in:
    /// see `shape_taken`. Of what kind a shape is, is the physics engine's
    /// to say.
    pub fn add_collider(&mut self, collider: Collider, parent: Option<BodyId>, wall: bool) -> (id: Option<
        ColliderId,
    >)
        ensures
            (parent matches Some(body) && !body_ids(old(self).body_set()).contains(body)) ==> id is None,
            body_ids(final(self).body_set()) == body_ids(old(self).body_set()),
            id is None ==> final(self).collider_set() == old(self).collider_set(),
            id is None ==> final(self).body_set() == old(self).body_set(),
            final(self).wall_ids() == match id {
                Some(added) => if wall {
                    old(self).wall_ids().push(added)
                } else {
                    old(self).wall_ids()
                },
                None => old(self).wall_ids(),
            },
    {
        let parts = part_codes(&collider);
        if !shape_allowed(shape_code(&collider), &parts) {
            return None;
        }
        let added = match parent {
            Some(body) => {
                if !has_body(&self.bodies, body) {
                    return None;
                }
                insert_collider_with_parent(&mut self.colliders, collider, body, &mut self.bodies)
            },
            None => insert_collider(&mut self.colliders, collider),
        };
        if wall {
            self.walls.push(added);
        }
        Some(added)
    }

    /// Puts a joint between two bodies of the world, and says whether it
    /// did: nothing comes in where the world lacks one of the bodies, or
    /// where the two are one.
    pub fn add_joint(&mut self, one: BodyId, other: BodyId, joint: GenericJoint) -> (added: bool)
        ensures
            added == (one != other && body_ids(old(self).body_set()).contains(one) && body_ids(
                old(self).body_set(),
            ).contains(other)),
            final(self).body_set() == old(self).body_set(),
            final(self).wall_ids() == old(self).wall_ids(),
            final(self).collider_set() == old(self).collider_set(),
    {
        if one.0 == other.0 && one.1 == other.1 {
            return false;
        }
        if !has_body(&self.bodies, one) || !has_body(&self.bodies, other) {
            return false;
        }
        insert_joint(&mut self.impulse_joints, one, other, joint);
        true
    }

    /// The colliders of the walls.
    pub fn walls(&self) -> (walls: &Vec<ColliderId>)
        ensures
            walls@ == self.wall_ids(),
    {
        &self.walls
    }

    /// The colliders of the world.
    pub fn colliders(&self) -> (colliders: &ColliderSet)
        ensures
            *colliders == self.collider_set(),
    {
        &self.colliders
    }

    /// The bodies of the world.
    pub fn bodies(&self) -> (bodies: &RigidBodySet)
        ensures
            *bodies == self.body_set(),
    {
        &self.bodies
    }
}

/// Whether one of the flags is set.
pub fn any_set(flags: &Vec<bool>) -> (r: bool)
    ensures
        r == flags@.contains(true),
{
    let mut i: usize = 0;
    while i < flags.len()
        invariant
            i <= flags.len(),
            forall|j: int| 0 <= j < i ==> !flags@[j],
        decreases flags.len() - i,
    {
        if flags[i] {
            return true;
        }
        i += 1;
    }
    false
}

/// Whether the collider is one of the walls.
pub fn is_wall(walls: &Vec<ColliderId>, collider: ColliderId) -> (found: bool)
    ensures
        found == walls@.contains(collider),
{
    let mut i: usize = 0;
    while i < walls.len()
        invariant
            i <= walls.len(),
            forall|j: int| 0 <= j < i ==> #[trigger] walls@[j] != collider,
        decreases walls.len() - i,
    {
        if walls[i].0 == collider.0 && walls[i].1 == collider.1 {
            return true;
        }
        i += 1;
    }
    false
}

/// Whether some wall has an active contact with another body, as the
/// narrow phase of the running simulation holds it.
pub fn has_active_wall_contact(narrow_phase: &NarrowPhase, walls: &Vec<ColliderId>) -> (contact: bool)
    ensures
        contact == wall_touched(*narrow_phase, walls@),
{
    let mut i: usize = 0;
    while i < walls.len()
        invariant
            i <= walls.len(),
            forall|j: int| 0 <= j < i ==> !contacts_with(*narrow_phase, #[trigger] walls@[j]).contains(true),
        decreases walls.len() - i,
    {
        let active = active_contacts(narrow_phase, walls[i]);
        if any_set(&active) {
            return true;
        }
        i += 1;
    }
    false
}

} // verus!
