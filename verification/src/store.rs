//! The typed value store: a path-addressable registry holding the latest
//! published value of every named data slot, with per-slot versioning.
//!
//! Slots are addressed by a numeric path id resolved once at binding time;
//! the hierarchical path string is kept alongside purely for introspection
//! and telemetry. A slot is created lazily by the first binding that
//! declares it, its declared type is checked once at that moment, and a
//! publish replaces the whole value and bumps the version, so a read
//! always yields a complete previously published value or nothing.

use vstd::prelude::*;

use crate::action::Action;
use crate::geometry::{Isometry2, Point2};
use crate::types::{
    BallPosition, BallState, CycleTime, MotionCommand, PathSegment, PenaltyShotDirection,
    PrimaryState,
};

verus! {

/// A value a node can publish into the store: one variant per slot type
/// the framework routes.
#[derive(Debug, PartialEq)]
pub enum Value {
    Boolean(bool),
    Number(i64),
    Text(String),
    DurationMs(u64),
    Point(Point2),
    PathSegments(Vec<PathSegment>),
    BallState(Option<BallState>),
    BallPosition(BallPosition),
    Transform(Isometry2),
    MotionCommand(MotionCommand),
    Action(Action),
    CycleTime(CycleTime),
    PenaltyShot(PenaltyShotDirection),
    PrimaryState(PrimaryState),
}

/// The declared type of a slot, checked once when a binding is resolved.
#[derive(Clone, Copy, Debug, PartialEq, Eq, Structural)]
pub enum TypeTag {
    Boolean,
    Number,
    Text,
    DurationMs,
    Point,
    PathSegments,
    BallState,
    BallPosition,
    Transform,
    MotionCommand,
    Action,
    CycleTime,
    PenaltyShot,
    PrimaryState,
}

/// The type tag a value carries.
pub open spec fn tag_of(v: Value) -> TypeTag {
    match v {
        Value::Boolean(..) => TypeTag::Boolean,
        Value::Number(..) => TypeTag::Number,
        Value::Text(..) => TypeTag::Text,
        Value::DurationMs(..) => TypeTag::DurationMs,
        Value::Point(..) => TypeTag::Point,
        Value::PathSegments(..) => TypeTag::PathSegments,
        Value::BallState(..) => TypeTag::BallState,
        Value::BallPosition(..) => TypeTag::BallPosition,
        Value::Transform(..) => TypeTag::Transform,
        Value::MotionCommand(..) => TypeTag::MotionCommand,
        Value::Action(..) => TypeTag::Action,
        Value::CycleTime(..) => TypeTag::CycleTime,
        Value::PenaltyShot(..) => TypeTag::PenaltyShot,
        Value::PrimaryState(..) => TypeTag::PrimaryState,
    }
}

impl Value {
    /// The type tag this value carries.
    pub fn tag(&self) -> (t: TypeTag)
        ensures
            t == tag_of(*self),
    {
        match self {
            Value::Boolean(..) => TypeTag::Boolean,
            Value::Number(..) => TypeTag::Number,
            Value::Text(..) => TypeTag::Text,
            Value::DurationMs(..) => TypeTag::DurationMs,
            Value::Point(..) => TypeTag::Point,
            Value::PathSegments(..) => TypeTag::PathSegments,
            Value::BallState(..) => TypeTag::BallState,
            Value::BallPosition(..) => TypeTag::BallPosition,
            Value::Transform(..) => TypeTag::Transform,
            Value::MotionCommand(..) => TypeTag::MotionCommand,
            Value::Action(..) => TypeTag::Action,
            Value::CycleTime(..) => TypeTag::CycleTime,
            Value::PenaltyShot(..) => TypeTag::PenaltyShot,
            Value::PrimaryState(..) => TypeTag::PrimaryState,
        }
    }
}

/// A named, typed storage cell: created lazily on first declared binding,
/// overwritten whole on each publish, never deleted during a run.
pub struct Slot {
    /// Numeric identity of the path, the primary access key.
    pub path_id: u64,
    /// The hierarchical path string, kept for introspection only.
    pub path: String,
    /// The declared type of the slot.
    pub tag: TypeTag,
    /// The latest published value, or nothing if never published.
    pub value: Option<Value>,
    /// Monotonic publish counter: zero exactly while never published.
    pub version: u64,
}

/// Binding-time failure: the slot exists under another declared type.
#[derive(Clone, Copy, Debug, PartialEq, Eq, Structural)]
pub enum BindError {
    TypeMismatch,
}

/// No two slots share a path id.
pub open spec fn slot_ids_unique(slots: Seq<Slot>) -> bool {
    forall|i: int, j: int|
        0 <= i < j < slots.len() ==> slots[i].path_id != slots[j].path_id
}

/// Every slot is consistent: unpublished exactly while at version zero,
/// and holding only a value of its declared type.
pub open spec fn slots_well_formed(slots: Seq<Slot>) -> bool {
    forall|i: int|
        0 <= i < slots.len() ==> {
            &&& (slots[i].value is None <==> slots[i].version == 0)
            &&& (slots[i].value is Some ==> tag_of(slots[i].value->0) == slots[i].tag)
        }
}

/// What a publish does to the slot sequence: the addressed slot holds the
/// whole new value at the next version, every other slot is untouched.
pub open spec fn spec_publish(slots: Seq<Slot>, index: int, v: Value) -> Seq<Slot>
    recommends
        0 <= index < slots.len(),
{
    slots.update(
        index,
        Slot {
            value: Some(v),
            version: if slots[index].version < u64::MAX {
                (slots[index].version + 1) as u64
            } else {
                u64::MAX
            },
            ..slots[index]
        },
    )
}

/// The path-addressable registry shared by all cyclers.
pub struct ValueStore {
    pub slots: Vec<Slot>,
}

impl ValueStore {
    /// The store's invariant: unique path ids and consistent slots.
    pub open spec fn well_formed(&self) -> bool {
        slot_ids_unique(self.slots@) && slots_well_formed(self.slots@)
    }

    /// An empty store.
    pub fn new() -> (store: ValueStore)
        ensures
            store.well_formed(),
            store.slots@.len() == 0,
    {
        ValueStore { slots: Vec::new() }
    }

    /// The index of the slot with the given path id, if one exists.
    pub fn find(&self, path_id: u64) -> (r: Option<usize>)
        ensures
            match r {
                Some(i) => i < self.slots@.len() && self.slots@[i as int].path_id == path_id,
                None => forall|i: int|
                    0 <= i < self.slots@.len() ==> self.slots@[i].path_id != path_id,
            },
    {
        let mut i: usize = 0;
        while i < self.slots.len()
            invariant
                i <= self.slots@.len(),
                forall|j: int| 0 <= j < i ==> self.slots@[j].path_id != path_id,
            decreases self.slots@.len() - i,
        {
            if self.slots[i].path_id == path_id {
                return Some(i);
            }
            i += 1;
        }
        None
    }

    /// Resolves a declared binding once: finds the slot for the path,
    /// creating it lazily if it never existed, and validates the declared
    /// type against the slot's. Returns the slot index every later access
    /// uses, or the binding-time type mismatch.
    pub fn bind(&mut self, path_id: u64, path: String, tag: TypeTag) -> (r: Result<
        usize,
        BindError,
    >)
        requires
            old(self).well_formed(),
        ensures
            final(self).well_formed(),
            match r {
                Ok(i) => {
                    &&& i < final(self).slots@.len()
                    &&& i <= old(self).slots@.len()
                    &&& final(self).slots@[i as int].path_id == path_id
                    &&& final(self).slots@[i as int].tag == tag
                    &&& (i < old(self).slots@.len() ==> final(self).slots@ == old(self).slots@)
                    &&& (i == old(self).slots@.len() ==> {
                        &&& final(self).slots@.len() == old(self).slots@.len() + 1
                        &&& final(self).slots@ =~= old(self).slots@.push(
                            final(self).slots@[i as int],
                        )
                        &&& final(self).slots@[i as int].value is None
                        &&& final(self).slots@[i as int].version == 0
                        &&& final(self).slots@[i as int].path@ == path@
                    })
                },
                Err(BindError::TypeMismatch) => {
                    &&& final(self).slots@ == old(self).slots@
                    &&& exists|i: int|
                        0 <= i < old(self).slots@.len() && old(self).slots@[i].path_id == path_id
                            && old(self).slots@[i].tag != tag
                },
            },
    {
        match self.find(path_id) {
            Some(i) => {
                if self.slots[i].tag == tag {
                    Ok(i)
                } else {
                    Err(BindError::TypeMismatch)
                }
            },
            None => {
                let i = self.slots.len();
                self.slots.push(Slot { path_id, path, tag, value: None, version: 0 });
                Ok(i)
            },
        }
    }

    /// Publishes a value: overwrites the slot's value whole and advances
    /// its version, leaving every other slot untouched.
    pub fn publish(&mut self, index: usize, v: Value)
        requires
            old(self).well_formed(),
            index < old(self).slots@.len(),
            tag_of(v) == old(self).slots@[index as int].tag,
        ensures
            final(self).well_formed(),
            final(self).slots@ == spec_publish(old(self).slots@, index as int, v),
            final(self).slots@[index as int].value == Some(v),
            final(self).slots@[index as int].version >= old(self).slots@[index as int].version,
            old(self).slots@[index as int].version < u64::MAX
                ==> final(self).slots@[index as int].version
                == old(self).slots@[index as int].version + 1,
    {
        let slot = &mut self.slots[index];
        slot.value = Some(v);
        if slot.version < u64::MAX {
            slot.version = slot.version + 1;
        }
        proof {
            assert(final(self).slots@ =~= spec_publish(old(self).slots@, index as int, v));
        }
    }

    /// The latest published value of a slot, or nothing if the slot was
    /// never published.
    pub fn read(&self, index: usize) -> (r: Option<&Value>)
        requires
            index < self.slots@.len(),
        ensures
            match r {
                Some(v) => self.slots@[index as int].value == Some(*v),
                None => self.slots@[index as int].value is None,
            },
    {
        self.slots[index].value.as_ref()
    }

    /// The publish counter of a slot; comparing it against a remembered
    /// version detects "no new data since last read".
    pub fn version(&self, index: usize) -> (r: u64)
        requires
            index < self.slots@.len(),
        ensures
            r == self.slots@[index as int].version,
    {
        self.slots[index].version
    }

    /// The path string of a slot, for introspection and telemetry.
    pub fn path_of(&self, index: usize) -> (r: &String)
        requires
            index < self.slots@.len(),
        ensures
            r@ == self.slots@[index as int].path@,
    {
        &self.slots[index].path
    }
}

/// A publish is never torn: afterwards every slot holds either exactly the
/// value it held before or exactly the value published, never a mixture,
/// and no slot other than the addressed one moved at all.
pub proof fn lemma_publish_is_whole(slots: Seq<Slot>, index: int, v: Value)
    requires
        0 <= index < slots.len(),
    ensures
        forall|j: int|
            0 <= j < slots.len() ==> {
                spec_publish(slots, index, v)[j].value == slots[j].value || spec_publish(
                    slots,
                    index,
                    v,
                )[j].value == Some(v)
            },
        forall|j: int|
            0 <= j < slots.len() && j != index ==> spec_publish(slots, index, v)[j] == slots[j],
{
}

/// Versions are monotonic: a publish never lowers the addressed slot's
/// version, and leaves every other version unchanged.
pub proof fn lemma_version_monotonic(slots: Seq<Slot>, index: int, v: Value)
    requires
        0 <= index < slots.len(),
    ensures
        forall|j: int|
            0 <= j < slots.len() ==> spec_publish(slots, index, v)[j].version >= slots[j].version,
{
}

} // verus!
