//! The AudioServerPlugin object tree.
//!
//! Core Audio addresses everything a plug-in exposes by
//! [`AudioObjectId`]. [`ObjectMap`] is the tree materialised from a
//! driver's [`DeviceSpec`]: it assigns a stable id to the plug-in,
//! the device, and each stream, and answers the two questions the
//! property dispatcher needs — *what* is this id, and *what does
//! this id own*.
//!
//! | Id | Object |
//! |---:|---|
//! | `1` | the plug-in |
//! | `2` | the device |
//! | `3`… | the streams, in input-then-output order, present ones only |

use vstd::prelude::*;

use crate::device::{spec_stream, DeviceSpec};
use crate::object::{AudioObjectId, ObjectKind};
use crate::property::{PropertyScope, SCOPE_GLOBAL, SCOPE_INPUT, SCOPE_OUTPUT};
use crate::stream::{StreamDirection, StreamSpec};

verus! {

/// What an [`AudioObjectId`] resolves to within an [`ObjectMap`].
#[derive(Copy, Clone, PartialEq, Eq, Hash, Debug, Structural)]
pub enum Object {
    /// The plug-in object itself.
    PlugIn,
    /// The driver's device.
    Device,
    /// One of the device's streams.
    Stream(StreamDirection),
}

/// The kind of each object.
pub open spec fn object_kind(o: Object) -> ObjectKind {
    match o {
        Object::PlugIn => ObjectKind::PlugIn,
        Object::Device => ObjectKind::Device,
        Object::Stream(_) => ObjectKind::Stream,
    }
}

impl Object {
    /// The [`ObjectKind`] — and therefore the class id — of this
    /// object.
    pub fn kind(self) -> (r: ObjectKind)
        ensures
            r == object_kind(self),
    {
        match self {
            Object::PlugIn => ObjectKind::PlugIn,
            Object::Device => ObjectKind::Device,
            Object::Stream(_) => ObjectKind::Stream,
        }
    }
}

/// The id of the device in the tree of any spec.
pub open spec fn tree_device_id() -> AudioObjectId {
    AudioObjectId(2)
}

/// The id of the stream carrying `direction`: the streams follow the
/// device in input-then-output order, present ones only.
pub open spec fn tree_stream_id(spec: DeviceSpec, direction: StreamDirection) -> Option<AudioObjectId> {
    match direction {
        StreamDirection::Input => if spec.input is Some {
            Some(AudioObjectId(3))
        } else {
            None
        },
        StreamDirection::Output => if spec.output is Some {
            if spec.input is Some {
                Some(AudioObjectId(4))
            } else {
                Some(AudioObjectId(3))
            }
        } else {
            None
        },
    }
}

/// What an id names in the tree of `spec`.
pub open spec fn tree_resolve(spec: DeviceSpec, id: AudioObjectId) -> Option<Object> {
    if id.0 == 1 {
        Some(Object::PlugIn)
    } else if id == tree_device_id() {
        Some(Object::Device)
    } else if tree_stream_id(spec, StreamDirection::Input) == Some(id) {
        Some(Object::Stream(StreamDirection::Input))
    } else if tree_stream_id(spec, StreamDirection::Output) == Some(id) {
        Some(Object::Stream(StreamDirection::Output))
    } else {
        None
    }
}

/// The ids of an optional stream, as a sequence of zero or one.
pub open spec fn optional_id(id: Option<AudioObjectId>) -> Seq<AudioObjectId> {
    match id {
        Some(i) => seq![i],
        None => Seq::empty(),
    }
}

/// Every id in the tree, in tree order: plug-in, device, streams.
pub open spec fn tree_all_ids(spec: DeviceSpec) -> Seq<AudioObjectId> {
    seq![AudioObjectId(1), tree_device_id()] + optional_id(tree_stream_id(spec, StreamDirection::Input))
        + optional_id(tree_stream_id(spec, StreamDirection::Output))
}

/// The device's stream ids filtered to `scope`: the global scope
/// gives every stream (input first), the input and output scopes
/// give that direction's stream, any other scope gives none.
pub open spec fn tree_device_streams(spec: DeviceSpec, scope: PropertyScope) -> Seq<AudioObjectId> {
    let want_input = scope.0.0 == SCOPE_GLOBAL || scope.0.0 == SCOPE_INPUT;
    let want_output = scope.0.0 == SCOPE_GLOBAL || scope.0.0 == SCOPE_OUTPUT;
    (if want_input {
        optional_id(tree_stream_id(spec, StreamDirection::Input))
    } else {
        Seq::empty()
    }) + (if want_output {
        optional_id(tree_stream_id(spec, StreamDirection::Output))
    } else {
        Seq::empty()
    })
}

/// The children of `id`, filtered to `scope`: the device for the
/// plug-in at the global scope, the device's streams for the device,
/// and nothing otherwise.
pub open spec fn tree_owned(spec: DeviceSpec, id: AudioObjectId, scope: PropertyScope) -> Seq<AudioObjectId> {
    match tree_resolve(spec, id) {
        Some(Object::PlugIn) => if scope.0.0 == SCOPE_GLOBAL {
            seq![tree_device_id()]
        } else {
            Seq::empty()
        },
        Some(Object::Device) => tree_device_streams(spec, scope),
        _ => Seq::empty(),
    }
}

/// The parent of `id`: the unknown id `0` for the plug-in, `None`
/// for an id outside the tree.
pub open spec fn tree_owner(spec: DeviceSpec, id: AudioObjectId) -> Option<AudioObjectId> {
    match tree_resolve(spec, id) {
        Some(Object::PlugIn) => Some(AudioObjectId(0)),
        Some(Object::Device) => Some(AudioObjectId(1)),
        Some(Object::Stream(_)) => Some(tree_device_id()),
        None => None,
    }
}

/// The object tree for one driver, materialised from its
/// [`DeviceSpec`]. Its view is that spec: every id it reports is
/// determined by the spec.
pub struct ObjectMap {
    spec: DeviceSpec,
    device_id: AudioObjectId,
    input_stream_id: Option<AudioObjectId>,
    output_stream_id: Option<AudioObjectId>,
}

impl View for ObjectMap {
    type V = DeviceSpec;

    closed spec fn view(&self) -> DeviceSpec {
        self.spec
    }
}

impl ObjectMap {
    #[verifier::type_invariant]
    spec fn ids_follow_spec(self) -> bool {
        &&& self.device_id == tree_device_id()
        &&& self.input_stream_id == tree_stream_id(self.spec, StreamDirection::Input)
        &&& self.output_stream_id == tree_stream_id(self.spec, StreamDirection::Output)
    }

    /// Build the object tree for `spec`, assigning ids from `2`
    /// onwards: the device first, then the streams in
    /// input-then-output order, skipping a direction the device does
    /// not have.
    pub fn new(spec: DeviceSpec) -> (r: Self)
        ensures
            r@ == spec,
    {
        let mut next: u32 = 2;
        let device_id = AudioObjectId::from_u32(next);
        next += 1;
        let input_stream_id = match spec.input() {
            Some(_) => {
                let id = AudioObjectId::from_u32(next);
                next += 1;
                Some(id)
            },
            None => None,
        };
        let output_stream_id = match spec.output() {
            Some(_) => Some(AudioObjectId::from_u32(next)),
            None => None,
        };
        ObjectMap { spec, device_id, input_stream_id, output_stream_id }
    }

    /// The driver's [`DeviceSpec`].
    pub fn spec(&self) -> (r: &DeviceSpec)
        ensures
            *r == self@,
    {
        &self.spec
    }

    /// The plug-in object's id — always `1`.
    pub fn plugin_id(&self) -> (r: AudioObjectId)
        ensures
            r.0 == 1,
    {
        AudioObjectId::PLUGIN()
    }

    /// The device object's id.
    pub fn device_id(&self) -> (r: AudioObjectId)
        ensures
            r == tree_device_id(),
    {
        proof {
            use_type_invariant(self);
        }
        self.device_id
    }

    /// The id of the stream carrying `direction`, or `None` if the
    /// device has no such stream.
    pub fn stream_id(&self, direction: StreamDirection) -> (r: Option<AudioObjectId>)
        ensures
            r == tree_stream_id(self@, direction),
    {
        proof {
            use_type_invariant(self);
        }
        match direction {
            StreamDirection::Input => self.input_stream_id,
            StreamDirection::Output => self.output_stream_id,
        }
    }

    /// The [`StreamSpec`] for `direction`, or `None` if the device
    /// has no such stream.
    pub fn stream_spec(&self, direction: StreamDirection) -> (r: Option<StreamSpec>)
        ensures
            r == spec_stream(self@, direction),
    {
        self.spec.stream(direction)
    }

    /// Resolve an id to the [`Object`] it names, or `None` if the id
    /// is not part of this tree.
    pub fn resolve(&self, id: AudioObjectId) -> (r: Option<Object>)
        ensures
            r == tree_resolve(self@, id),
    {
        proof {
            use_type_invariant(self);
        }
        if id.0 == 1 {
            return Some(Object::PlugIn);
        }
        if id.0 == self.device_id.0 {
            return Some(Object::Device);
        }
        if let Some(input) = self.input_stream_id {
            if input.0 == id.0 {
                return Some(Object::Stream(StreamDirection::Input));
            }
        }
        if let Some(output) = self.output_stream_id {
            if output.0 == id.0 {
                return Some(Object::Stream(StreamDirection::Output));
            }
        }
        None
    }

    /// `true` iff `id` is part of this tree.
    pub fn contains(&self, id: AudioObjectId) -> (r: bool)
        ensures
            r == (tree_resolve(self@, id) is Some),
    {
        self.resolve(id).is_some()
    }

    /// Every id in the tree, in tree order: plug-in, device, then
    /// streams.
    pub fn all_ids(&self) -> (r: Vec<AudioObjectId>)
        ensures
            r@ == tree_all_ids(self@),
    {
        proof {
            use_type_invariant(self);
        }
        let mut ids: Vec<AudioObjectId> = Vec::new();
        ids.push(self.plugin_id());
        ids.push(self.device_id);
        if let Some(input) = self.input_stream_id {
            ids.push(input);
        }
        if let Some(output) = self.output_stream_id {
            ids.push(output);
        }
        assert(ids@ =~= tree_all_ids(self@));
        ids
    }

    /// The objects `id` owns (its children in the tree), filtered to
    /// `scope`: the plug-in owns the device, at the global scope (the
    /// plug-in's only scope); the device owns its streams, narrowed
    /// by an input or output scope; a stream owns nothing; an id
    /// outside the tree, or a scope that does not apply, owns
    /// nothing.
    pub fn owned_objects(&self, id: AudioObjectId, scope: PropertyScope) -> (r: Vec<AudioObjectId>)
        ensures
            r@ == tree_owned(self@, id, scope),
    {
        match self.resolve(id) {
            Some(Object::PlugIn) => {
                let mut ids: Vec<AudioObjectId> = Vec::new();
                if scope.0.0 == SCOPE_GLOBAL {
                    ids.push(self.device_id());
                    assert(ids@ =~= seq![tree_device_id()]);
                } else {
                    assert(ids@ =~= Seq::<AudioObjectId>::empty());
                }
                ids
            },
            Some(Object::Device) => self.device_streams(scope),
            _ => {
                let ids: Vec<AudioObjectId> = Vec::new();
                assert(ids@ =~= Seq::<AudioObjectId>::empty());
                ids
            },
        }
    }

    /// The device's stream ids, filtered to `scope` (see
    /// [`tree_device_streams`]).
    pub fn device_streams(&self, scope: PropertyScope) -> (r: Vec<AudioObjectId>)
        ensures
            r@ == tree_device_streams(self@, scope),
    {
        proof {
            use_type_invariant(self);
        }
        let mut ids: Vec<AudioObjectId> = Vec::new();
        let code = scope.0.0;
        let want_input = code == SCOPE_GLOBAL || code == SCOPE_INPUT;
        let want_output = code == SCOPE_GLOBAL || code == SCOPE_OUTPUT;
        if want_input {
            if let Some(input) = self.input_stream_id {
                ids.push(input);
            }
        }
        if want_output {
            if let Some(output) = self.output_stream_id {
                ids.push(output);
            }
        }
        assert(ids@ =~= tree_device_streams(self@, scope));
        ids
    }

    /// The id of the object that owns `id` (its parent): the device
    /// for a stream, the plug-in for the device, the unknown id `0`
    /// for the plug-in, and `None` for an id not in the tree.
    pub fn owner_of(&self, id: AudioObjectId) -> (r: Option<AudioObjectId>)
        ensures
            r == tree_owner(self@, id),
    {
        match self.resolve(id) {
            Some(Object::PlugIn) => Some(AudioObjectId::UNKNOWN()),
            Some(Object::Device) => Some(self.plugin_id()),
            Some(Object::Stream(_)) => Some(self.device_id()),
            None => None,
        }
    }
}

/// The tree is consistent: every id it lists resolves, every id that
/// resolves is listed, no id is listed twice, and every child listed
/// under a parent names that parent as its owner.
pub proof fn lemma_tree_consistent(spec: DeviceSpec)
    ensures
        forall|i: int|
            0 <= i < tree_all_ids(spec).len() ==> (tree_resolve(spec, #[trigger] tree_all_ids(spec)[i])
                is Some),
        forall|id: AudioObjectId| (tree_resolve(spec, id) is Some) ==> tree_all_ids(spec).contains(id),
        forall|i: int, j: int|
            0 <= i < j < tree_all_ids(spec).len() ==> tree_all_ids(spec)[i] != tree_all_ids(
                spec,
            )[j],
        forall|p: AudioObjectId, scope: PropertyScope, k: int|
            0 <= k < tree_owned(spec, p, scope).len() ==> tree_owner(
                spec,
                #[trigger] tree_owned(spec, p, scope)[k],
            ) == Some(p),
{
    let ids = tree_all_ids(spec);
    assert forall|id: AudioObjectId| (tree_resolve(spec, id) is Some) implies ids.contains(id) by {
        if id.0 == 1 {
            assert(ids[0] == id);
        } else if id.0 == 2 {
            assert(ids[1] == id);
        } else if tree_stream_id(spec, StreamDirection::Input) == Some(id) {
            assert(ids[2] == id);
        } else {
            assert(ids[ids.len() - 1] == id);
        }
    }
    assert forall|p: AudioObjectId, scope: PropertyScope, k: int|
        0 <= k < tree_owned(spec, p, scope).len() implies tree_owner(
        spec,
        #[trigger] tree_owned(spec, p, scope)[k],
    ) == Some(p) by {
        let c = tree_owned(spec, p, scope)[k];
        match tree_resolve(spec, p) {
            Some(Object::PlugIn) => {
                assert(p.0 == 1);
            },
            Some(Object::Device) => {
                assert(p == tree_device_id());
            },
            _ => {},
        }
    }
}

} // verus!
