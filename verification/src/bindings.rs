//! The resources the pipeline binds, group by group.
//!
//! Group 0 holds the texture and its sampler for the fragment stage, group 1
//! the camera matrix and group 2 the time, both for the vertex stage. Camera
//! and time have a group each, so that the time can be rewritten every frame
//! without touching the camera.

use vstd::prelude::*;

verus! {

/// The size of the camera uniform in bytes: a matrix of four by four 32-bit
/// floats.
pub const CAMERA_BYTES: u64 = 64;

/// The size of the time uniform in bytes: one 32-bit float.
pub const TIME_BYTES: u64 = 4;

/// The number of binding groups.
pub const GROUPS: u32 = 3;

/// The stage of the pipeline that sees a binding.
#[derive(Clone, Copy, Debug, PartialEq, Eq, Structural)]
pub enum Stage {
    Vertex,
    Fragment,
}

/// What is bound.
#[derive(Clone, Copy, Debug, PartialEq, Eq, Structural)]
pub enum Resource {
    /// A two-dimensional texture of floats that are not filtered.
    Texture,
    /// A sampler that does not filter.
    Sampler,
    /// A uniform buffer of `size` bytes, replaced as a whole when written.
    Uniform { size: u64 },
}

/// One entry of a binding group.
#[derive(Clone, Copy, Debug, PartialEq, Eq, Structural)]
pub struct Binding {
    /// The number of the binding within its group.
    pub binding: u32,
    pub visibility: Stage,
    pub resource: Resource,
}

/// A binding group.
#[derive(Clone, Copy, Debug, PartialEq, Eq, Structural)]
pub enum Group {
    /// The texture and its sampler.
    Texture,
    /// The camera's view-projection matrix.
    Camera,
    /// The time since start.
    Time,
}

impl Group {
    /// The number under which the pipeline knows the group.
    pub open spec fn number(self) -> u32 {
        match self {
            Group::Texture => 0,
            Group::Camera => 1,
            Group::Time => 2,
        }
    }

    /// The entries of the group, in the order of their binding numbers.
    pub open spec fn entries(self) -> Seq<Binding> {
        match self {
            Group::Texture => seq![
                Binding { binding: 0, visibility: Stage::Fragment, resource: Resource::Texture },
                Binding { binding: 1, visibility: Stage::Fragment, resource: Resource::Sampler },
            ],
            Group::Camera => seq![
                Binding {
                    binding: 0,
                    visibility: Stage::Vertex,
                    resource: Resource::Uniform { size: CAMERA_BYTES },
                },
            ],
            Group::Time => seq![
                Binding {
                    binding: 0,
                    visibility: Stage::Vertex,
                    resource: Resource::Uniform { size: TIME_BYTES },
                },
            ],
        }
    }

    /// The number under which the pipeline knows the group.
    pub fn index(self) -> (index: u32)
        ensures
            index == self.number(),
            index < GROUPS,
    {
        match self {
            Group::Texture => 0,
            Group::Camera => 1,
            Group::Time => 2,
        }
    }

    /// The group with number `index`; none from `GROUPS` on.
    pub fn from_index(index: u32) -> (group: Option<Group>)
        ensures
            index < GROUPS <==> group is Some,
            group matches Some(g) ==> g.number() == index,
    {
        if index == 0 {
            Some(Group::Texture)
        } else if index == 1 {
            Some(Group::Camera)
        } else if index == 2 {
            Some(Group::Time)
        } else {
            None
        }
    }

    /// The entries of the group, in the order of their binding numbers.
    pub fn bindings(self) -> (bindings: Vec<Binding>)
        ensures
            bindings@ == self.entries(),
    {
        let mut bindings: Vec<Binding> = Vec::new();
        match self {
            Group::Texture => {
                bindings.push(
                    Binding {
                        binding: 0,
                        visibility: Stage::Fragment,
                        resource: Resource::Texture,
                    },
                );
                bindings.push(
                    Binding {
                        binding: 1,
                        visibility: Stage::Fragment,
                        resource: Resource::Sampler,
                    },
                );
            },
            Group::Camera => {
                bindings.push(
                    Binding {
                        binding: 0,
                        visibility: Stage::Vertex,
                        resource: Resource::Uniform { size: CAMERA_BYTES },
                    },
                );
            },
            Group::Time => {
                bindings.push(
                    Binding {
                        binding: 0,
                        visibility: Stage::Vertex,
                        resource: Resource::Uniform { size: TIME_BYTES },
                    },
                );
            },
        }
        proof {
            assert(bindings@ =~= self.entries());
        }
        bindings
    }
}

/// The groups in the order of the pipeline layout: each stands at the place
/// of its number.
pub fn pipeline_groups() -> (groups: Vec<Group>)
    ensures
        groups@.len() == GROUPS,
        forall|i: int| 0 <= i < groups@.len() ==> (#[trigger] groups@[i]).number() == i,
{
    let mut groups: Vec<Group> = Vec::new();
    groups.push(Group::Texture);
    groups.push(Group::Camera);
    groups.push(Group::Time);
    groups
}

/// Within a group the bindings are numbered from 0 without a gap, and all of
/// them are seen by one stage: the fragment stage for the texture group, the
/// vertex stage for camera and time.
pub proof fn lemma_group_entries(group: Group)
    ensures
        group.entries().len() > 0,
        forall|i: int|
            0 <= i < group.entries().len() ==> {
                &&& (#[trigger] group.entries()[i]).binding == i
                &&& group.entries()[i].visibility == (if group == Group::Texture {
                    Stage::Fragment
                } else {
                    Stage::Vertex
                })
            },
{
}

/// No two groups share a number.
pub proof fn lemma_group_numbers_differ(a: Group, b: Group)
    ensures
        a.number() == b.number() <==> a == b,
        a.number() < GROUPS,
{
}

} // verus!
