use vstd::prelude::*;

verus! {

/// A vector of the simulation space, as glam stores it.
#[verifier::external_type_specification]
#[verifier::external_body]
pub struct ExVec3(glam::Vec3);

/// Relies on glam's `Vec3::ZERO`: the origin of the simulation space.
#[verifier::external_body]
fn zero_vector() -> (r: glam::Vec3) {
    glam::Vec3::ZERO
}

/// The physical record of one node of a layout: a label, a user payload,
/// where the node is, how fast it moves, how heavy it is and whether it is
/// held in place.
pub struct Node<N> {
    /// A display label; several nodes may share one.
    pub name: String,
    /// The user's payload, never read by the layout.
    pub data: N,
    /// The current position.
    pub location: glam::Vec3,
    /// The current velocity.
    pub velocity: glam::Vec3,
    /// The mass in whole units; acceleration is force divided by it.
    pub mass: u32,
    /// A pinned node still pushes and pulls others but is never moved.
    pub pinned: bool,
}

/// Why a change to a node was refused.
#[derive(Debug, Clone, Copy, PartialEq, Eq, Structural)]
pub enum NodeError {
    /// A node's mass must be positive.
    InvalidConfiguration,
}

impl<N> Node<N> {
    /// A node is well formed when its mass is positive.
    pub open spec fn wf(&self) -> bool {
        self.mass > 0
    }

    /// A node at the origin, at rest, of unit mass and not pinned.
    pub fn new(name: &str, data: N) -> (r: Self)
        ensures
            r.name@ == name@,
            r.data == data,
            r.mass == 1,
            !r.pinned,
            r.wf(),
    {
        Node {
            name: name.to_string(),
            data,
            location: zero_vector(),
            velocity: zero_vector(),
            mass: 1,
            pinned: false,
        }
    }

    /// Sets the mass; a zero mass is refused and leaves the node as it was.
    pub fn set_mass(&mut self, mass: u32) -> (r: Result<(), NodeError>)
        ensures
            mass == 0 ==> r == Err::<(), NodeError>(NodeError::InvalidConfiguration)
                && *final(self) == *old(self),
            mass > 0 ==> r is Ok && final(self).mass == mass
                && final(self).name == old(self).name
                && final(self).data == old(self).data
                && final(self).pinned == old(self).pinned
                && final(self).location == old(self).location
                && final(self).velocity == old(self).velocity,
            old(self).wf() ==> final(self).wf(),
    {
        if mass == 0 {
            return Err(NodeError::InvalidConfiguration);
        }
        self.mass = mass;
        Ok(())
    }

    /// Holds the node in place, or lets it move again.
    pub fn set_pinned(&mut self, pinned: bool)
        ensures
            final(self).pinned == pinned,
            final(self).mass == old(self).mass,
            final(self).name == old(self).name,
            final(self).data == old(self).data,
            final(self).location == old(self).location,
            final(self).velocity == old(self).velocity,
    {
        self.pinned = pinned;
    }
}

} // verus!
