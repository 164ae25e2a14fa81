//! The two collider shapes a controller can have.

use vstd::prelude::*;
use crate::fixed::{fraction, lemma_product_bound, magnitude, multiply, product, LIMIT, ONE};

verus! {

/// The shape of a controller's collider, chosen when the controller is made.
/// Both shapes stand upright; their height follows the controller's height.
#[derive(Clone, Copy, Debug, PartialEq, Eq, Structural)]
pub enum ColliderShape {
    Capsule { radius: i64 },
    Cylinder { radius: i64 },
}

/// The size of an upright capsule or cylinder: what the physics world has to
/// be told about the collider after its height changed, and the shape of a
/// probe.
#[derive(Clone, Copy, Debug, PartialEq, Eq, Structural)]
pub enum ColliderSize {
    /// A capsule whose segment runs from `-half_segment` to `half_segment`
    /// along the vertical axis.
    Capsule { half_segment: i64, radius: i64 },
    /// A cylinder of the given half height.
    Cylinder { half_height: i64, radius: i64 },
}

impl ColliderShape {
    /// The radius of the collider.
    pub open spec fn radius(self) -> int {
        match self {
            ColliderShape::Capsule { radius } => radius as int,
            ColliderShape::Cylinder { radius } => radius as int,
        }
    }

    /// The radius is a storable non-negative quantity.
    pub open spec fn wf(self) -> bool {
        magnitude(self.radius())
    }

    /// Half the vertical extent of the collider's defining part at the
    /// given height: for a capsule the half length of its segment, which is
    /// half the height less the radius; for a cylinder its half height.
    pub open spec fn half_extent(self, height: int) -> int {
        match self {
            ColliderShape::Capsule { radius } => height / 2 - radius,
            ColliderShape::Cylinder { .. } => height / 2,
        }
    }

    /// `size` is the size of this collider at the given height, with its
    /// radius multiplied by `scale`.
    pub open spec fn has_size(self, size: ColliderSize, height: int, scale: int) -> bool {
        match size {
            ColliderSize::Capsule { half_segment, radius } => {
                &&& self is Capsule
                &&& half_segment == self.half_extent(height)
                &&& radius == product(self.radius(), scale)
            },
            ColliderSize::Cylinder { half_height, radius } => {
                &&& self is Cylinder
                &&& half_height == self.half_extent(height)
                &&& radius == product(self.radius(), scale)
            },
        }
    }

    /// Tells whether the collider is a cylinder.
    pub fn is_cylinder(&self) -> (r: bool)
        ensures
            r == (*self is Cylinder),
    {
        match self {
            ColliderShape::Capsule { .. } => false,
            ColliderShape::Cylinder { .. } => true,
        }
    }

    /// Tells whether the radius is a storable non-negative quantity.
    pub fn is_valid(&self) -> (r: bool)
        ensures
            r == self.wf(),
    {
        match self {
            ColliderShape::Capsule { radius } => 0 <= *radius && *radius <= LIMIT,
            ColliderShape::Cylinder { radius } => 0 <= *radius && *radius <= LIMIT,
        }
    }

    /// The size of the collider at the given height.
    pub fn resized(&self, height: i64) -> (r: ColliderSize)
        requires
            self.wf(),
            magnitude(height as int),
        ensures
            self.has_size(r, height as int, ONE as int),
            match r {
                ColliderSize::Capsule { radius, .. } => radius == self.radius(),
                ColliderSize::Cylinder { radius, .. } => radius == self.radius(),
            },
    {
        self.narrowed(height, ONE)
    }

    /// The size of the collider at the given height, with its radius
    /// multiplied by `scale`.
    pub fn narrowed(&self, height: i64, scale: i64) -> (r: ColliderSize)
        requires
            self.wf(),
            magnitude(height as int),
            fraction(scale as int),
        ensures
            self.has_size(r, height as int, scale as int),
    {
        proof {
            lemma_product_bound(self.radius(), scale as int, LIMIT as int, ONE as int);
        }
        match self {
            ColliderShape::Capsule { radius } => ColliderSize::Capsule {
                half_segment: height / 2 - *radius,
                radius: multiply(*radius, scale),
            },
            ColliderShape::Cylinder { radius } => ColliderSize::Cylinder {
                half_height: height / 2,
                radius: multiply(*radius, scale),
            },
        }
    }
}

} // verus!
