//! The configuration of a galaxy.

use vstd::prelude::*;
use crate::scalar::Scalar;

verus! {

/// What a galaxy is generated from. Each setter hands back a new
/// configuration and leaves every other option as it was.
#[derive(Clone, Copy, Debug)]
pub struct GalaxyBuilder {
    /// How many outliers are placed.
    pub nb_loners: u64,
    /// The base curvature of an arm, in radians.
    pub arm_slope: Scalar,
    /// The largest distance of a cloud point from its node, and the length of
    /// an arm's link.
    pub cloud_radius: Scalar,
    /// How many cloud candidates are drawn around each node.
    pub cloud_population: u64,
    /// How many arms leave the root.
    pub nb_arms: u64,
    /// How fast the lateral branches widen along an arm.
    pub arm_width_factor: Scalar,
    /// How many links an arm has.
    pub nb_arm_bones: u64,
    /// By how much the curvature's divisor grows with every link.
    pub slope_factor: Scalar,
    /// The least distance kept between a cloud point and the nodes it is
    /// checked against, if any is asked for.
    pub min_distance: Option<Scalar>,
}

impl GalaxyBuilder {
    /// The configuration in use when nothing is set.
    pub open spec fn initial() -> GalaxyBuilder {
        GalaxyBuilder {
            min_distance: None,
            arm_width_factor: Scalar { bits: 0x3fb0_0000_0000_0000 },
            nb_arms: 5,
            nb_loners: 16,
            arm_slope: Scalar { bits: 0x3fd9_21fb_5444_2d18 },
            nb_arm_bones: 12,
            cloud_radius: Scalar { bits: 0x4030_0000_0000_0000 },
            cloud_population: 2,
            slope_factor: Scalar { bits: 0x3fec_cccc_cccc_cccd },
        }
    }

    /// Whether a galaxy can be generated from this configuration: a least
    /// distance, where one is set, must not exceed the cloud radius.
    pub open spec fn accepted(self) -> bool {
        match self.min_distance {
            Some(least) => !self.cloud_radius.below(least),
            None => true,
        }
    }

    /// See [`GalaxyBuilder::accepted`].
    pub fn is_accepted(&self) -> (r: bool)
        ensures
            r == self.accepted(),
    {
        match self.min_distance {
            Some(least) => !least.gt(self.cloud_radius),
            None => true,
        }
    }

    /// Sets how many links an arm has.
    pub fn nb_arm_bones(self, nb_arm_bones: u64) -> (r: Self)
        ensures
            r == (GalaxyBuilder { nb_arm_bones, ..self }),
    {
        GalaxyBuilder { nb_arm_bones, ..self }
    }

    /// Sets by how much the curvature's divisor grows with every link.
    pub fn slope_factor(self, slope_factor: Scalar) -> (r: Self)
        ensures
            r == (GalaxyBuilder { slope_factor, ..self }),
    {
        GalaxyBuilder { slope_factor, ..self }
    }

    /// Sets how fast the lateral branches widen along an arm.
    pub fn arm_width_factor(self, arm_width_factor: Scalar) -> (r: Self)
        ensures
            r == (GalaxyBuilder { arm_width_factor, ..self }),
    {
        GalaxyBuilder { arm_width_factor, ..self }
    }

    /// Sets how many arms leave the root.
    pub fn nb_arms(self, nb_arms: u64) -> (r: Self)
        ensures
            r == (GalaxyBuilder { nb_arms, ..self }),
    {
        GalaxyBuilder { nb_arms, ..self }
    }

    /// Sets how many outliers are placed.
    pub fn nb_loners(self, nb_loners: u64) -> (r: Self)
        ensures
            r == (GalaxyBuilder { nb_loners, ..self }),
    {
        GalaxyBuilder { nb_loners, ..self }
    }

    /// Sets the base curvature of an arm, in radians.
    pub fn arm_slope(self, arm_slope: Scalar) -> (r: Self)
        ensures
            r == (GalaxyBuilder { arm_slope, ..self }),
    {
        GalaxyBuilder { arm_slope, ..self }
    }

    /// Sets the cloud radius, which is also the length of an arm's link.
    pub fn cloud_radius(self, cloud_radius: Scalar) -> (r: Self)
        ensures
            r == (GalaxyBuilder { cloud_radius, ..self }),
    {
        GalaxyBuilder { cloud_radius, ..self }
    }

    /// Sets how many cloud candidates are drawn around each node.
    pub fn cloud_population(self, cloud_population: u64) -> (r: Self)
        ensures
            r == (GalaxyBuilder { cloud_population, ..self }),
    {
        GalaxyBuilder { cloud_population, ..self }
    }

    /// Sets the least distance kept around a cloud point, or none.
    pub fn min_distance(self, min_distance: Option<Scalar>) -> (r: Self)
        ensures
            r == (GalaxyBuilder { min_distance, ..self }),
    {
        GalaxyBuilder { min_distance, ..self }
    }
}

impl Default for GalaxyBuilder {
    /// The configuration in use when nothing is set.
    fn default() -> (r: Self)
        ensures
            r == GalaxyBuilder::initial(),
    {
        GalaxyBuilder {
            min_distance: None,
            arm_width_factor: Scalar { bits: 0x3fb0_0000_0000_0000 },
            nb_arms: 5,
            nb_loners: 16,
            arm_slope: Scalar { bits: 0x3fd9_21fb_5444_2d18 },
            nb_arm_bones: 12,
            cloud_radius: Scalar { bits: 0x4030_0000_0000_0000 },
            cloud_population: 2,
            slope_factor: Scalar { bits: 0x3fec_cccc_cccc_cccd },
        }
    }
}

} // verus!
