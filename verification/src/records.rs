//! Decoded records of a physical netlist message.
//!
//! Each record holds, as plain values, what the netlist logic reads of one
//! struct of the `PhysicalNetlist` schema: string-list indices (`StringIdx`,
//! a `UInt32`), flags, and the member of each union that is set. A union
//! whose discriminant the schema does not know is kept as `NotInSchema` with
//! that discriminant.

use vstd::prelude::*;

verus! {

/// `PhysBel`: a BEL of a site.
#[derive(Clone, Copy, Debug, PartialEq, Eq)]
pub struct PhysBelRecord {
    pub site: u32,
    pub bel: u32,
}

/// `PhysBelPin`: a pin of a BEL of a site.
#[derive(Clone, Copy, Debug, PartialEq, Eq)]
pub struct PhysBelPinRecord {
    pub site: u32,
    pub bel: u32,
    pub pin: u32,
}

/// `PhysSitePin`: a pin of a site.
#[derive(Clone, Copy, Debug, PartialEq, Eq)]
pub struct PhysSitePinRecord {
    pub site: u32,
    pub pin: u32,
}

/// The union of `PhysPIP` that says whether the PIP belongs to a site.
#[derive(Clone, Copy, Debug, PartialEq, Eq)]
pub enum PipSiteRecord {
    NoSite,
    Site(u32),
    NotInSchema(u16),
}

/// `PhysPIP`: a programmable interconnect point of a tile.
#[derive(Clone, Copy, Debug, PartialEq, Eq)]
pub struct PhysPipRecord {
    pub tile: u32,
    pub wire0: u32,
    pub wire1: u32,
    pub forward: bool,
    pub is_fixed: bool,
    pub site: PipSiteRecord,
}

/// The union of `PhysSitePIP` on inversion.
#[derive(Clone, Copy, Debug, PartialEq, Eq)]
pub enum SitePipInversionRecord {
    IsInverting(bool),
    Inverts,
    NotInSchema(u16),
}

/// `PhysSitePIP`: a programmable interconnect point inside a site.
#[derive(Clone, Copy, Debug, PartialEq, Eq)]
pub struct PhysSitePipRecord {
    pub site: u32,
    pub bel: u32,
    pub pin: u32,
    pub is_fixed: bool,
    pub inversion: SitePipInversionRecord,
}

/// `PhysNode`: a wire of a tile.
#[derive(Clone, Copy, Debug, PartialEq, Eq)]
pub struct PhysNodeRecord {
    pub tile: u32,
    pub wire: u32,
    pub is_fixed: bool,
}

/// `SiteInstance`: a site and the type it is used as.
#[derive(Clone, Copy, Debug, PartialEq, Eq)]
pub struct SiteInstanceRecord {
    pub site: u32,
    pub site_type: u32,
}

/// `Property`: a key and a value.
#[derive(Clone, Copy, Debug, PartialEq, Eq)]
pub struct PropertyRecord {
    pub key: u32,
    pub value: u32,
}

/// The `routeSegment` union of `RouteBranch`.
#[derive(Clone, Copy, Debug, PartialEq, Eq)]
pub enum RouteSegmentRecord {
    BelPin(PhysBelPinRecord),
    SitePin(PhysSitePinRecord),
    Pip(PhysPipRecord),
    SitePip(PhysSitePipRecord),
    NotInSchema(u16),
}

/// `RouteBranch`: a segment of a route and the branches that leave it.
#[derive(Debug)]
pub struct RouteBranchRecord {
    pub segment: RouteSegmentRecord,
    pub branches: Vec<RouteBranchRecord>,
}

impl PhysPipRecord {
    /// The site union holds a member that the schema knows.
    pub open spec fn is_known(self) -> bool {
        !(self.site is NotInSchema)
    }
}

impl PhysSitePipRecord {
    /// The inversion union holds a member that the schema knows.
    pub open spec fn is_known(self) -> bool {
        !(self.inversion is NotInSchema)
    }
}

impl RouteSegmentRecord {
    /// The union, and every union inside its member, holds a member that the
    /// schema knows.
    pub open spec fn is_known(self) -> bool {
        match self {
            RouteSegmentRecord::BelPin(_) => true,
            RouteSegmentRecord::SitePin(_) => true,
            RouteSegmentRecord::Pip(p) => p.is_known(),
            RouteSegmentRecord::SitePip(p) => p.is_known(),
            RouteSegmentRecord::NotInSchema(_) => false,
        }
    }
}

impl RouteBranchRecord {
    /// Every union of this branch and of all branches below it holds a member
    /// that the schema knows.
    pub open spec fn is_known(self) -> bool
        decreases self,
    {
        &&& self.segment.is_known()
        &&& forall|i: int|
            0 <= i < self.branches@.len() ==> (#[trigger] self.branches@[i]).is_known()
    }
}

} // verus!
