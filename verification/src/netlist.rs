//! The physical netlist model and its construction from decoded records.
//!
//! Every name in the model is a [`VecIndexReference`] into the netlist's
//! string list; deserializing a record turns each string index it holds into
//! a reference to that same entry.

use crate::records::{
    PhysBelPinRecord, PhysBelRecord, PhysNodeRecord, PhysPipRecord, PhysSitePinRecord,
    PhysSitePipRecord, PipSiteRecord, PropertyRecord, RouteBranchRecord, RouteSegmentRecord,
    SiteInstanceRecord, SitePipInversionRecord,
};
use crate::string_table::VecIndexReference;
use vstd::prelude::*;

verus! {

/// A physical netlist: the placement and routing of a design on a device.
pub struct PhysNetlist {
    pub part_name: String,
    pub placements: Vec<CellPlacement>,
    pub phys_cells: Vec<PhysCell>,
    pub str_list: Vec<String>,
    pub site_instances: Vec<SiteInstance>,
    pub properties: Vec<PhysNetlistProperty>,
    pub null_net: PhysNet,
}

/// How a pin of a cell is mapped to a pin of a BEL.
pub struct PinMapping {
    pub cell_pin: VecIndexReference<String>,
    pub bel: VecIndexReference<String>,
    pub bel_pin: VecIndexReference<String>,
    pub is_fixed: bool,
    pub multi_cell_mapping: Option<MultiCellPinMapping>,
}

/// The other cell of a pin mapping that spans several cells.
pub struct MultiCellPinMapping {
    pub multi_cell: VecIndexReference<String>,
    pub multi_type: VecIndexReference<String>,
}

/// Where a cell of the design is placed.
pub struct CellPlacement {
    pub cell_name: VecIndexReference<String>,
    pub cell_type: VecIndexReference<String>,
    pub site: VecIndexReference<String>,
    pub bel: VecIndexReference<String>,
    pub pin_map: Vec<PinMapping>,
    pub other_bels: Vec<VecIndexReference<String>>,
    pub is_bel_fixed: bool,
    pub is_site_fixed: bool,
    pub alt_site_type: VecIndexReference<String>,
}

/// A cell that exists only in the physical netlist.
pub struct PhysCell {
    pub cell_name: VecIndexReference<String>,
    pub phys_type: PhysCellType,
}

/// The kinds of physical-only cells.
#[derive(Clone, Copy, Debug, PartialEq, Eq)]
pub enum PhysCellType {
    Locked,
    Port,
    Gnd,
    Vcc,
}

/// A routed net: its sources and its stubs.
pub struct PhysNet {
    pub name: VecIndexReference<String>,
    pub sources: Vec<RouteBranch>,
    pub stubs: Vec<RouteBranch>,
    pub phys_net_type: NetType,
}

/// The kinds of nets.
#[derive(Clone, Copy, Debug, PartialEq, Eq)]
pub enum NetType {
    Signal,
    Gnd,
    Vcc,
}

/// A segment of a route and the branches that leave it.
pub struct RouteBranch {
    pub route_segment: RouteSegment,
    pub branches: Vec<RouteBranch>,
}

/// The resources a route segment can use.
pub enum RouteSegment {
    BelPinSegment(PhysBelPin),
    SitePinSegment(PhysSitePin),
    PipSegment(PhysPip),
    SitePipSegment(PhysSitePip),
}

/// A BEL of a site.
pub struct PhysBel {
    pub site: VecIndexReference<String>,
    pub bel: VecIndexReference<String>,
}

/// A pin of a BEL of a site.
pub struct PhysBelPin {
    pub site: VecIndexReference<String>,
    pub bel: VecIndexReference<String>,
    pub pin: VecIndexReference<String>,
}

/// A pin of a site.
pub struct PhysSitePin {
    pub site: VecIndexReference<String>,
    pub pin: VecIndexReference<String>,
}

/// A programmable interconnect point of a tile; `site` names the site it
/// belongs to, if any.
pub struct PhysPip {
    pub tile: VecIndexReference<String>,
    pub wire0: VecIndexReference<String>,
    pub wire1: VecIndexReference<String>,
    pub forward: bool,
    pub is_fixed: bool,
    pub site: Option<VecIndexReference<String>>,
}

/// A programmable interconnect point inside a site. `inversion` is `None`
/// where the site PIP cannot invert, and otherwise says whether it inverts.
pub struct PhysSitePip {
    pub site: VecIndexReference<String>,
    pub bel: VecIndexReference<String>,
    pub pin: VecIndexReference<String>,
    pub is_fixed: bool,
    pub inversion: Option<bool>,
}

/// A wire of a tile.
pub struct PhysNode {
    pub tile: VecIndexReference<String>,
    pub wire: VecIndexReference<String>,
    pub is_fixed: bool,
}

/// A site and the type it is used as.
pub struct SiteInstance {
    pub site: VecIndexReference<String>,
    pub site_inst_type: VecIndexReference<String>,
}

/// A key and a value attached to the netlist.
pub struct PhysNetlistProperty {
    pub key: VecIndexReference<String>,
    pub value: VecIndexReference<String>,
}

/// The reference names entry `index` of the string list.
pub open spec fn names(r: VecIndexReference<String>, index: u32) -> bool {
    r.index == index
}

/// A reference that deserializing made from string index `index` reads, from
/// every string list that has an entry `index`, exactly that entry.
pub proof fn lemma_decoded_reference_reads(
    reference: VecIndexReference<String>,
    index: u32,
    str_list: Seq<String>,
)
    requires
        names(reference, index),
        index < str_list.len(),
    ensures
        reference.refers_into(str_list),
        reference.value_in(str_list) == str_list[index as int],
{
}

impl PhysBel {
    /// This BEL is the one `record` describes.
    pub open spec fn decodes(self, record: PhysBelRecord) -> bool {
        &&& names(self.site, record.site)
        &&& names(self.bel, record.bel)
    }

    /// The BEL that `reader` describes.
    pub fn deserialize(reader: PhysBelRecord) -> (bel: PhysBel)
        ensures
            bel.decodes(reader),
    {
        PhysBel {
            site: VecIndexReference::new(reader.site as usize),
            bel: VecIndexReference::new(reader.bel as usize),
        }
    }
}

impl PhysBelPin {
    /// This BEL pin is the one `record` describes.
    pub open spec fn decodes(self, record: PhysBelPinRecord) -> bool {
        &&& names(self.site, record.site)
        &&& names(self.bel, record.bel)
        &&& names(self.pin, record.pin)
    }

    /// The BEL pin that `reader` describes.
    pub fn deserialize(reader: PhysBelPinRecord) -> (pin: PhysBelPin)
        ensures
            pin.decodes(reader),
    {
        PhysBelPin {
            site: VecIndexReference::new(reader.site as usize),
            bel: VecIndexReference::new(reader.bel as usize),
            pin: VecIndexReference::new(reader.pin as usize),
        }
    }
}

impl PhysSitePin {
    /// This site pin is the one `record` describes.
    pub open spec fn decodes(self, record: PhysSitePinRecord) -> bool {
        &&& names(self.site, record.site)
        &&& names(self.pin, record.pin)
    }

    /// The site pin that `reader` describes.
    pub fn deserialize(reader: PhysSitePinRecord) -> (pin: PhysSitePin)
        ensures
            pin.decodes(reader),
    {
        PhysSitePin {
            site: VecIndexReference::new(reader.site as usize),
            pin: VecIndexReference::new(reader.pin as usize),
        }
    }
}

impl PhysPip {
    /// This PIP is the one `record` describes.
    pub open spec fn decodes(self, record: PhysPipRecord) -> bool {
        &&& names(self.tile, record.tile)
        &&& names(self.wire0, record.wire0)
        &&& names(self.wire1, record.wire1)
        &&& self.forward == record.forward
        &&& self.is_fixed == record.is_fixed
        &&& match record.site {
            PipSiteRecord::Site(s) => self.site matches Some(r) && names(r, s),
            _ => self.site is None,
        }
    }

    /// The PIP that `reader` describes.
    pub fn deserialize(reader: PhysPipRecord) -> (pip: PhysPip)
        requires
            reader.is_known(),
        ensures
            pip.decodes(reader),
    {
        let site: Option<VecIndexReference<String>> = match reader.site {
            PipSiteRecord::NoSite => None,
            PipSiteRecord::Site(s) => Some(VecIndexReference::new(s as usize)),
            PipSiteRecord::NotInSchema(_) => None,
        };
        PhysPip {
            tile: VecIndexReference::new(reader.tile as usize),
            wire0: VecIndexReference::new(reader.wire0 as usize),
            wire1: VecIndexReference::new(reader.wire1 as usize),
            forward: reader.forward,
            is_fixed: reader.is_fixed,
            site: site,
        }
    }
}

impl PhysSitePip {
    /// This site PIP is the one `record` describes.
    pub open spec fn decodes(self, record: PhysSitePipRecord) -> bool {
        &&& names(self.site, record.site)
        &&& names(self.bel, record.bel)
        &&& names(self.pin, record.pin)
        &&& self.is_fixed == record.is_fixed
        &&& self.inversion == match record.inversion {
            SitePipInversionRecord::IsInverting(b) => Some(b),
            _ => None,
        }
    }

    /// The site PIP that `reader` describes.
    pub fn deserialize(reader: PhysSitePipRecord) -> (pip: PhysSitePip)
        requires
            reader.is_known(),
        ensures
            pip.decodes(reader),
    {
        let inversion: Option<bool> = match reader.inversion {
            SitePipInversionRecord::IsInverting(b) => Some(b),
            SitePipInversionRecord::Inverts => None,
            SitePipInversionRecord::NotInSchema(_) => None,
        };
        PhysSitePip {
            site: VecIndexReference::new(reader.site as usize),
            bel: VecIndexReference::new(reader.bel as usize),
            pin: VecIndexReference::new(reader.pin as usize),
            is_fixed: reader.is_fixed,
            inversion: inversion,
        }
    }
}

impl PhysNode {
    /// This node is the one `record` describes.
    pub open spec fn decodes(self, record: PhysNodeRecord) -> bool {
        &&& names(self.tile, record.tile)
        &&& names(self.wire, record.wire)
        &&& self.is_fixed == record.is_fixed
    }

    /// The node that `reader` describes.
    pub fn deserialize(reader: PhysNodeRecord) -> (node: PhysNode)
        ensures
            node.decodes(reader),
    {
        PhysNode {
            tile: VecIndexReference::new(reader.tile as usize),
            wire: VecIndexReference::new(reader.wire as usize),
            is_fixed: reader.is_fixed,
        }
    }
}

impl SiteInstance {
    /// This site instance is the one `record` describes.
    pub open spec fn decodes(self, record: SiteInstanceRecord) -> bool {
        &&& names(self.site, record.site)
        &&& names(self.site_inst_type, record.site_type)
    }

    /// The site instance that `reader` describes.
    pub fn deserialize(reader: SiteInstanceRecord) -> (inst: SiteInstance)
        ensures
            inst.decodes(reader),
    {
        SiteInstance {
            site: VecIndexReference::new(reader.site as usize),
            site_inst_type: VecIndexReference::new(reader.site_type as usize),
        }
    }
}

impl PhysNetlistProperty {
    /// This property is the one `record` describes.
    pub open spec fn decodes(self, record: PropertyRecord) -> bool {
        &&& names(self.key, record.key)
        &&& names(self.value, record.value)
    }

    /// The property that `reader` describes.
    pub fn deserialize(reader: PropertyRecord) -> (property: PhysNetlistProperty)
        ensures
            property.decodes(reader),
    {
        PhysNetlistProperty {
            key: VecIndexReference::new(reader.key as usize),
            value: VecIndexReference::new(reader.value as usize),
        }
    }
}

impl RouteSegment {
    /// This segment is the one `record` describes: the same member, decoded.
    pub open spec fn decodes(self, record: RouteSegmentRecord) -> bool {
        match record {
            RouteSegmentRecord::BelPin(r) => self matches RouteSegment::BelPinSegment(p)
                && p.decodes(r),
            RouteSegmentRecord::SitePin(r) => self matches RouteSegment::SitePinSegment(p)
                && p.decodes(r),
            RouteSegmentRecord::Pip(r) => self matches RouteSegment::PipSegment(p) && p.decodes(
                r,
            ),
            RouteSegmentRecord::SitePip(r) => self matches RouteSegment::SitePipSegment(p)
                && p.decodes(r),
            RouteSegmentRecord::NotInSchema(_) => false,
        }
    }

    /// The segment that `reader` describes.
    pub fn deserialize(reader: RouteSegmentRecord) -> (segment: RouteSegment)
        requires
            reader.is_known(),
        ensures
            segment.decodes(reader),
    {
        match reader {
            RouteSegmentRecord::BelPin(b) => RouteSegment::BelPinSegment(
                PhysBelPin::deserialize(b),
            ),
            RouteSegmentRecord::SitePin(s) => RouteSegment::SitePinSegment(
                PhysSitePin::deserialize(s),
            ),
            RouteSegmentRecord::Pip(p) => RouteSegment::PipSegment(PhysPip::deserialize(p)),
            RouteSegmentRecord::SitePip(sp) => RouteSegment::SitePipSegment(
                PhysSitePip::deserialize(sp),
            ),
            RouteSegmentRecord::NotInSchema(_) => unreached(),
        }
    }
}

impl RouteBranch {
    /// This branch is the one `record` describes: its segment decodes the
    /// record's segment, and it has as many branches as the record, the `i`-th
    /// decoding the record's `i`-th.
    pub open spec fn decodes(self, record: RouteBranchRecord) -> bool
        decreases record,
    {
        &&& self.route_segment.decodes(record.segment)
        &&& self.branches@.len() == record.branches@.len()
        &&& forall|i: int|
            0 <= i < record.branches@.len() ==> (#[trigger] self.branches@[i]).decodes(
                record.branches@[i],
            )
    }

    /// The route tree that `reader` describes, branches in the record's order.
    pub fn deserialize(reader: &RouteBranchRecord) -> (branch: RouteBranch)
        requires
            reader.is_known(),
        ensures
            branch.decodes(*reader),
        decreases reader,
    {
        let route_segment = RouteSegment::deserialize(reader.segment);
        let mut branches: Vec<RouteBranch> = Vec::new();
        let n = reader.branches.len();
        let mut i: usize = 0;
        while i < n
            invariant
                n == reader.branches@.len(),
                i <= n,
                reader.is_known(),
                branches@.len() == i,
                forall|j: int| 0 <= j < i ==> (#[trigger] branches@[j]).decodes(reader.branches@[j]),
            decreases n - i,
        {
            let child = &reader.branches[i];
            assert(child.is_known());
            let b = RouteBranch::deserialize(child);
            branches.push(b);
            i = i + 1;
        }
        RouteBranch { route_segment, branches }
    }
}

} // verus!
