use fpga_netlist::netlist::{
    PhysBel, PhysBelPin, PhysNetlistProperty, PhysNode, PhysPip, PhysSitePin, PhysSitePip,
    RouteBranch, RouteSegment, SiteInstance,
};
use fpga_netlist::records::{
    PhysBelPinRecord, PhysBelRecord, PhysNodeRecord, PhysPipRecord, PhysSitePinRecord,
    PhysSitePipRecord, PipSiteRecord, PropertyRecord, RouteBranchRecord, RouteSegmentRecord,
    SiteInstanceRecord, SitePipInversionRecord,
};

fn strings() -> Vec<String> {
    ["", "SLICE_X0Y0", "AFF", "D", "INT_X0Y0", "EE2BEG0", "WW2END0", "Q", "SLICEL", "KEY", "VALUE"]
        .iter()
        .map(|s| s.to_string())
        .collect()
}

#[test]
fn phys_bel_keeps_indices() {
    let bel = PhysBel::deserialize(PhysBelRecord { site: 1, bel: 2 });
    assert_eq!(bel.site.index, 1);
    assert_eq!(bel.bel.index, 2);
    let t = strings();
    assert_eq!(bel.site.read_value(&t), "SLICE_X0Y0");
    assert_eq!(bel.bel.read_value(&t), "AFF");
}

#[test]
fn phys_bel_pin_keeps_indices() {
    let pin = PhysBelPin::deserialize(PhysBelPinRecord { site: 1, bel: 2, pin: 3 });
    assert_eq!((pin.site.index, pin.bel.index, pin.pin.index), (1, 2, 3));
}

#[test]
fn phys_site_pin_keeps_indices() {
    let pin = PhysSitePin::deserialize(PhysSitePinRecord { site: 1, pin: 7 });
    assert_eq!((pin.site.index, pin.pin.index), (1, 7));
}

#[test]
fn phys_pip_without_site() {
    let pip = PhysPip::deserialize(PhysPipRecord {
        tile: 4,
        wire0: 5,
        wire1: 6,
        forward: true,
        is_fixed: false,
        site: PipSiteRecord::NoSite,
    });
    assert_eq!((pip.tile.index, pip.wire0.index, pip.wire1.index), (4, 5, 6));
    assert!(pip.forward);
    assert!(!pip.is_fixed);
    assert!(pip.site.is_none());
}

#[test]
fn phys_pip_with_site() {
    let pip = PhysPip::deserialize(PhysPipRecord {
        tile: 4,
        wire0: 6,
        wire1: 5,
        forward: false,
        is_fixed: true,
        site: PipSiteRecord::Site(1),
    });
    assert!(!pip.forward);
    assert!(pip.is_fixed);
    assert_eq!(pip.site.map(|s| s.index), Some(1));
}

#[test]
fn phys_site_pip_inverting_flag() {
    let on = PhysSitePip::deserialize(PhysSitePipRecord {
        site: 1,
        bel: 2,
        pin: 3,
        is_fixed: true,
        inversion: SitePipInversionRecord::IsInverting(true),
    });
    assert_eq!((on.site.index, on.bel.index, on.pin.index), (1, 2, 3));
    assert!(on.is_fixed);
    assert_eq!(on.inversion, Some(true));
    let off = PhysSitePip::deserialize(PhysSitePipRecord {
        site: 1,
        bel: 2,
        pin: 3,
        is_fixed: false,
        inversion: SitePipInversionRecord::IsInverting(false),
    });
    assert!(!off.is_fixed);
    assert_eq!(off.inversion, Some(false));
}

#[test]
fn phys_site_pip_without_inversion() {
    let pip = PhysSitePip::deserialize(PhysSitePipRecord {
        site: 1,
        bel: 2,
        pin: 3,
        is_fixed: false,
        inversion: SitePipInversionRecord::Inverts,
    });
    assert_eq!(pip.inversion, None);
}

#[test]
fn phys_node_keeps_tile_and_wire() {
    let node = PhysNode::deserialize(PhysNodeRecord { tile: 4, wire: 5, is_fixed: true });
    assert_eq!((node.tile.index, node.wire.index), (4, 5));
    assert!(node.is_fixed);
}

#[test]
fn site_instance_keeps_site_and_type() {
    let inst = SiteInstance::deserialize(SiteInstanceRecord { site: 1, site_type: 8 });
    assert_eq!(inst.site.index, 1);
    assert_eq!(inst.site_inst_type.read_value(&strings()), "SLICEL");
}

#[test]
fn property_keeps_key_and_value() {
    let p = PhysNetlistProperty::deserialize(PropertyRecord { key: 9, value: 10 });
    let t = strings();
    assert_eq!(p.key.read_value(&t), "KEY");
    assert_eq!(p.value.read_value(&t), "VALUE");
}

#[test]
fn large_indices_are_kept() {
    let bel = PhysBel::deserialize(PhysBelRecord { site: u32::MAX, bel: 0 });
    assert_eq!(bel.site.index, u32::MAX as usize);
    assert_eq!(bel.bel.index, 0);
}

fn leaf(segment: RouteSegmentRecord) -> RouteBranchRecord {
    RouteBranchRecord { segment, branches: Vec::new() }
}

#[test]
fn route_branch_leaf() {
    let b = RouteBranch::deserialize(&leaf(RouteSegmentRecord::BelPin(PhysBelPinRecord {
        site: 1,
        bel: 2,
        pin: 7,
    })));
    assert!(b.branches.is_empty());
    match b.route_segment {
        RouteSegment::BelPinSegment(p) => assert_eq!((p.site.index, p.bel.index, p.pin.index), (1, 2, 7)),
        _ => panic!("expected a BEL pin segment"),
    }
}

#[test]
fn route_branch_site_pin_segment() {
    let b = RouteBranch::deserialize(&leaf(RouteSegmentRecord::SitePin(PhysSitePinRecord {
        site: 1,
        pin: 3,
    })));
    match b.route_segment {
        RouteSegment::SitePinSegment(p) => assert_eq!((p.site.index, p.pin.index), (1, 3)),
        _ => panic!("expected a site pin segment"),
    }
}

#[test]
fn route_branch_tree_keeps_shape_and_order() {
    let pip = PhysPipRecord {
        tile: 4,
        wire0: 5,
        wire1: 6,
        forward: true,
        is_fixed: false,
        site: PipSiteRecord::NoSite,
    };
    let site_pip = PhysSitePipRecord {
        site: 1,
        bel: 2,
        pin: 3,
        is_fixed: false,
        inversion: SitePipInversionRecord::Inverts,
    };
    let record = RouteBranchRecord {
        segment: RouteSegmentRecord::SitePin(PhysSitePinRecord { site: 1, pin: 7 }),
        branches: vec![
            RouteBranchRecord {
                segment: RouteSegmentRecord::Pip(pip),
                branches: vec![leaf(RouteSegmentRecord::SitePip(site_pip))],
            },
            leaf(RouteSegmentRecord::BelPin(PhysBelPinRecord { site: 1, bel: 2, pin: 3 })),
        ],
    };
    let tree = RouteBranch::deserialize(&record);
    assert_eq!(tree.branches.len(), 2);
    match &tree.branches[0].route_segment {
        RouteSegment::PipSegment(p) => {
            assert_eq!((p.tile.index, p.wire0.index, p.wire1.index), (4, 5, 6));
            assert!(p.site.is_none());
        }
        _ => panic!("expected a PIP first"),
    }
    assert_eq!(tree.branches[0].branches.len(), 1);
    match &tree.branches[0].branches[0].route_segment {
        RouteSegment::SitePipSegment(p) => assert_eq!(p.inversion, None),
        _ => panic!("expected a site PIP below the PIP"),
    }
    assert!(tree.branches[0].branches[0].branches.is_empty());
    match &tree.branches[1].route_segment {
        RouteSegment::BelPinSegment(p) => assert_eq!(p.pin.index, 3),
        _ => panic!("expected a BEL pin second"),
    }
    assert!(tree.branches[1].branches.is_empty());
}
