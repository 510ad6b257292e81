use maintenance_engine::shared_types::{AgentId, CoverageBitmap, DimensionIndex, ModuleId, Timestamp};

// ==== ModuleId ====

#[test]
fn test_module_id_constants_exist() {
    assert_eq!(ModuleId::M01().as_str(), "M01");
    assert_eq!(ModuleId::M42().as_str(), "M42");
    assert_eq!(ModuleId::M43().as_str(), "M43");
    assert_eq!(ModuleId::M47().as_str(), "M47");
}

#[test]
fn test_module_id_all_count() {
    assert_eq!(ModuleId::all().len(), 47);
}

#[test]
fn test_module_id_all_unique() {
    let mut seen = std::collections::HashSet::new();
    for id in &ModuleId::all() {
        assert!(seen.insert(id.as_str()), "Duplicate: {}", id.as_str());
    }
}

#[test]
fn test_module_id_number() {
    assert_eq!(ModuleId::M01().number(), Some(1));
    assert_eq!(ModuleId::M10().number(), Some(10));
    assert_eq!(ModuleId::M42().number(), Some(42));
}

#[test]
fn test_module_id_number_custom() {
    let custom = ModuleId::new("custom");
    assert_eq!(custom.number(), None);
}

#[test]
fn test_module_id_layer() {
    assert_eq!(ModuleId::M01().layer(), Some(1));
    assert_eq!(ModuleId::M06().layer(), Some(1));
    assert_eq!(ModuleId::M07().layer(), Some(2));
    assert_eq!(ModuleId::M12().layer(), Some(2));
    assert_eq!(ModuleId::M13().layer(), Some(3));
    assert_eq!(ModuleId::M18().layer(), Some(3));
    assert_eq!(ModuleId::M19().layer(), Some(4));
    assert_eq!(ModuleId::M25().layer(), Some(5));
    assert_eq!(ModuleId::M31().layer(), Some(6));
    assert_eq!(ModuleId::M37().layer(), Some(7));
    assert_eq!(ModuleId::M42().layer(), Some(7));
    assert_eq!(ModuleId::M43().layer(), Some(1));
    assert_eq!(ModuleId::M44().layer(), Some(7));
    assert_eq!(ModuleId::M45().layer(), Some(7));
    assert_eq!(ModuleId::M46().layer(), Some(4));
    assert_eq!(ModuleId::M47().layer(), Some(4));
}

#[test]
fn test_module_id_display() {
    assert_eq!(ModuleId::M04().to_display_string(), "M04");
}

#[test]
fn test_module_id_as_ref_str() {
    let id = ModuleId::M01();
    let s: &str = id.as_ref();
    assert_eq!(s, "M01");
}

#[test]
fn test_module_id_copy() {
    let a = ModuleId::M01();
    let b = a;
    assert_eq!(a, b);
}

#[test]
fn test_module_id_ordering() {
    assert!(ModuleId::M01() < ModuleId::M02());
    assert!(ModuleId::M09() < ModuleId::M10());
}

#[test]
fn test_module_id_hash_set() {
    let mut set = std::collections::HashSet::new();
    set.insert(ModuleId::M01());
    set.insert(ModuleId::M01());
    set.insert(ModuleId::M02());
    assert_eq!(set.len(), 2);
}

#[test]
fn test_module_id_all_layers_covered() {
    for id in &ModuleId::all() {
        assert!(id.layer().is_some(), "{} has no layer", id.as_str());
        assert!(id.number().is_some(), "{} has no number", id.as_str());
    }
}

#[test]
fn test_module_id_layer_boundaries() {
    assert_eq!(ModuleId::M01().layer(), ModuleId::M06().layer());
    assert_ne!(ModuleId::M06().layer(), ModuleId::M07().layer());
    assert_eq!(ModuleId::M07().layer(), ModuleId::M12().layer());
}

#[test]
fn module_id_layer_of_unknown_is_none() {
    assert_eq!(ModuleId::new("M48").layer(), None);
    assert_eq!(ModuleId::new("M00").number(), Some(0));
    assert_eq!(ModuleId::new("X01").number(), None);
}

// ==== AgentId ====

#[test]
fn test_agent_id_system() {
    let id = AgentId::system();
    assert_eq!(id.as_str(), "sys:system");
    assert!(id.is_system());
    assert!(!id.is_human());
}

#[test]
fn test_agent_id_human() {
    let id = AgentId::human();
    assert_eq!(id.as_str(), "human:@0.A");
    assert!(id.is_human());
    assert!(!id.is_system());
}

#[test]
fn test_agent_id_service() {
    let id = AgentId::service("synthex");
    assert_eq!(id.as_str(), "svc:synthex");
    assert!(id.is_service());
}

#[test]
fn test_agent_id_agent() {
    let id = AgentId::agent("a-001");
    assert_eq!(id.as_str(), "agent:a-001");
    assert!(id.is_agent());
}

#[test]
fn test_agent_id_prefix() {
    assert_eq!(AgentId::system().prefix(), "sys");
    assert_eq!(AgentId::human().prefix(), "human");
    assert_eq!(AgentId::service("x").prefix(), "svc");
    assert_eq!(AgentId::agent("y").prefix(), "agent");
}

#[test]
fn agent_id_prefix_without_colon_is_whole_text() {
    assert_eq!(AgentId::from_raw("plain").prefix(), "plain");
    assert_eq!(AgentId::from_raw("a:b:c").prefix(), "a");
}

#[test]
fn test_agent_id_as_ref_str() {
    let id = AgentId::service("san-k7");
    let s: &str = id.as_ref();
    assert_eq!(s, "svc:san-k7");
}

#[test]
fn test_agent_id_into_string() {
    let id = AgentId::human();
    let s: String = id.into();
    assert_eq!(s, "human:@0.A");
}

#[test]
fn test_agent_id_display() {
    assert_eq!(AgentId::system().to_display_string(), "sys:system");
}

#[test]
fn test_agent_id_from_raw() {
    let id = AgentId::from_raw("custom:test");
    assert_eq!(id.as_str(), "custom:test");
    assert!(!id.is_system());
    assert!(!id.is_human());
}

#[test]
fn test_agent_id_equality() {
    assert_eq!(AgentId::system(), AgentId::system());
    assert_ne!(AgentId::system(), AgentId::human());
}

#[test]
fn test_agent_id_ordering() {
    let a = AgentId::agent("a");
    let b = AgentId::agent("b");
    assert!(a < b);
}

#[test]
fn test_agent_id_hash_set() {
    let mut set = std::collections::HashSet::new();
    set.insert(AgentId::system());
    set.insert(AgentId::system());
    set.insert(AgentId::human());
    assert_eq!(set.len(), 2);
}

// ==== Timestamp ====

#[test]
fn test_timestamp_zero() {
    assert_eq!(Timestamp::zero().ticks(), 0);
}

#[test]
fn test_timestamp_from_raw() {
    let ts = Timestamp::from_raw(42);
    assert_eq!(ts.ticks(), 42);
}

#[test]
fn test_timestamp_elapsed_since() {
    let a = Timestamp::from_raw(10);
    let b = Timestamp::from_raw(15);
    assert_eq!(b.elapsed_since(a), 5);
}

#[test]
fn test_timestamp_elapsed_since_saturating() {
    let a = Timestamp::from_raw(20);
    let b = Timestamp::from_raw(10);
    assert_eq!(b.elapsed_since(a), 0);
}

#[test]
fn test_timestamp_within_window() {
    let a = Timestamp::from_raw(100);
    let b = Timestamp::from_raw(105);
    assert!(a.within_window(b, 10));
    assert!(!a.within_window(b, 3));
}

#[test]
fn test_timestamp_within_window_symmetric() {
    let a = Timestamp::from_raw(100);
    let b = Timestamp::from_raw(105);
    assert_eq!(a.within_window(b, 5), b.within_window(a, 5));
}

#[test]
fn timestamp_window_edges() {
    let a = Timestamp::from_raw(100);
    assert!(a.within_window(Timestamp::from_raw(105), 5));
    assert!(!a.within_window(Timestamp::from_raw(106), 5));
    assert!(a.within_window(a, 0));
    assert!(Timestamp::from_raw(u64::MAX).within_window(Timestamp::zero(), u64::MAX));
}

#[test]
fn test_timestamp_display() {
    let ts = Timestamp::from_raw(999);
    assert_eq!(ts.to_display_string(), "T999");
}

#[test]
fn test_timestamp_default_is_zero() {
    assert_eq!(Timestamp::default(), Timestamp::zero());
}

#[test]
fn test_timestamp_copy() {
    let a = Timestamp::from_raw(7);
    let b = a;
    assert_eq!(a, b);
}

#[test]
fn test_timestamp_ordering() {
    let a = Timestamp::from_raw(1);
    let b = Timestamp::from_raw(2);
    assert!(a < b);
    assert!(b > a);
}

#[test]
fn test_timestamp_hash_set() {
    let mut set = std::collections::HashSet::new();
    set.insert(Timestamp::from_raw(1));
    set.insert(Timestamp::from_raw(1));
    set.insert(Timestamp::from_raw(2));
    assert_eq!(set.len(), 2);
}

// ==== DimensionIndex ====

#[test]
fn test_dimension_all_count() {
    assert_eq!(DimensionIndex::all().len(), 12);
}

#[test]
fn test_dimension_indices_sequential() {
    for (i, dim) in DimensionIndex::all().iter().enumerate() {
        assert_eq!(dim.index(), i);
    }
}

#[test]
fn test_dimension_from_index_roundtrip() {
    for dim in &DimensionIndex::all() {
        let recovered = DimensionIndex::from_index(dim.index());
        assert_eq!(recovered, Some(*dim));
    }
}

#[test]
fn test_dimension_from_index_out_of_range() {
    assert_eq!(DimensionIndex::from_index(12), None);
    assert_eq!(DimensionIndex::from_index(255), None);
}

#[test]
fn test_dimension_from_name_roundtrip() {
    for dim in &DimensionIndex::all() {
        let recovered = DimensionIndex::from_name(dim.name());
        assert_eq!(recovered, Some(*dim));
    }
}

#[test]
fn test_dimension_from_name_unknown() {
    assert_eq!(DimensionIndex::from_name("unknown"), None);
}

#[test]
fn test_dimension_names_unique() {
    let mut names = std::collections::HashSet::new();
    for dim in &DimensionIndex::all() {
        assert!(names.insert(dim.name()), "Duplicate name: {}", dim.name());
    }
}

#[test]
fn test_dimension_specific_values() {
    assert_eq!(DimensionIndex::ServiceId.index(), 0);
    assert_eq!(DimensionIndex::HealthScore.index(), 6);
    assert_eq!(DimensionIndex::TemporalContext.index(), 11);
}

#[test]
fn test_dimension_display() {
    assert_eq!(DimensionIndex::ServiceId.to_display_string(), "D0:service_id");
    assert_eq!(DimensionIndex::HealthScore.to_display_string(), "D6:health_score");
}

#[test]
fn test_dimension_equality() {
    assert_eq!(DimensionIndex::Port, DimensionIndex::Port);
    assert_ne!(DimensionIndex::Port, DimensionIndex::Tier);
}

// ==== CoverageBitmap ====

#[test]
fn coverage_empty_and_full_counts() {
    assert_eq!(CoverageBitmap::empty().count(), 0);
    assert!(!CoverageBitmap::empty().is_covered(DimensionIndex::ServiceId));
    let full = CoverageBitmap::full();
    assert_eq!(full.count(), 12);
    for dim in &DimensionIndex::all() {
        assert!(full.is_covered(*dim));
    }
}

#[test]
fn test_coverage_with_dimension() {
    let c = CoverageBitmap::empty()
        .with_dimension(DimensionIndex::HealthScore)
        .with_dimension(DimensionIndex::Uptime);
    assert_eq!(c.count(), 2);
    assert!(c.is_covered(DimensionIndex::HealthScore));
    assert!(c.is_covered(DimensionIndex::Uptime));
    assert!(!c.is_covered(DimensionIndex::Port));
}

#[test]
fn test_coverage_idempotent() {
    let c = CoverageBitmap::empty()
        .with_dimension(DimensionIndex::Port)
        .with_dimension(DimensionIndex::Port);
    assert_eq!(c.count(), 1);
}

#[test]
fn test_coverage_union() {
    let a = CoverageBitmap::empty().with_dimension(DimensionIndex::Port);
    let b = CoverageBitmap::empty().with_dimension(DimensionIndex::Tier);
    let c = a.union(b);
    assert_eq!(c.count(), 2);
    assert!(c.is_covered(DimensionIndex::Port));
    assert!(c.is_covered(DimensionIndex::Tier));
}

#[test]
fn test_coverage_intersection() {
    let a = CoverageBitmap::empty()
        .with_dimension(DimensionIndex::Port)
        .with_dimension(DimensionIndex::Tier);
    let b = CoverageBitmap::empty()
        .with_dimension(DimensionIndex::Tier)
        .with_dimension(DimensionIndex::Synergy);
    let c = a.intersection(b);
    assert_eq!(c.count(), 1);
    assert!(c.is_covered(DimensionIndex::Tier));
}

#[test]
fn test_coverage_covered_dimensions() {
    let c = CoverageBitmap::empty()
        .with_dimension(DimensionIndex::ServiceId)
        .with_dimension(DimensionIndex::TemporalContext);
    let dims = c.covered_dimensions();
    assert_eq!(dims.len(), 2);
    assert_eq!(dims[0], DimensionIndex::ServiceId);
    assert_eq!(dims[1], DimensionIndex::TemporalContext);
}

#[test]
fn test_coverage_uncovered_dimensions() {
    let c = CoverageBitmap::full();
    assert!(c.uncovered_dimensions().is_empty());
    let c2 = CoverageBitmap::empty();
    assert_eq!(c2.uncovered_dimensions().len(), 12);
}

#[test]
fn test_coverage_display() {
    let c = CoverageBitmap::empty().with_dimension(DimensionIndex::Port);
    let display = c.to_display_string();
    assert!(display.contains("1/12"));
}

#[test]
fn coverage_display_exact_text() {
    assert_eq!(CoverageBitmap::empty().to_display_string(), "Coverage(0/12 = 0%)");
    assert_eq!(CoverageBitmap::full().to_display_string(), "Coverage(12/12 = 100%)");
    let one = CoverageBitmap::empty().with_dimension(DimensionIndex::Port);
    assert_eq!(one.to_display_string(), "Coverage(1/12 = 8%)");
    let two = one.with_dimension(DimensionIndex::Tier);
    assert_eq!(two.to_display_string(), "Coverage(2/12 = 17%)");
    let five = CoverageBitmap::from_raw(0b11111);
    assert_eq!(five.to_display_string(), "Coverage(5/12 = 42%)");
}

#[test]
fn test_coverage_from_raw_masks() {
    let c = CoverageBitmap::from_raw(0xFFFF);
    assert_eq!(c.count(), 12);
    assert_eq!(c, CoverageBitmap::full());
    assert_eq!(c.raw(), 0x0FFF);
}

#[test]
fn test_coverage_default_is_empty() {
    assert_eq!(CoverageBitmap::default(), CoverageBitmap::empty());
}

#[test]
fn module_number_needs_digits_after_m() {
    assert_eq!(ModuleId::new("M+7").number(), None);
    assert_eq!(ModuleId::new("M+7").layer(), None);
    assert_eq!(ModuleId::new("M").number(), None);
    assert_eq!(ModuleId::new("M-1").number(), None);
    assert_eq!(ModuleId::new("M255").number(), Some(255));
    assert_eq!(ModuleId::new("M256").number(), None);
    assert_eq!(ModuleId::new("M7").number(), Some(7));
}
