use constraint_resolver::types::log2_exact;
use constraint_resolver::types::power_of_two;
use constraint_resolver::types::LaneKind;
use constraint_resolver::types::ValueType;
use constraint_resolver::typeset::has_bit;
use constraint_resolver::typeset::TypeSet;

fn universe() -> Vec<ValueType> {
    let mut all = Vec::new();
    for (kind, widths) in
        [(LaneKind::Int, 3..=7u8), (LaneKind::Float, 5..=6u8), (LaneKind::Ref, 5..=6u8)]
    {
        for log2_bits in widths {
            for log2_lanes in 0..=8u8 {
                all.push(ValueType { kind, log2_bits, log2_lanes, dynamic: false });
                if log2_lanes > 0 {
                    all.push(ValueType { kind, log2_bits, log2_lanes, dynamic: true });
                }
            }
        }
    }
    all
}

#[test]
fn powers_and_logarithms() {
    assert_eq!(power_of_two(0), 1);
    assert_eq!(power_of_two(5), 32);
    assert_eq!(power_of_two(31), 0x8000_0000);
    assert_eq!(log2_exact(1), Some(0));
    assert_eq!(log2_exact(64), Some(6));
    assert_eq!(log2_exact(0x8000), Some(15));
    assert_eq!(log2_exact(0), None);
    assert_eq!(log2_exact(48), None);
    assert_eq!(log2_exact(0xffff), None);
}

#[test]
fn named_types() {
    assert_eq!(
        ValueType::int32(),
        ValueType { kind: LaneKind::Int, log2_bits: 5, log2_lanes: 0, dynamic: false }
    );
    assert_eq!(ValueType::int8().lane_bits(), 8);
    assert_eq!(ValueType::int128().lane_bits(), 128);
    assert_eq!(ValueType::float64().lane_bits(), 64);
    assert_eq!(ValueType::ref32().kind, LaneKind::Ref);
    assert_eq!(ValueType::int8x16().lane_count(), 16);
    assert_eq!(ValueType::int16x8().lane_count(), 8);
    assert_eq!(ValueType::int32x4().lane_count(), 4);
    assert_eq!(ValueType::int64x2().lane_count(), 2);
    assert_eq!(ValueType::float32x4().lane_bits(), 32);
    assert_eq!(ValueType::float64x2().lane_count(), 2);
    assert_eq!(ValueType::int32().lane_count(), 1);
    assert!(!ValueType::int32().is_vector());
    assert!(ValueType::int32x4().is_vector());
}

#[test]
fn scalars_by_width() {
    assert_eq!(ValueType::integer(8), Some(ValueType::int8()));
    assert_eq!(ValueType::integer(32), Some(ValueType::int32()));
    assert_eq!(ValueType::integer(128), Some(ValueType::int128()));
    assert_eq!(ValueType::integer(4), None);
    assert_eq!(ValueType::integer(24), None);
    assert_eq!(ValueType::integer(256), None);
    assert_eq!(ValueType::integer(0), None);
    assert_eq!(ValueType::float(32), Some(ValueType::float32()));
    assert_eq!(ValueType::float(64), Some(ValueType::float64()));
    assert_eq!(ValueType::float(16), None);
    assert_eq!(ValueType::float(128), None);
    assert_eq!(ValueType::reference(64), Some(ValueType::ref64()));
    assert_eq!(ValueType::reference(8), None);
    assert_eq!(ValueType::lane(LaneKind::Int, 16), Some(ValueType::int16()));
}

#[test]
fn vectors_by_lane_count() {
    assert_eq!(ValueType::int32().by_lanes(4), Some(ValueType::int32x4()));
    assert_eq!(ValueType::int32().by_lanes(1), Some(ValueType::int32()));
    assert_eq!(ValueType::int32x4().by_lanes(2).unwrap().lane_count(), 8);
    assert_eq!(ValueType::int8().by_lanes(256).unwrap().lane_count(), 256);
    assert_eq!(ValueType::int8().by_lanes(512), None);
    assert_eq!(ValueType::int8x16().by_lanes(32), None);
    assert_eq!(ValueType::int32().by_lanes(3), None);
    assert_eq!(ValueType::int32().by_lanes(0), None);
    let dynamic = ValueType::int32x4().to_dynamic().unwrap();
    assert_eq!(dynamic.by_lanes(2), None);
}

#[test]
fn dynamic_vectors() {
    let fixed = ValueType::int32x4();
    let dynamic = fixed.to_dynamic().unwrap();
    assert!(dynamic.dynamic);
    assert!(dynamic.is_vector());
    assert_eq!(dynamic.lane_count(), 4);
    assert_eq!(dynamic.dynamic_to_vector(), Some(fixed));
    assert_eq!(fixed.dynamic_to_vector(), None);
    assert_eq!(dynamic.to_dynamic(), None);
    assert_eq!(ValueType::int32().to_dynamic(), None);
    assert_eq!(dynamic.lane_type(), ValueType::int32());
}

#[test]
fn half_and_double_width_undo_each_other() {
    for t in universe() {
        if let Some(d) = t.double_width() {
            assert_eq!(d.half_width(), Some(t));
            assert_eq!(d.lane_bits(), 2 * t.lane_bits());
            assert_eq!(d.lane_count(), t.lane_count());
        }
        if let Some(h) = t.half_width() {
            assert_eq!(h.double_width(), Some(t));
            assert_eq!(2 * h.lane_bits(), t.lane_bits());
        }
    }
    assert_eq!(ValueType::int32().double_width(), Some(ValueType::int64()));
    assert_eq!(ValueType::int32().half_width(), Some(ValueType::int16()));
    assert_eq!(ValueType::int64().double_width().unwrap().half_width(), Some(ValueType::int64()));
}

#[test]
fn widths_at_the_ends_have_no_half_or_double() {
    assert_eq!(ValueType::int8().half_width(), None);
    assert_eq!(ValueType::int128().double_width(), None);
    assert_eq!(ValueType::int8x16().half_width(), None);
    assert_eq!(ValueType::float64().half_width(), None);
    assert_eq!(ValueType::float32().double_width(), None);
    assert_eq!(ValueType::ref32().double_width(), None);
}

#[test]
fn split_and_merge_lanes_undo_each_other() {
    for t in universe() {
        if let Some(s) = t.split_lanes() {
            assert_eq!(s.merge_lanes(), Some(t));
            assert_eq!(s.lane_count(), 2 * t.lane_count());
            assert_eq!(2 * s.lane_bits(), t.lane_bits());
        }
        if let Some(m) = t.merge_lanes() {
            assert_eq!(m.split_lanes(), Some(t));
        }
    }
    assert_eq!(ValueType::int32x4().split_lanes(), Some(ValueType::int16x8()));
    assert_eq!(ValueType::int32x4().merge_lanes(), Some(ValueType::int64x2()));
    assert_eq!(ValueType::int64().split_lanes().unwrap().lane_count(), 2);
    assert_eq!(ValueType::int64().merge_lanes(), None);
    assert_eq!(ValueType::int8x16().split_lanes(), None);
    assert_eq!(ValueType::int8().by_lanes(256).unwrap().split_lanes(), None);
    let two = ValueType::int32().by_lanes(2).unwrap().to_dynamic().unwrap();
    assert_eq!(two.merge_lanes(), None);
    let four = ValueType::int32x4().to_dynamic().unwrap();
    assert_eq!(four.merge_lanes().unwrap().lane_count(), 2);
    assert!(four.merge_lanes().unwrap().dynamic);
}

#[test]
fn truth_value_types() {
    assert_eq!(ValueType::int64().as_bool(), Some(ValueType::int8()));
    assert_eq!(ValueType::float32().as_bool(), Some(ValueType::int8()));
    assert_eq!(ValueType::ref64().as_bool(), Some(ValueType::int8()));
    assert_eq!(ValueType::int32x4().as_bool(), Some(ValueType::int32x4()));
    assert_eq!(ValueType::float32x4().as_bool(), Some(ValueType::int32x4()));
    assert_eq!(ValueType::float64x2().as_bool(), Some(ValueType::int64x2()));
    let refs = ValueType::vector(LaneKind::Ref, 6, 1);
    assert_eq!(refs.as_bool(), None);
}

#[test]
fn element_types() {
    assert_eq!(ValueType::int32x4().lane_of(), Some(ValueType::int32()));
    assert_eq!(ValueType::float64x2().lane_of(), Some(ValueType::float64()));
    assert_eq!(ValueType::int32().lane_of(), None);
    assert_eq!(ValueType::int32().lane_type(), ValueType::int32());
    assert_eq!(ValueType::scalar(LaneKind::Float, 5), ValueType::float32());
}

#[test]
fn derived_types_stay_in_the_universe() {
    for t in universe() {
        assert!(t.is_wf());
        assert!(t.lane_type().is_wf());
        for d in [
            t.lane_of(),
            t.as_bool(),
            t.half_width(),
            t.double_width(),
            t.split_lanes(),
            t.merge_lanes(),
            t.dynamic_to_vector(),
            t.to_dynamic(),
        ]
        .into_iter()
        .flatten()
        {
            assert!(d.is_wf());
        }
    }
}

#[test]
fn types_outside_the_universe() {
    assert!(!ValueType { kind: LaneKind::Int, log2_bits: 2, log2_lanes: 0, dynamic: false }.is_wf());
    assert!(!ValueType { kind: LaneKind::Int, log2_bits: 8, log2_lanes: 0, dynamic: false }.is_wf());
    assert!(!ValueType { kind: LaneKind::Float, log2_bits: 4, log2_lanes: 0, dynamic: false }
        .is_wf());
    assert!(!ValueType { kind: LaneKind::Ref, log2_bits: 7, log2_lanes: 0, dynamic: false }.is_wf());
    assert!(!ValueType { kind: LaneKind::Int, log2_bits: 5, log2_lanes: 9, dynamic: false }.is_wf());
    assert!(!ValueType { kind: LaneKind::Int, log2_bits: 5, log2_lanes: 0, dynamic: true }.is_wf());
}

#[test]
fn bits_of_a_mask() {
    assert!(has_bit(0x01ff, 0));
    assert!(has_bit(0x01ff, 8));
    assert!(!has_bit(0x01ff, 9));
    assert!(!has_bit(0xffff, 16));
    assert!(!has_bit(0xffff, 255));
    assert!(has_bit(0xf8, 3));
    assert!(!has_bit(0xf8, 2));
}

#[test]
fn universe_type_set_holds_exactly_the_universe() {
    let all = TypeSet::universe();
    for t in universe() {
        assert!(all.contains(t));
    }
    for kind in [LaneKind::Int, LaneKind::Float, LaneKind::Ref] {
        for log2_bits in 0..=20u8 {
            for log2_lanes in 0..=20u8 {
                for dynamic in [false, true] {
                    let t = ValueType { kind, log2_bits, log2_lanes, dynamic };
                    assert_eq!(all.contains(t), t.is_wf());
                }
            }
        }
    }
}

#[test]
fn type_set_membership_goes_by_lane_count_and_lane() {
    let set = TypeSet { lanes: 0x000c, dynamic_lanes: 0x0002, ints: 0x30, floats: 0x40, refs: 0 };
    assert!(set.contains(ValueType::int32x4()));
    assert!(set.contains(ValueType::int16x8()));
    assert!(!set.contains(ValueType::int32()));
    assert!(!set.contains(ValueType::int64x2()));
    assert!(!set.contains(ValueType::int8x16()));
    assert!(!set.contains(ValueType::float32x4()));
    assert!(set.contains(ValueType::float64().by_lanes(4).unwrap()));
    assert!(!set.contains(ValueType::int32x4().to_dynamic().unwrap()));
    assert!(set.contains(ValueType::int32().by_lanes(2).unwrap().to_dynamic().unwrap()));
    assert!(set.has_lane(LaneKind::Int, 4));
    assert!(!set.has_lane(LaneKind::Ref, 5));
}
