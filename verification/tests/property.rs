use core::mem::{size_of};
use tympan_aspl::float_bits::F64Bits;
use tympan_aspl::format::StreamFormat;
use tympan_aspl::{
    AudioObjectId, FourCharCode, PropertyAddress, PropertyElement, PropertyScope,
    PropertySelector, PropertyValue, ValueRange,
};

fn f(x: f64) -> F64Bits {
    F64Bits::from_bits(x.to_bits())
}

#[test]
fn selector_constants_match_core_audio_codes() {
    assert_eq!(
        PropertySelector::DEVICE_UID().code(),
        FourCharCode::new(*b"uid ")
    );
    assert_eq!(
        PropertySelector::DEVICE_NOMINAL_SAMPLE_RATE().code(),
        FourCharCode::new(*b"nsrt")
    );
    assert_eq!(
        PropertySelector::PLUGIN_DEVICE_LIST().code(),
        FourCharCode::new(*b"dev#")
    );
    assert_eq!(
        PropertySelector::STREAM_VIRTUAL_FORMAT().code(),
        FourCharCode::new(*b"sfmt")
    );
}

#[test]
fn scope_constants_match_core_audio_codes() {
    assert_eq!(PropertyScope::GLOBAL().code(), FourCharCode::new(*b"glob"));
    assert_eq!(PropertyScope::INPUT().code(), FourCharCode::new(*b"inpt"));
    assert_eq!(PropertyScope::OUTPUT().code(), FourCharCode::new(*b"outp"));
}

#[test]
fn element_main_is_zero() {
    assert_eq!(PropertyElement::MAIN().as_u32(), 0);
    assert!(PropertyElement::MAIN().is_main());
    assert!(!PropertyElement::channel(1).is_main());
    assert_eq!(PropertyElement::channel(3).as_u32(), 3);
}

#[test]
fn global_address_is_object_wide() {
    let addr = PropertyAddress::global(PropertySelector::NAME());
    assert_eq!(addr.selector, PropertySelector::NAME());
    assert_eq!(addr.scope, PropertyScope::GLOBAL());
    assert_eq!(addr.element, PropertyElement::MAIN());
    assert!(addr.is_object_wide());
}

#[test]
fn scoped_address_is_not_object_wide() {
    let input = PropertyAddress::new(
        PropertySelector::DEVICE_STREAMS(),
        PropertyScope::INPUT(),
        PropertyElement::MAIN(),
    );
    assert!(!input.is_object_wide());

    let channel = PropertyAddress::new(
        PropertySelector::NAME(),
        PropertyScope::GLOBAL(),
        PropertyElement::channel(2),
    );
    assert!(!channel.is_object_wide());
}

#[test]
fn address_equality_is_structural() {
    let a = PropertyAddress::global(PropertySelector::DEVICE_UID());
    let b = PropertyAddress::new(
        PropertySelector::DEVICE_UID(),
        PropertyScope::GLOBAL(),
        PropertyElement::MAIN(),
    );
    assert_eq!(a, b);

    let c = PropertyAddress::new(
        PropertySelector::DEVICE_UID(),
        PropertyScope::INPUT(),
        PropertyElement::MAIN(),
    );
    assert_ne!(a, c);
}

#[test]
fn selectors_built_from_fourcc_round_trip() {
    let code = FourCharCode::new(*b"nsrt");
    assert_eq!(
        PropertySelector::from(code),
        PropertySelector::DEVICE_NOMINAL_SAMPLE_RATE()
    );
}

#[test]
fn newtype_layouts_are_transparent() {
    assert_eq!(size_of::<PropertySelector>(), size_of::<u32>());
    assert_eq!(size_of::<PropertyScope>(), size_of::<u32>());
    assert_eq!(size_of::<PropertyElement>(), size_of::<u32>());
}

#[test]
fn value_range_point_has_equal_bounds() {
    let r = ValueRange::point(f(48_000.0));
    assert_eq!(f64::from_bits(r.min.to_bits()), 48_000.0);
    assert_eq!(f64::from_bits(r.max.to_bits()), 48_000.0);
    assert!(r.contains(f(48_000.0)));
    assert!(!r.contains(f(44_100.0)));
}

#[test]
fn value_range_contains_is_inclusive() {
    let r = ValueRange::new(f(44_100.0), f(96_000.0));
    assert!(r.contains(f(44_100.0)));
    assert!(r.contains(f(96_000.0)));
    assert!(r.contains(f(48_000.0)));
    assert!(!r.contains(f(44_099.0)));
    assert!(!r.contains(f(96_001.0)));
}

#[test]
fn property_value_byte_sizes_match_the_c_types() {
    assert_eq!(PropertyValue::U32(0).byte_size(), 4);
    assert_eq!(
        PropertyValue::ObjectId(AudioObjectId::PLUGIN()).byte_size(),
        4
    );
    assert_eq!(PropertyValue::F64(f(0.0)).byte_size(), 8);
    assert_eq!(
        PropertyValue::Text("x".into()).byte_size(),
        PropertyValue::Text("a much longer string".into()).byte_size()
    );
    assert_eq!(
        PropertyValue::Text(String::new()).byte_size(),
        size_of::<usize>()
    );
    assert_eq!(
        PropertyValue::ObjectList(vec![
            AudioObjectId::from_u32(2),
            AudioObjectId::from_u32(3)
        ])
        .byte_size(),
        8
    );
    assert_eq!(
        PropertyValue::Format(StreamFormat::float32(f(48_000.0), 2)).byte_size(),
        40
    );
    assert_eq!(
        PropertyValue::RangeList(vec![ValueRange::point(f(48_000.0))]).byte_size(),
        16
    );
}

#[test]
fn property_value_is_empty_only_for_empty_lists() {
    assert!(PropertyValue::ObjectList(vec![]).is_empty());
    assert!(PropertyValue::RangeList(vec![]).is_empty());
    assert!(!PropertyValue::ObjectList(vec![AudioObjectId::PLUGIN()]).is_empty());
    assert!(!PropertyValue::U32(0).is_empty());
    assert!(!PropertyValue::F64(f(0.0)).is_empty());
    assert!(!PropertyValue::Text(String::new()).is_empty());
}

#[test]
fn value_range_contains_agrees_with_float_comparison() {
    let probes = [
        0.0,
        -0.0,
        1.0,
        -1.0,
        44_100.0,
        48_000.0,
        96_000.0,
        f64::INFINITY,
        f64::NEG_INFINITY,
        f64::NAN,
        f64::MIN_POSITIVE,
        -f64::MIN_POSITIVE,
        5e-324,
    ];
    for lo in probes {
        for hi in probes {
            let r = ValueRange::new(f(lo), f(hi));
            for v in probes {
                assert_eq!(r.contains(f(v)), lo <= v && v <= hi, "{lo} <= {v} <= {hi}");
            }
        }
    }
}

#[test]
fn ieee_comparisons_agree_with_float_operators() {
    let probes = [0.0, -0.0, 2.5, -2.5, 1e300, -1e300, f64::INFINITY, f64::NAN];
    for a in probes {
        for b in probes {
            assert_eq!(f(a).ieee_le(f(b)), a <= b, "{a} <= {b}");
            assert_eq!(f(a).ieee_eq(f(b)), a == b, "{a} == {b}");
        }
    }
}

#[test]
fn selector_and_scope_codes_convert_back() {
    assert_eq!(
        PropertyScope::from(FourCharCode::new(*b"ptru")),
        PropertyScope::PLAY_THROUGH()
    );
    assert_eq!(PropertyElement::from(5u32), PropertyElement::channel(5));
    assert_eq!(
        PropertySelector::new(*b"stm#"),
        PropertySelector::DEVICE_STREAMS()
    );
}
