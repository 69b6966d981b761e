use tympan_aspl::float_bits::F64Bits;
use tympan_aspl::{
    AudioObjectId, DeviceSpec, Object, ObjectKind, ObjectMap, PropertyScope, StreamDirection,
    StreamFormat, StreamSpec,
};

fn f(x: f64) -> F64Bits {
    F64Bits::from_bits(x.to_bits())
}

fn loopback() -> DeviceSpec {
    let format = StreamFormat::float32(f(48_000.0), 2);
    DeviceSpec::new("com.example.loopback", "Loopback", "tympan-aspl")
        .with_input(StreamSpec::input(format))
        .with_output(StreamSpec::output(format))
}

fn output_only() -> DeviceSpec {
    DeviceSpec::new("com.example.speaker", "Speaker", "tympan-aspl")
        .with_output(StreamSpec::output(StreamFormat::float32(f(48_000.0), 2)))
}

fn input_only() -> DeviceSpec {
    DeviceSpec::new("com.example.mic", "Mic", "tympan-aspl")
        .with_input(StreamSpec::input(StreamFormat::float32(f(48_000.0), 1)))
}

#[test]
fn loopback_assigns_ids_in_tree_order() {
    let map = ObjectMap::new(loopback());
    assert_eq!(map.plugin_id(), AudioObjectId::PLUGIN());
    assert_eq!(map.device_id(), AudioObjectId::from_u32(2));
    assert_eq!(
        map.stream_id(StreamDirection::Input),
        Some(AudioObjectId::from_u32(3))
    );
    assert_eq!(
        map.stream_id(StreamDirection::Output),
        Some(AudioObjectId::from_u32(4))
    );
}

#[test]
fn output_only_device_skips_the_input_id() {
    let map = ObjectMap::new(output_only());
    assert_eq!(map.device_id(), AudioObjectId::from_u32(2));
    assert_eq!(map.stream_id(StreamDirection::Input), None);
    assert_eq!(
        map.stream_id(StreamDirection::Output),
        Some(AudioObjectId::from_u32(3))
    );
}

#[test]
fn streamless_device_has_only_plugin_and_device() {
    let map = ObjectMap::new(DeviceSpec::new("uid", "name", "maker"));
    assert_eq!(map.stream_id(StreamDirection::Input), None);
    assert_eq!(map.stream_id(StreamDirection::Output), None);
    assert_eq!(
        map.all_ids(),
        vec![AudioObjectId::PLUGIN(), AudioObjectId::from_u32(2)]
    );
}

#[test]
fn resolve_maps_ids_back_to_objects() {
    let map = ObjectMap::new(loopback());
    assert_eq!(map.resolve(AudioObjectId::PLUGIN()), Some(Object::PlugIn));
    assert_eq!(
        map.resolve(AudioObjectId::from_u32(2)),
        Some(Object::Device)
    );
    assert_eq!(
        map.resolve(AudioObjectId::from_u32(3)),
        Some(Object::Stream(StreamDirection::Input))
    );
    assert_eq!(
        map.resolve(AudioObjectId::from_u32(4)),
        Some(Object::Stream(StreamDirection::Output))
    );
    assert_eq!(map.resolve(AudioObjectId::from_u32(99)), None);
    assert_eq!(map.resolve(AudioObjectId::UNKNOWN()), None);
}

#[test]
fn contains_matches_resolve() {
    let map = ObjectMap::new(loopback());
    for id in map.all_ids() {
        assert!(map.contains(id));
    }
    assert!(!map.contains(AudioObjectId::from_u32(100)));
}

#[test]
fn object_kinds_follow_the_tree() {
    assert_eq!(Object::PlugIn.kind(), ObjectKind::PlugIn);
    assert_eq!(Object::Device.kind(), ObjectKind::Device);
    assert_eq!(
        Object::Stream(StreamDirection::Input).kind(),
        ObjectKind::Stream
    );
}

#[test]
fn all_ids_is_tree_ordered() {
    let map = ObjectMap::new(loopback());
    assert_eq!(
        map.all_ids(),
        vec![
            AudioObjectId::PLUGIN(),
            AudioObjectId::from_u32(2),
            AudioObjectId::from_u32(3),
            AudioObjectId::from_u32(4),
        ]
    );
}

#[test]
fn plugin_owns_the_device() {
    let map = ObjectMap::new(loopback());
    assert_eq!(
        map.owned_objects(AudioObjectId::PLUGIN(), PropertyScope::GLOBAL()),
        vec![map.device_id()]
    );
}

#[test]
fn device_owns_streams_filtered_by_scope() {
    let map = ObjectMap::new(loopback());
    let dev = map.device_id();
    assert_eq!(
        map.owned_objects(dev, PropertyScope::GLOBAL()),
        vec![AudioObjectId::from_u32(3), AudioObjectId::from_u32(4)]
    );
    assert_eq!(
        map.owned_objects(dev, PropertyScope::INPUT()),
        vec![AudioObjectId::from_u32(3)]
    );
    assert_eq!(
        map.owned_objects(dev, PropertyScope::OUTPUT()),
        vec![AudioObjectId::from_u32(4)]
    );
}

#[test]
fn streams_own_nothing() {
    let map = ObjectMap::new(loopback());
    assert!(map
        .owned_objects(AudioObjectId::from_u32(3), PropertyScope::GLOBAL())
        .is_empty());
}

#[test]
fn device_streams_respects_a_one_sided_device() {
    let map = ObjectMap::new(output_only());
    assert_eq!(
        map.device_streams(PropertyScope::GLOBAL()),
        vec![AudioObjectId::from_u32(3)]
    );
    assert!(map.device_streams(PropertyScope::INPUT()).is_empty());
    assert_eq!(
        map.device_streams(PropertyScope::OUTPUT()),
        vec![AudioObjectId::from_u32(3)]
    );
}

#[test]
fn owner_walks_up_the_tree() {
    let map = ObjectMap::new(loopback());
    assert_eq!(
        map.owner_of(AudioObjectId::PLUGIN()),
        Some(AudioObjectId::UNKNOWN())
    );
    assert_eq!(map.owner_of(map.device_id()), Some(AudioObjectId::PLUGIN()));
    assert_eq!(
        map.owner_of(AudioObjectId::from_u32(3)),
        Some(map.device_id())
    );
    assert_eq!(map.owner_of(AudioObjectId::from_u32(99)), None);
}

#[test]
fn stream_spec_is_forwarded_from_the_device_spec() {
    let map = ObjectMap::new(loopback());
    assert_eq!(
        map.stream_spec(StreamDirection::Input).unwrap().direction(),
        StreamDirection::Input
    );
    assert_eq!(
        ObjectMap::new(output_only()).stream_spec(StreamDirection::Input),
        None
    );
}

#[test]
fn every_object_but_the_plugin_has_an_owner_in_the_tree() {
    for spec in [loopback(), output_only(), input_only()] {
        let map = ObjectMap::new(spec);
        for id in map.all_ids() {
            let owner = map.owner_of(id).unwrap();
            if id == AudioObjectId::PLUGIN() {
                assert_eq!(owner, AudioObjectId::UNKNOWN());
            } else {
                assert!(map.contains(owner));
                assert!(map
                    .owned_objects(owner, PropertyScope::GLOBAL())
                    .contains(&id));
            }
        }
    }
}

#[test]
fn input_only_device_gives_the_input_stream_id_three() {
    let map = ObjectMap::new(input_only());
    assert_eq!(map.stream_id(StreamDirection::Input), Some(AudioObjectId::from_u32(3)));
    assert_eq!(map.stream_id(StreamDirection::Output), None);
    assert_eq!(map.all_ids().len(), 3);
    assert_eq!(map.spec().name(), "Mic");
}

#[test]
fn plugin_owns_the_device_only_at_the_global_scope() {
    let map = ObjectMap::new(loopback());
    assert!(map.owned_objects(AudioObjectId::PLUGIN(), PropertyScope::INPUT()).is_empty());
    assert!(map.owned_objects(AudioObjectId::PLUGIN(), PropertyScope::OUTPUT()).is_empty());
    assert_eq!(
        map.owned_objects(AudioObjectId::PLUGIN(), PropertyScope::GLOBAL()),
        vec![AudioObjectId::from_u32(2)]
    );
}
