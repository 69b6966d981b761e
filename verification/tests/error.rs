use core::mem::{align_of, size_of};
use tympan_aspl::fourcc::FourCharCode;
use tympan_aspl::OsStatus;

#[test]
fn ok_classifies_correctly() {
    assert!(OsStatus::OK().is_ok());
    assert!(!OsStatus::OK().is_err());
    assert_eq!(OsStatus::OK().as_i32(), 0);
}

#[test]
fn error_codes_classify_correctly() {
    for e in [
        OsStatus::UNSPECIFIED(),
        OsStatus::UNKNOWN_PROPERTY(),
        OsStatus::BAD_OBJECT(),
        OsStatus::BAD_DEVICE(),
        OsStatus::BAD_STREAM(),
        OsStatus::ILLEGAL_OPERATION(),
        OsStatus::UNSUPPORTED_FORMAT(),
    ] {
        assert!(e.is_err(), "{e:?} should be an error");
        assert!(!e.is_ok());
    }
}

#[test]
fn ok_method_converts_to_result() {
    assert_eq!(OsStatus::OK().ok(), Ok(()));
    assert_eq!(OsStatus::BAD_OBJECT().ok(), Err(OsStatus::BAD_OBJECT()));
}

#[test]
fn result_flattens_back_to_status() {
    assert_eq!(OsStatus::from(Ok(())), OsStatus::OK());
    assert_eq!(
        OsStatus::from(Err(OsStatus::NOT_READY())),
        OsStatus::NOT_READY()
    );
}

#[test]
fn error_constants_match_fourcc_values() {
    assert_eq!(OsStatus::BAD_OBJECT().as_i32(), 0x216F_626A); // '!obj'
    assert_eq!(OsStatus::UNKNOWN_PROPERTY().as_i32(), 0x77686F3F); // 'who?'
    assert_eq!(OsStatus::NOT_RUNNING().as_i32(), 0x73746F70); // 'stop'
}

#[test]
fn round_trips_through_i32() {
    for e in [OsStatus::OK(), OsStatus::BAD_DEVICE(), OsStatus::PERMISSIONS()] {
        let raw: i32 = e.into();
        assert_eq!(OsStatus::from(raw), e);
    }
}

#[test]
fn debug_renders_ok_specially() {
    assert_eq!(OsStatus::OK().to_debug_string(), "OsStatus::OK");
}

#[test]
fn debug_renders_fourcc_errors() {
    assert_eq!(OsStatus::BAD_OBJECT().to_debug_string(), "OsStatus('!obj')");
    assert_eq!(
        OsStatus::UNKNOWN_PROPERTY().to_debug_string(),
        "OsStatus('who?')"
    );
}

#[test]
fn debug_renders_non_fourcc_errors_numerically() {
    let s = OsStatus(-1);
    assert_eq!(s.to_debug_string(), "OsStatus(-1 / 0xFFFFFFFF)");
}

#[test]
fn layout_is_transparent_i32() {
    assert_eq!(size_of::<OsStatus>(), size_of::<i32>());
    assert_eq!(align_of::<OsStatus>(), align_of::<i32>());
}

#[test]
fn display_renders_like_debug() {
    assert_eq!(OsStatus::OK().to_display_string(), "OsStatus::OK");
    assert_eq!(OsStatus::NOT_RUNNING().to_display_string(), "OsStatus('stop')");
}

#[test]
fn every_error_constant_is_its_fourcc() {
    let pairs = [
        (OsStatus::NOT_RUNNING(), *b"stop"),
        (OsStatus::UNSPECIFIED(), *b"what"),
        (OsStatus::UNKNOWN_PROPERTY(), *b"who?"),
        (OsStatus::BAD_PROPERTY_SIZE(), *b"!siz"),
        (OsStatus::ILLEGAL_OPERATION(), *b"nope"),
        (OsStatus::BAD_OBJECT(), *b"!obj"),
        (OsStatus::BAD_DEVICE(), *b"!dev"),
        (OsStatus::BAD_STREAM(), *b"!str"),
        (OsStatus::UNSUPPORTED_OPERATION(), *b"unop"),
        (OsStatus::NOT_READY(), *b"nrdy"),
        (OsStatus::UNSUPPORTED_FORMAT(), *b"!dat"),
        (OsStatus::PERMISSIONS(), *b"!hog"),
    ];
    for (status, code) in pairs {
        assert_eq!(status, OsStatus::from_fourcc(FourCharCode::new(code)));
    }
}

#[test]
fn ok_then_flatten_restores_the_status() {
    for s in [OsStatus::OK(), OsStatus::BAD_STREAM(), OsStatus(-7)] {
        assert_eq!(OsStatus::from(s.ok()), s);
    }
}
