use errcode::error::error_code_for_error;
use errcode::error_impl::full::ErrorImpl as FullErrorImpl;
use errcode::error_impl::str_equal;
use errcode::error_impl::DecodedLocation;
use errcode::error_impl::ErrorFrame;
use errcode::error_impl::ErrorFrameData;
use errcode::error_impl::ErrorImpl;
use errcode::error_impl::ErrorImplFunctions;
use errcode::error_impl::ErrorOrigin;
use errcode::error_impl::ErrorSourceStatic;
use errcode::error_impl::InternalContextType;
use errcode::error_impl::MessageContainer;
use errcode::Error;
use errcode::ErrorCode;
use errcode::ErrorCodeInfo;
use errcode::ErrorCodePrivate;
use errcode::Representation;
use std::any::TypeId;

#[derive(Clone, Copy, PartialEq, Eq, Debug)]
enum Kind {
    NotFound,
    Timeout,
}

#[derive(Clone, Copy, PartialEq, Eq, Debug)]
enum Other {
    Thing,
}

fn info_of<T: 'static>(value: u32, enum_name: &'static str, variant: &'static str) -> &'static ErrorCodeInfo {
    Box::leak(Box::new(ErrorCodeInfo {
        tid: TypeId::of::<T>(),
        value,
        enum_name,
        variant_name: variant,
        message: None,
    }))
}

impl ErrorCodePrivate for Kind {
    fn info(self) -> &'static ErrorCodeInfo {
        match self {
            Kind::NotFound => info_of::<Kind>(3, "Kind", "NotFound"),
            Kind::Timeout => info_of::<Kind>(7, "Kind", "Timeout"),
        }
    }

    fn error_source(self) -> &'static ErrorSourceStatic {
        source(Some(self.info()), None)
    }

    fn is_value(self, value: u32) -> bool {
        self.info().value == value
    }

    fn from_value(value: u32) -> Self {
        match value {
            3 => Kind::NotFound,
            7 => Kind::Timeout,
            _ => panic!("not a Kind"),
        }
    }
}

impl ErrorCode for Kind {}

impl ErrorCodePrivate for Other {
    fn info(self) -> &'static ErrorCodeInfo {
        info_of::<Other>(3, "Other", "Thing")
    }

    fn error_source(self) -> &'static ErrorSourceStatic {
        source(Some(self.info()), None)
    }

    fn is_value(self, value: u32) -> bool {
        value == 3
    }

    fn from_value(value: u32) -> Self {
        match value {
            3 => Other::Thing,
            _ => panic!("not an Other"),
        }
    }
}

impl ErrorCode for Other {}

fn source(code: Option<&'static ErrorCodeInfo>, message: Option<&'static str>) -> &'static ErrorSourceStatic {
    Box::leak(Box::new(ErrorSourceStatic {
        error_code: code,
        message_static: message,
        is_static_message_incomplete: false,
        location: None,
    }))
}

fn incomplete(message: &'static str) -> &'static ErrorSourceStatic {
    Box::leak(Box::new(ErrorSourceStatic {
        error_code: None,
        message_static: Some(message),
        is_static_message_incomplete: true,
        location: None,
    }))
}

fn loc(line: u32) -> DecodedLocation {
    DecodedLocation { module: "src/lib.rs", line, column: 7 }
}

fn rendered(frames: &[ErrorFrame]) -> Vec<String> {
    frames.iter().map(|f| f.render()).collect()
}

#[test]
fn full_backend_keeps_every_frame_in_order() {
    let mut e = Error::new(
        Representation::Full,
        ErrorOrigin::StaticOrigin(source(Some(Kind::NotFound.info()), Some("open"))),
        None,
        loc(1),
    );
    e.push_context(source(None, Some("a")), None, loc(2));
    e.push_context(source(Some(Kind::Timeout.info()), Some("b")), Some("b after 3 tries".to_string()), loc(3));
    e.push_context(source(None, Some("c")), None, loc(4));
    let frames = e.frames();
    assert_eq!(frames.len(), 4);
    assert_eq!(
        rendered(&frames),
        vec!["open (Kind::NotFound)", "a", "b after 3 tries (Kind::Timeout)", "c"]
    );
    let lines: Vec<Option<u32>> = frames.iter().map(|f| f.location.map(|l| l.line)).collect();
    assert_eq!(lines, vec![Some(1), Some(2), Some(3), Some(4)]);
    assert!(!frames.iter().any(|f| matches!(f.data, ErrorFrameData::InternalContext(_))));
    assert!(e.is_code(Kind::Timeout));
}

#[test]
fn full_backend_with_no_push_has_one_frame() {
    let e = Error::new(
        Representation::Full,
        ErrorOrigin::StaticOrigin(source(None, Some("only"))),
        Some("only, rendered".to_string()),
        loc(9),
    );
    let frames = e.frames();
    assert_eq!(rendered(&frames), vec!["only, rendered"]);
    assert!(e.code().is_none());
}

#[test]
fn full_backend_code_follows_latest_coded_push() {
    let mut e = Error::new(
        Representation::Full,
        ErrorOrigin::StaticOrigin(source(Some(Kind::NotFound.info()), None)),
        None,
        loc(1),
    );
    e.push_context(source(None, Some("x")), None, loc(2));
    assert!(e.is_code(Kind::NotFound));
    e.push_context(source(Some(Kind::Timeout.info()), None), None, loc(3));
    e.push_context(source(None, Some("y")), None, loc(4));
    assert!(e.is_code(Kind::Timeout));
    assert_eq!(e.code().map(|c| c.value), Some(7));
}

#[test]
fn full_backend_type_origin() {
    let e = Error::from_foreign(Representation::Full, "io::Error", "payload", loc(5));
    let frames = e.frames();
    assert_eq!(rendered(&frames), vec!["<converted from type: io::Error>"]);
    assert_eq!(frames[0].location.map(|l| l.line), Some(5));
    assert!(e.code().is_none());

    let mut direct = FullErrorImpl::new(ErrorOrigin::TypeOrigin("E", None), Some("rendered".to_string()), None);
    direct.push_context(incomplete("needs {x}"), None, None);
    assert_eq!(rendered(&direct.frames()), vec!["rendered", "<unformatted message:>needs {x}"]);
    let mut it = direct.iter();
    assert!(it.next().is_some());
    assert!(it.next().is_some());
    assert!(it.next().is_none());
}

#[test]
fn cross_type_code_is_rejected() {
    let e = Error::new(
        Representation::Compact,
        ErrorOrigin::StaticOrigin(source(Some(Kind::NotFound.info()), None)),
        None,
        loc(1),
    );
    assert!(e.is_code(Kind::NotFound));
    assert!(!e.is_code(Other::Thing));
    assert!(e.is_code_info(Kind::NotFound.info()));
    assert!(!e.is_code_info(Other::Thing.info()));
    assert!(!e.is_code_info(Kind::Timeout.info()));
}

#[test]
fn code_identity_and_decoding() {
    let not_found = Kind::NotFound.info();
    assert!(not_found.same_code(Kind::NotFound.info()));
    assert!(!not_found.same_code(Other::Thing.info()));
    assert!(!not_found.same_code(Kind::Timeout.info()));
    assert!(not_found.is_value(Kind::NotFound));
    assert!(!not_found.is_value(Other::Thing));
    assert_eq!(not_found.decode_value::<Kind>(), Some(Kind::NotFound));
    assert_eq!(Kind::Timeout.info().decode_value::<Kind>(), Some(Kind::Timeout));
    assert_eq!(not_found.decode_value::<Other>(), None);
    assert_eq!(Other::Thing.info().decode_value::<Other>(), Some(Other::Thing));
}

#[test]
fn no_code_means_no_match() {
    let e = Error::from_foreign(Representation::CompactWithLocation, "fmt::Error", (), loc(1));
    assert!(!e.is_code(Kind::NotFound));
    assert!(!e.is_code_info(Kind::NotFound.info()));
    assert!(error_code_for_error(5u8).is_none());
}

#[test]
fn frame_rendering() {
    let with_message: &'static ErrorCodeInfo = Box::leak(Box::new(ErrorCodeInfo {
        tid: TypeId::of::<Kind>(),
        value: 3,
        enum_name: "Kind",
        variant_name: "NotFound",
        message: Some("not found"),
    }));
    let plain = Kind::NotFound.info();
    let frame = |data: ErrorFrameData| ErrorFrame { data, location: None }.render();

    assert_eq!(frame(ErrorFrameData::TypeFrame("T", Some(with_message))), "not found (Kind::NotFound)");
    assert_eq!(frame(ErrorFrameData::TypeFrame("T", Some(plain))), "<converted from type: T> (Kind::NotFound)");
    assert_eq!(frame(ErrorFrameData::TypeFrame("T", None)), "<converted from type: T>");
    assert_eq!(frame(ErrorFrameData::NormalFrame(None, Some(with_message))), "not found (Kind::NotFound)");
    assert_eq!(
        frame(ErrorFrameData::NormalFrame(Some(MessageContainer::Static("m")), Some(with_message))),
        "m (Kind::NotFound)"
    );
    assert_eq!(frame(ErrorFrameData::NormalFrame(None, Some(plain))), "<no message given> (Kind::NotFound)");
    assert_eq!(
        frame(ErrorFrameData::NormalFrame(Some(MessageContainer::IncompleteStatic("m {x}")), None)),
        "<unformatted message:>m {x}"
    );
    assert_eq!(
        frame(ErrorFrameData::NormalFrame(Some(MessageContainer::Formatted("f 1".to_string())), None)),
        "f 1"
    );
    assert_eq!(frame(ErrorFrameData::NormalFrame(None, None)), "<no message or code given???>");
    assert_eq!(
        frame(ErrorFrameData::InternalContext(InternalContextType::ErrorTypeConstructed)),
        "<ErrorInfo constructed at:>"
    );
    assert_eq!(InternalContextType::OriginalTypeLost.message(), "<original error type lost>");
    assert_eq!(InternalContextType::FurtherFramesOmitted.message(), "<some frames have been omitted>");
}

#[test]
fn messages_and_descriptors() {
    let m = MessageContainer::IncompleteStatic("x");
    assert!(m.is_incomplete());
    assert_eq!(m.as_str(), "x");
    assert_eq!(m.render(), "<unformatted message:>x");
    assert!(!MessageContainer::Static("y").is_incomplete());
    assert_eq!(MessageContainer::Formatted("z".to_string()).as_str(), "z");

    let data = ErrorFrameData::decode_static(incomplete("needs {x}"), None);
    assert!(matches!(data, ErrorFrameData::NormalFrame(Some(MessageContainer::IncompleteStatic("needs {x}")), None)));
    let data = ErrorFrameData::decode_static(source(None, Some("s")), Some(MessageContainer::Formatted("f".to_string())));
    assert!(matches!(data, ErrorFrameData::NormalFrame(Some(MessageContainer::Formatted(_)), None)));
    let data = ErrorFrameData::decode_static(source(None, None), None);
    assert!(matches!(data, ErrorFrameData::NormalFrame(None, None)));

    assert!(source(None, None).is_code_only());
    let located: &'static ErrorSourceStatic = Box::leak(Box::new(ErrorSourceStatic {
        error_code: None,
        message_static: None,
        is_static_message_incomplete: false,
        location: Some(Box::leak(Box::new(loc(3)))),
    }));
    assert!(!located.is_code_only());
}

#[test]
fn locations_compare_by_file_and_line() {
    let a = DecodedLocation { module: "src/a.rs", line: 4, column: 1 };
    assert!(a.is_same(DecodedLocation { module: "src/a.rs", line: 4, column: 99 }));
    assert!(!a.is_same(DecodedLocation { module: "src/a.rs", line: 5, column: 1 }));
    assert!(!a.is_same(DecodedLocation { module: "src/b.rs", line: 4, column: 1 }));
    assert!(str_equal("", ""));
    assert!(str_equal("héllo", "héllo"));
    assert!(!str_equal("héllo", "hello"));
    assert!(!str_equal("ab", "abc"));
}

#[test]
fn default_representation_is_compact() {
    assert!(Representation::default() == Representation::Compact);
}

#[test]
fn dispatcher_matches_backends() {
    let origin = ErrorOrigin::StaticOrigin(source(None, Some("o")));
    let mut full = ErrorImpl::Full(FullErrorImpl::new(origin, None, Some(loc(1))));
    let mut compact = ErrorImpl::Unboxed(errcode::error_impl::unboxed::ErrorImpl::new(origin, None));
    for e in [&mut full, &mut compact] {
        e.push_context(source(Some(Kind::Timeout.info()), Some("t")), None, loc(2));
        e.push_context(source(None, Some("u")), None, loc(3));
        assert_eq!(e.code().map(|c| c.value), Some(7));
    }
    assert_eq!(rendered(&full.frames()), vec!["o", "t (Kind::Timeout)", "u"]);
    assert_eq!(
        rendered(&compact.frames()),
        vec!["o", "t (Kind::Timeout)", "<some frames have been omitted>"]
    );
}

fn run_backend<B: ErrorImplFunctions>() -> (Option<u32>, Vec<String>) {
    let mut e = B::new(ErrorOrigin::TypeOrigin("io::Error", None), None, Some(loc(1)));
    e.push_context(source(None, Some("read")), None, Some(loc(2)));
    e.push_context(source(Some(Kind::NotFound.info()), Some("lookup")), None, Some(loc(3)));
    e.push_context(source(None, Some("reply")), Some("reply sent".to_string()), Some(loc(4)));
    (e.code().map(|c| c.value), rendered(&e.frames()))
}

#[test]
fn backends_share_one_contract() {
    let (full_code, full_frames) = run_backend::<FullErrorImpl>();
    let (compact_code, compact_frames) = run_backend::<errcode::error_impl::unboxed::ErrorImpl>();
    assert_eq!(full_code, Some(3));
    assert_eq!(compact_code, Some(3));
    assert_eq!(
        full_frames,
        vec!["<converted from type: io::Error>", "read", "lookup (Kind::NotFound)", "reply sent"]
    );
    assert_eq!(
        compact_frames,
        vec!["<original error type lost>", "read", "lookup (Kind::NotFound)", "<some frames have been omitted>"]
    );
}

#[test]
fn type_id_tests_one_call_down() {
    let not_found = Kind::NotFound.info();
    let kind_id = TypeId::of::<Kind>();
    let other_id = TypeId::of::<Other>();
    assert!(not_found.is_value_with_id(&kind_id, Kind::NotFound));
    assert!(!not_found.is_value_with_id(&kind_id, Kind::Timeout));
    assert!(!not_found.is_value_with_id(&other_id, Other::Thing));
    assert_eq!(not_found.decode_value_with_id::<Kind>(&kind_id), Some(Kind::NotFound));
    assert_eq!(not_found.decode_value_with_id::<Other>(&other_id), None);

    let e = Error::new(
        Representation::Compact,
        ErrorOrigin::StaticOrigin(source(Some(not_found), None)),
        None,
        loc(1),
    );
    assert!(e.is_code_with_id(&kind_id, Kind::NotFound));
    assert!(!e.is_code_with_id(&other_id, Other::Thing));
    assert!(!e.is_code_with_id(&kind_id, Kind::Timeout));
    let bare = Error::from_foreign(Representation::Full, "io::Error", 1u8, loc(2));
    assert!(!bare.is_code_with_id(&kind_id, Kind::NotFound));
}

#[test]
fn full_backend_type_origin_with_descriptor() {
    let descriptor = source(Some(Kind::NotFound.info()), Some("lookup"));
    let e = Error::new(Representation::Full, ErrorOrigin::TypeOrigin("io::Error", Some(descriptor)), None, loc(1));
    assert_eq!(rendered(&e.frames()), vec!["lookup (Kind::NotFound)"]);
    assert!(e.is_code(Kind::NotFound));
    let m = Error::new(
        Representation::Full,
        ErrorOrigin::TypeOrigin("io::Error", Some(descriptor)),
        Some("lookup of 7".to_string()),
        loc(1),
    );
    assert_eq!(rendered(&m.frames()), vec!["lookup of 7 (Kind::NotFound)"]);
}
