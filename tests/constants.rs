use rust_macios::enums::{
    NSApplicationActivationOptions, NSApplicationActivationPolicy, NSApplicationDelegateReply,
    NSApplicationTerminateReply, NSEventMask, NSEventType, NSWindowStyleMask, NSWindowToolbarStyle,
};
use rust_macios::locale::LanguageDirection;
use rust_macios::runtime::{Encoding, Value};

#[test]
fn event_types_match_headers() {
    assert_eq!(NSEventType::LeftMouseDown.raw_value(), 1);
    assert_eq!(NSEventType::CursorUpdate.raw_value(), 17);
    assert_eq!(NSEventType::Rotate.raw_value(), 18);
    assert_eq!(NSEventType::ScrollWheel.raw_value(), 22);
    assert_eq!(NSEventType::ChangeMode.raw_value(), 38);
    assert_eq!(NSEventType::from_raw(10), Some(NSEventType::KeyDown));
    assert_eq!(NSEventType::from_raw(19), Some(NSEventType::BeginGesture));
    assert_eq!(NSEventType::from_raw(21), None);
    assert_eq!(NSEventType::from_raw(0), None);
    assert_eq!(NSEventType::from_raw(39), None);
}

#[test]
fn event_masks_are_type_bits() {
    assert_eq!(NSEventMask::LeftMouseDown.raw_value(), 2);
    assert_eq!(NSEventMask::KeyDown.raw_value(), 1 << 10);
    assert_eq!(NSEventMask::ChangeMode.raw_value(), 1u64 << 38);
    assert_eq!(NSEventMask::AnyEvent.raw_value(), u64::MAX);
    assert_eq!(NSEventMask::from_type(NSEventType::Swipe), NSEventMask::Swipe);
    assert_eq!(NSEventMask::from_type(NSEventType::Swipe).raw_value(), 1u64 << 31);
}

#[test]
fn application_constants_match_headers() {
    assert_eq!(NSApplicationDelegateReply::Failure.raw_value(), 2);
    assert_eq!(NSApplicationDelegateReply::from_raw(1), Some(NSApplicationDelegateReply::Cancel));
    assert_eq!(NSApplicationDelegateReply::from_raw(3), None);
    assert_eq!(NSApplicationActivationPolicy::Regular.raw_value(), 0);
    assert_eq!(NSApplicationActivationPolicy::from_raw(2), Some(NSApplicationActivationPolicy::Prohibited));
    assert_eq!(NSApplicationActivationPolicy::from_raw(-1), None);
    assert_eq!(NSApplicationActivationOptions::AllWindows.raw_value(), 1);
    assert_eq!(NSApplicationActivationOptions::IgnoringOtherWindows.raw_value(), 2);
    assert_eq!(NSApplicationTerminateReply::Later.raw_value(), 2);
    assert_eq!(NSApplicationTerminateReply::from_raw(0), Some(NSApplicationTerminateReply::Cancel));
    assert_eq!(NSApplicationTerminateReply::encode(), Encoding::Int);
    assert_eq!(NSApplicationTerminateReply::encode().code(), "q");
}

#[test]
fn window_constants_match_headers() {
    assert_eq!(NSWindowStyleMask::Borderless.raw_value(), 0);
    assert_eq!(NSWindowStyleMask::Titled.raw_value(), 1);
    assert_eq!(NSWindowStyleMask::DocModal.raw_value(), 64);
    assert_eq!(NSWindowStyleMask::Unscaled.raw_value(), 2048);
    assert_eq!(NSWindowStyleMask::FullSizeContentView.raw_value(), 32768);
    assert_eq!(NSWindowToolbarStyle::UnifiedCompact.raw_value(), 4);
    assert_eq!(NSWindowToolbarStyle::from_raw(3), Some(NSWindowToolbarStyle::Unified));
    assert_eq!(NSWindowToolbarStyle::from_raw(5), None);
}

#[test]
fn language_directions_match_headers() {
    assert_eq!(LanguageDirection::Unknown.raw_value(), 0);
    assert_eq!(LanguageDirection::BottomToTop.raw_value(), 4);
    assert_eq!(LanguageDirection::from_raw(3), Some(LanguageDirection::TopToBottom));
    assert_eq!(LanguageDirection::from_raw(7), None);
}

#[test]
fn encodings_have_runtime_codes() {
    assert_eq!(Encoding::Void.code(), "v");
    assert_eq!(Encoding::Object.code(), "@");
    assert_eq!(Encoding::Bool.code(), "c");
    assert_eq!(Encoding::UInt.code(), "Q");
    assert_eq!(Encoding::Rect.code(), "{CGRect={CGPoint=dd}{CGSize=dd}}");
    assert_eq!(Value::Nil.encoding(), Encoding::Object);
    assert_eq!(Value::Bool(1).encoding(), Encoding::Bool);
    assert_eq!(Value::Bytes(vec![1, 2]).encoding(), Encoding::Bytes);
}
