//! Constant tables mirrored bit for bit from the foreign runtime's headers.
use crate::runtime::Encoding;
use vstd::prelude::*;

verus! {

/// Constants that indicate whether a copy or print operation was successful,
/// was canceled, or failed.
#[derive(Debug, Clone, Copy, PartialEq, Eq, Structural)]
pub enum NSApplicationDelegateReply {
    /// The operation succeeded.
    Success,
    /// The user cancelled the operation.
    Cancel,
    /// An error occurred processing the operation.
    Failure,
}

impl NSApplicationDelegateReply {
    /// The value the runtime's headers give this constant.
    pub open spec fn spec_raw(self) -> u64 {
        match self {
            NSApplicationDelegateReply::Success => 0,
            NSApplicationDelegateReply::Cancel => 1,
            NSApplicationDelegateReply::Failure => 2,
        }
    }

    /// The value the runtime's headers give this constant.
    pub fn raw_value(self) -> (r: u64)
        ensures
            r == self.spec_raw(),
    {
        match self {
            NSApplicationDelegateReply::Success => 0,
            NSApplicationDelegateReply::Cancel => 1,
            NSApplicationDelegateReply::Failure => 2,
        }
    }

    /// The constant with the value `raw`, or `None` where the headers give
    /// none that value.
    pub fn from_raw(raw: u64) -> (r: Option<NSApplicationDelegateReply>)
        ensures
            r matches Some(e) ==> e.spec_raw() == raw,
            r.is_none() ==> forall|e: NSApplicationDelegateReply| e.spec_raw() != raw,
    {
        match raw {
            0 => Some(NSApplicationDelegateReply::Success),
            1 => Some(NSApplicationDelegateReply::Cancel),
            2 => Some(NSApplicationDelegateReply::Failure),
            _ => None,
        }
    }
}

/// The types of events that responder objects can handle.
#[derive(Debug, Clone, Copy, PartialEq, Eq, Structural)]
pub enum NSEventType {
    /// The user pressed the left mouse button.
    LeftMouseDown,
    /// The user released the left mouse button.
    LeftMouseUp,
    /// The user pressed the right mouse button.
    RightMouseDown,
    /// The user released the right mouse button.
    RightMouseUp,
    /// The user moved the mouse so that the cursor moved onscreen.
    MouseMoved,
    /// The user moved the mouse while holding down the left mouse button.
    LeftMouseDragged,
    /// The user moved the mouse while holding down the right mouse button.
    RightMouseDragged,
    /// The cursor entered a well-defined area, such as a view.
    MouseEntered,
    /// The cursor exited a well-defined area, such as a view.
    MouseExited,
    /// The user pressed a key on the keyboard.
    KeyDown,
    /// The user released a key on the keyboard.
    KeyUp,
    /// The event flags changed.
    FlagsChanged,
    /// An AppKit-related event occurred.
    AppKitDefined,
    /// A system-related event occurred.
    SystemDefined,
    /// An app-defined event occurred.
    ApplicationDefined,
    /// An event that provides execution time to periodic tasks.
    Periodic,
    /// An event that updates the cursor.
    CursorUpdate,
    /// The scroll wheel position changed.
    ScrollWheel,
    /// The user touched a point on a tablet.
    TabletPoint,
    /// A pointing device is near, but not touching, the associated tablet.
    TabletProximity,
    /// The user pressed a tertiary mouse button.
    OtherMouseDown,
    /// The user released a tertiary mouse button.
    OtherMouseUp,
    /// The user moved the mouse while holding down a tertiary mouse button.
    OtherMouseDragged,
    /// The user performed a nonspecific type of gesture.
    Gesture,
    /// The user performed a pinch-open or pinch-close gesture.
    Magnify,
    /// The user performed a swipe gesture.
    Swipe,
    /// The user performed a rotate gesture.
    Rotate,
    /// An event marking the beginning of a gesture.
    BeginGesture,
    /// An event that marks the end of a gesture.
    EndGesture,
    /// The user performed a smart-zoom gesture.
    SmartMagnify,
    /// An event that initiates a Quick Look request.
    QuickLook,
    /// A change in pressure on a pressure-sensitive device.
    Pressure,
    /// The user touched a portion of the touch bar.
    DirectTouch,
    /// The user changed the mode of a connected device.
    ChangeMode,
}

impl NSEventType {
    /// The value the runtime's headers give this constant.
    pub open spec fn spec_raw(self) -> u64 {
        match self {
            NSEventType::LeftMouseDown => 1,
            NSEventType::LeftMouseUp => 2,
            NSEventType::RightMouseDown => 3,
            NSEventType::RightMouseUp => 4,
            NSEventType::MouseMoved => 5,
            NSEventType::LeftMouseDragged => 6,
            NSEventType::RightMouseDragged => 7,
            NSEventType::MouseEntered => 8,
            NSEventType::MouseExited => 9,
            NSEventType::KeyDown => 10,
            NSEventType::KeyUp => 11,
            NSEventType::FlagsChanged => 12,
            NSEventType::AppKitDefined => 13,
            NSEventType::SystemDefined => 14,
            NSEventType::ApplicationDefined => 15,
            NSEventType::Periodic => 16,
            NSEventType::CursorUpdate => 17,
            NSEventType::ScrollWheel => 22,
            NSEventType::TabletPoint => 23,
            NSEventType::TabletProximity => 24,
            NSEventType::OtherMouseDown => 25,
            NSEventType::OtherMouseUp => 26,
            NSEventType::OtherMouseDragged => 27,
            NSEventType::Gesture => 29,
            NSEventType::Magnify => 30,
            NSEventType::Swipe => 31,
            NSEventType::Rotate => 18,
            NSEventType::BeginGesture => 19,
            NSEventType::EndGesture => 20,
            NSEventType::SmartMagnify => 32,
            NSEventType::QuickLook => 33,
            NSEventType::Pressure => 34,
            NSEventType::DirectTouch => 37,
            NSEventType::ChangeMode => 38,
        }
    }

    /// The value the runtime's headers give this constant.
    pub fn raw_value(self) -> (r: u64)
        ensures
            r == self.spec_raw(),
    {
        match self {
            NSEventType::LeftMouseDown => 1,
            NSEventType::LeftMouseUp => 2,
            NSEventType::RightMouseDown => 3,
            NSEventType::RightMouseUp => 4,
            NSEventType::MouseMoved => 5,
            NSEventType::LeftMouseDragged => 6,
            NSEventType::RightMouseDragged => 7,
            NSEventType::MouseEntered => 8,
            NSEventType::MouseExited => 9,
            NSEventType::KeyDown => 10,
            NSEventType::KeyUp => 11,
            NSEventType::FlagsChanged => 12,
            NSEventType::AppKitDefined => 13,
            NSEventType::SystemDefined => 14,
            NSEventType::ApplicationDefined => 15,
            NSEventType::Periodic => 16,
            NSEventType::CursorUpdate => 17,
            NSEventType::ScrollWheel => 22,
            NSEventType::TabletPoint => 23,
            NSEventType::TabletProximity => 24,
            NSEventType::OtherMouseDown => 25,
            NSEventType::OtherMouseUp => 26,
            NSEventType::OtherMouseDragged => 27,
            NSEventType::Gesture => 29,
            NSEventType::Magnify => 30,
            NSEventType::Swipe => 31,
            NSEventType::Rotate => 18,
            NSEventType::BeginGesture => 19,
            NSEventType::EndGesture => 20,
            NSEventType::SmartMagnify => 32,
            NSEventType::QuickLook => 33,
            NSEventType::Pressure => 34,
            NSEventType::DirectTouch => 37,
            NSEventType::ChangeMode => 38,
        }
    }

    /// The constant with the value `raw`, or `None` where the headers give
    /// none that value.
    pub fn from_raw(raw: u64) -> (r: Option<NSEventType>)
        ensures
            r matches Some(e) ==> e.spec_raw() == raw,
            r.is_none() ==> forall|e: NSEventType| e.spec_raw() != raw,
    {
        match raw {
            1 => Some(NSEventType::LeftMouseDown),
            2 => Some(NSEventType::LeftMouseUp),
            3 => Some(NSEventType::RightMouseDown),
            4 => Some(NSEventType::RightMouseUp),
            5 => Some(NSEventType::MouseMoved),
            6 => Some(NSEventType::LeftMouseDragged),
            7 => Some(NSEventType::RightMouseDragged),
            8 => Some(NSEventType::MouseEntered),
            9 => Some(NSEventType::MouseExited),
            10 => Some(NSEventType::KeyDown),
            11 => Some(NSEventType::KeyUp),
            12 => Some(NSEventType::FlagsChanged),
            13 => Some(NSEventType::AppKitDefined),
            14 => Some(NSEventType::SystemDefined),
            15 => Some(NSEventType::ApplicationDefined),
            16 => Some(NSEventType::Periodic),
            17 => Some(NSEventType::CursorUpdate),
            18 => Some(NSEventType::Rotate),
            19 => Some(NSEventType::BeginGesture),
            20 => Some(NSEventType::EndGesture),
            22 => Some(NSEventType::ScrollWheel),
            23 => Some(NSEventType::TabletPoint),
            24 => Some(NSEventType::TabletProximity),
            25 => Some(NSEventType::OtherMouseDown),
            26 => Some(NSEventType::OtherMouseUp),
            27 => Some(NSEventType::OtherMouseDragged),
            29 => Some(NSEventType::Gesture),
            30 => Some(NSEventType::Magnify),
            31 => Some(NSEventType::Swipe),
            32 => Some(NSEventType::SmartMagnify),
            33 => Some(NSEventType::QuickLook),
            34 => Some(NSEventType::Pressure),
            37 => Some(NSEventType::DirectTouch),
            38 => Some(NSEventType::ChangeMode),
            _ => None,
        }
    }
}

/// Activation policies that control whether and how an app may be activated.
#[derive(Debug, Clone, Copy, PartialEq, Eq, Structural)]
pub enum NSApplicationActivationPolicy {
    /// An ordinary app that appears in the Dock and may have a user interface.
    Regular,
    /// An app that does not appear in the Dock and has no menu bar, but may be activated.
    Accessory,
    /// An app that does not appear in the Dock and may not create windows or be activated.
    Prohibited,
}

impl NSApplicationActivationPolicy {
    /// The value the runtime's headers give this constant.
    pub open spec fn spec_raw(self) -> i64 {
        match self {
            NSApplicationActivationPolicy::Regular => 0,
            NSApplicationActivationPolicy::Accessory => 1,
            NSApplicationActivationPolicy::Prohibited => 2,
        }
    }

    /// The value the runtime's headers give this constant.
    pub fn raw_value(self) -> (r: i64)
        ensures
            r == self.spec_raw(),
    {
        match self {
            NSApplicationActivationPolicy::Regular => 0,
            NSApplicationActivationPolicy::Accessory => 1,
            NSApplicationActivationPolicy::Prohibited => 2,
        }
    }

    /// The constant with the value `raw`, or `None` where the headers give
    /// none that value.
    pub fn from_raw(raw: i64) -> (r: Option<NSApplicationActivationPolicy>)
        ensures
            r matches Some(e) ==> e.spec_raw() == raw,
            r.is_none() ==> forall|e: NSApplicationActivationPolicy| e.spec_raw() != raw,
    {
        match raw {
            0 => Some(NSApplicationActivationPolicy::Regular),
            1 => Some(NSApplicationActivationPolicy::Accessory),
            2 => Some(NSApplicationActivationPolicy::Prohibited),
            _ => None,
        }
    }
}

/// Options for activating an app.
#[derive(Debug, Clone, Copy, PartialEq, Eq, Structural)]
pub enum NSApplicationActivationOptions {
    /// All of the app's windows are brought forward, not only the main and key ones.
    AllWindows,
    /// The app is activated regardless of the currently active app.
    IgnoringOtherWindows,
}

impl NSApplicationActivationOptions {
    /// The value the runtime's headers give this constant.
    pub open spec fn spec_raw(self) -> u64 {
        match self {
            NSApplicationActivationOptions::AllWindows => 1,
            NSApplicationActivationOptions::IgnoringOtherWindows => 2,
        }
    }

    /// The value the runtime's headers give this constant.
    pub fn raw_value(self) -> (r: u64)
        ensures
            r == self.spec_raw(),
    {
        match self {
            NSApplicationActivationOptions::AllWindows => 1,
            NSApplicationActivationOptions::IgnoringOtherWindows => 2,
        }
    }
}

/// Constants that determine whether an app should terminate.
#[derive(Debug, Clone, Copy, PartialEq, Eq, Structural)]
pub enum NSApplicationTerminateReply {
    /// The app should not be terminated.
    Cancel,
    /// It is OK to proceed with termination.
    Now,
    /// The app should be terminated, but the user should be asked first.
    Later,
}

impl NSApplicationTerminateReply {
    /// The value the runtime's headers give this constant.
    pub open spec fn spec_raw(self) -> u64 {
        match self {
            NSApplicationTerminateReply::Cancel => 0,
            NSApplicationTerminateReply::Now => 1,
            NSApplicationTerminateReply::Later => 2,
        }
    }

    /// The value the runtime's headers give this constant.
    pub fn raw_value(self) -> (r: u64)
        ensures
            r == self.spec_raw(),
    {
        match self {
            NSApplicationTerminateReply::Cancel => 0,
            NSApplicationTerminateReply::Now => 1,
            NSApplicationTerminateReply::Later => 2,
        }
    }

    /// The constant with the value `raw`, or `None` where the headers give
    /// none that value.
    pub fn from_raw(raw: u64) -> (r: Option<NSApplicationTerminateReply>)
        ensures
            r matches Some(e) ==> e.spec_raw() == raw,
            r.is_none() ==> forall|e: NSApplicationTerminateReply| e.spec_raw() != raw,
    {
        match raw {
            0 => Some(NSApplicationTerminateReply::Cancel),
            1 => Some(NSApplicationTerminateReply::Now),
            2 => Some(NSApplicationTerminateReply::Later),
            _ => None,
        }
    }
}

/// The style options of a window.
#[derive(Debug, Clone, Copy, PartialEq, Eq, Structural)]
pub enum NSWindowStyleMask {
    /// The window displays none of the usual peripheral elements.
    Borderless,
    /// The window displays a title bar.
    Titled,
    /// The window displays a close button.
    Closable,
    /// The window displays a minimize button.
    Miniaturizable,
    /// The window can be resized by the user.
    Resizable,
    /// The window is a panel or a subclass of it.
    Utility,
    /// The window is a document-modal panel.
    DocModal,
    /// The window is a panel that does not activate the owning app.
    NonactivatingPanel,
    /// The window uses a textured background.
    TexturedBackground,
    /// The window is not scaled.
    Unscaled,
    /// The title bar and toolbar are unified.
    UnifiedTitleAndToolbar,
    /// The window is a HUD panel.
    Hud,
    /// The window can appear full screen.
    FullScreenWindow,
    /// The window's content view consumes the full size of the window.
    FullSizeContentView,
}

impl NSWindowStyleMask {
    /// The value the runtime's headers give this constant.
    pub open spec fn spec_raw(self) -> u64 {
        match self {
            NSWindowStyleMask::Borderless => 0,
            NSWindowStyleMask::Titled => 1,
            NSWindowStyleMask::Closable => 2,
            NSWindowStyleMask::Miniaturizable => 4,
            NSWindowStyleMask::Resizable => 8,
            NSWindowStyleMask::Utility => 16,
            NSWindowStyleMask::DocModal => 64,
            NSWindowStyleMask::NonactivatingPanel => 128,
            NSWindowStyleMask::TexturedBackground => 256,
            NSWindowStyleMask::Unscaled => 2048,
            NSWindowStyleMask::UnifiedTitleAndToolbar => 4096,
            NSWindowStyleMask::Hud => 8192,
            NSWindowStyleMask::FullScreenWindow => 16384,
            NSWindowStyleMask::FullSizeContentView => 32768,
        }
    }

    /// The value the runtime's headers give this constant.
    pub fn raw_value(self) -> (r: u64)
        ensures
            r == self.spec_raw(),
    {
        match self {
            NSWindowStyleMask::Borderless => 0,
            NSWindowStyleMask::Titled => 1,
            NSWindowStyleMask::Closable => 2,
            NSWindowStyleMask::Miniaturizable => 4,
            NSWindowStyleMask::Resizable => 8,
            NSWindowStyleMask::Utility => 16,
            NSWindowStyleMask::DocModal => 64,
            NSWindowStyleMask::NonactivatingPanel => 128,
            NSWindowStyleMask::TexturedBackground => 256,
            NSWindowStyleMask::Unscaled => 2048,
            NSWindowStyleMask::UnifiedTitleAndToolbar => 4096,
            NSWindowStyleMask::Hud => 8192,
            NSWindowStyleMask::FullScreenWindow => 16384,
            NSWindowStyleMask::FullSizeContentView => 32768,
        }
    }
}

/// The appearance and location of a window's toolbar.
#[derive(Debug, Clone, Copy, PartialEq, Eq, Structural)]
pub enum NSWindowToolbarStyle {
    /// The system determines the toolbar's appearance and location.
    Automatic,
    /// The toolbar appears below the window title.
    Expanded,
    /// The toolbar appears below the window title, its items centered.
    Preference,
    /// The toolbar appears next to the window title.
    Unified,
    /// The toolbar appears next to the window title, with reduced margins.
    UnifiedCompact,
}

impl NSWindowToolbarStyle {
    /// The value the runtime's headers give this constant.
    pub open spec fn spec_raw(self) -> i64 {
        match self {
            NSWindowToolbarStyle::Automatic => 0,
            NSWindowToolbarStyle::Expanded => 1,
            NSWindowToolbarStyle::Preference => 2,
            NSWindowToolbarStyle::Unified => 3,
            NSWindowToolbarStyle::UnifiedCompact => 4,
        }
    }

    /// The value the runtime's headers give this constant.
    pub fn raw_value(self) -> (r: i64)
        ensures
            r == self.spec_raw(),
    {
        match self {
            NSWindowToolbarStyle::Automatic => 0,
            NSWindowToolbarStyle::Expanded => 1,
            NSWindowToolbarStyle::Preference => 2,
            NSWindowToolbarStyle::Unified => 3,
            NSWindowToolbarStyle::UnifiedCompact => 4,
        }
    }

    /// The constant with the value `raw`, or `None` where the headers give
    /// none that value.
    pub fn from_raw(raw: i64) -> (r: Option<NSWindowToolbarStyle>)
        ensures
            r matches Some(e) ==> e.spec_raw() == raw,
            r.is_none() ==> forall|e: NSWindowToolbarStyle| e.spec_raw() != raw,
    {
        match raw {
            0 => Some(NSWindowToolbarStyle::Automatic),
            1 => Some(NSWindowToolbarStyle::Expanded),
            2 => Some(NSWindowToolbarStyle::Preference),
            3 => Some(NSWindowToolbarStyle::Unified),
            4 => Some(NSWindowToolbarStyle::UnifiedCompact),
            _ => None,
        }
    }
}

/// Masks that filter specific event types out of the stream of incoming events.
#[derive(Debug, Clone, Copy, PartialEq, Eq, Structural)]
pub enum NSEventMask {
    /// The mask for `NSEventType::LeftMouseDown` events.
    LeftMouseDown,
    /// The mask for `NSEventType::LeftMouseUp` events.
    LeftMouseUp,
    /// The mask for `NSEventType::RightMouseDown` events.
    RightMouseDown,
    /// The mask for `NSEventType::RightMouseUp` events.
    RightMouseUp,
    /// The mask for `NSEventType::MouseMoved` events.
    MouseMoved,
    /// The mask for `NSEventType::LeftMouseDragged` events.
    LeftMouseDragged,
    /// The mask for `NSEventType::RightMouseDragged` events.
    RightMouseDragged,
    /// The mask for `NSEventType::MouseEntered` events.
    MouseEntered,
    /// The mask for `NSEventType::MouseExited` events.
    MouseExited,
    /// The mask for `NSEventType::KeyDown` events.
    KeyDown,
    /// The mask for `NSEventType::KeyUp` events.
    KeyUp,
    /// The mask for `NSEventType::FlagsChanged` events.
    FlagsChanged,
    /// The mask for `NSEventType::AppKitDefined` events.
    AppKitDefined,
    /// The mask for `NSEventType::SystemDefined` events.
    SystemDefined,
    /// The mask for `NSEventType::ApplicationDefined` events.
    ApplicationDefined,
    /// The mask for `NSEventType::Periodic` events.
    Periodic,
    /// The mask for `NSEventType::CursorUpdate` events.
    CursorUpdate,
    /// The mask for `NSEventType::ScrollWheel` events.
    ScrollWheel,
    /// The mask for `NSEventType::TabletPoint` events.
    TabletPoint,
    /// The mask for `NSEventType::TabletProximity` events.
    TabletProximity,
    /// The mask for `NSEventType::OtherMouseDown` events.
    OtherMouseDown,
    /// The mask for `NSEventType::OtherMouseUp` events.
    OtherMouseUp,
    /// The mask for `NSEventType::OtherMouseDragged` events.
    OtherMouseDragged,
    /// The mask for `NSEventType::Gesture` events.
    Gesture,
    /// The mask for `NSEventType::Magnify` events.
    Magnify,
    /// The mask for `NSEventType::Swipe` events.
    Swipe,
    /// The mask for `NSEventType::Rotate` events.
    Rotate,
    /// The mask for `NSEventType::BeginGesture` events.
    BeginGesture,
    /// The mask for `NSEventType::EndGesture` events.
    EndGesture,
    /// The mask for `NSEventType::SmartMagnify` events.
    SmartMagnify,
    /// The mask for `NSEventType::QuickLook` events.
    QuickLook,
    /// The mask for `NSEventType::Pressure` events.
    Pressure,
    /// The mask for `NSEventType::DirectTouch` events.
    DirectTouch,
    /// The mask for `NSEventType::ChangeMode` events.
    ChangeMode,
    /// A mask that matches any type of event.
    AnyEvent,
}

impl NSEventMask {
    /// The value the runtime's headers give this mask: the bit of its event
    /// type, or every bit.
    pub open spec fn spec_raw(self) -> u64 {
        match self {
            NSEventMask::LeftMouseDown => 1u64 << NSEventType::LeftMouseDown.spec_raw(),
            NSEventMask::LeftMouseUp => 1u64 << NSEventType::LeftMouseUp.spec_raw(),
            NSEventMask::RightMouseDown => 1u64 << NSEventType::RightMouseDown.spec_raw(),
            NSEventMask::RightMouseUp => 1u64 << NSEventType::RightMouseUp.spec_raw(),
            NSEventMask::MouseMoved => 1u64 << NSEventType::MouseMoved.spec_raw(),
            NSEventMask::LeftMouseDragged => 1u64 << NSEventType::LeftMouseDragged.spec_raw(),
            NSEventMask::RightMouseDragged => 1u64 << NSEventType::RightMouseDragged.spec_raw(),
            NSEventMask::MouseEntered => 1u64 << NSEventType::MouseEntered.spec_raw(),
            NSEventMask::MouseExited => 1u64 << NSEventType::MouseExited.spec_raw(),
            NSEventMask::KeyDown => 1u64 << NSEventType::KeyDown.spec_raw(),
            NSEventMask::KeyUp => 1u64 << NSEventType::KeyUp.spec_raw(),
            NSEventMask::FlagsChanged => 1u64 << NSEventType::FlagsChanged.spec_raw(),
            NSEventMask::AppKitDefined => 1u64 << NSEventType::AppKitDefined.spec_raw(),
            NSEventMask::SystemDefined => 1u64 << NSEventType::SystemDefined.spec_raw(),
            NSEventMask::ApplicationDefined => 1u64 << NSEventType::ApplicationDefined.spec_raw(),
            NSEventMask::Periodic => 1u64 << NSEventType::Periodic.spec_raw(),
            NSEventMask::CursorUpdate => 1u64 << NSEventType::CursorUpdate.spec_raw(),
            NSEventMask::ScrollWheel => 1u64 << NSEventType::ScrollWheel.spec_raw(),
            NSEventMask::TabletPoint => 1u64 << NSEventType::TabletPoint.spec_raw(),
            NSEventMask::TabletProximity => 1u64 << NSEventType::TabletProximity.spec_raw(),
            NSEventMask::OtherMouseDown => 1u64 << NSEventType::OtherMouseDown.spec_raw(),
            NSEventMask::OtherMouseUp => 1u64 << NSEventType::OtherMouseUp.spec_raw(),
            NSEventMask::OtherMouseDragged => 1u64 << NSEventType::OtherMouseDragged.spec_raw(),
            NSEventMask::Gesture => 1u64 << NSEventType::Gesture.spec_raw(),
            NSEventMask::Magnify => 1u64 << NSEventType::Magnify.spec_raw(),
            NSEventMask::Swipe => 1u64 << NSEventType::Swipe.spec_raw(),
            NSEventMask::Rotate => 1u64 << NSEventType::Rotate.spec_raw(),
            NSEventMask::BeginGesture => 1u64 << NSEventType::BeginGesture.spec_raw(),
            NSEventMask::EndGesture => 1u64 << NSEventType::EndGesture.spec_raw(),
            NSEventMask::SmartMagnify => 1u64 << NSEventType::SmartMagnify.spec_raw(),
            NSEventMask::QuickLook => 1u64 << NSEventType::QuickLook.spec_raw(),
            NSEventMask::Pressure => 1u64 << NSEventType::Pressure.spec_raw(),
            NSEventMask::DirectTouch => 1u64 << NSEventType::DirectTouch.spec_raw(),
            NSEventMask::ChangeMode => 1u64 << NSEventType::ChangeMode.spec_raw(),
            NSEventMask::AnyEvent => u64::MAX,
        }
    }

    /// The value the runtime's headers give this mask.
    pub fn raw_value(self) -> (r: u64)
        ensures
            r == self.spec_raw(),
    {
        match self {
            NSEventMask::LeftMouseDown => 1u64 << 1u64,
            NSEventMask::LeftMouseUp => 1u64 << 2u64,
            NSEventMask::RightMouseDown => 1u64 << 3u64,
            NSEventMask::RightMouseUp => 1u64 << 4u64,
            NSEventMask::MouseMoved => 1u64 << 5u64,
            NSEventMask::LeftMouseDragged => 1u64 << 6u64,
            NSEventMask::RightMouseDragged => 1u64 << 7u64,
            NSEventMask::MouseEntered => 1u64 << 8u64,
            NSEventMask::MouseExited => 1u64 << 9u64,
            NSEventMask::KeyDown => 1u64 << 10u64,
            NSEventMask::KeyUp => 1u64 << 11u64,
            NSEventMask::FlagsChanged => 1u64 << 12u64,
            NSEventMask::AppKitDefined => 1u64 << 13u64,
            NSEventMask::SystemDefined => 1u64 << 14u64,
            NSEventMask::ApplicationDefined => 1u64 << 15u64,
            NSEventMask::Periodic => 1u64 << 16u64,
            NSEventMask::CursorUpdate => 1u64 << 17u64,
            NSEventMask::ScrollWheel => 1u64 << 22u64,
            NSEventMask::TabletPoint => 1u64 << 23u64,
            NSEventMask::TabletProximity => 1u64 << 24u64,
            NSEventMask::OtherMouseDown => 1u64 << 25u64,
            NSEventMask::OtherMouseUp => 1u64 << 26u64,
            NSEventMask::OtherMouseDragged => 1u64 << 27u64,
            NSEventMask::Gesture => 1u64 << 29u64,
            NSEventMask::Magnify => 1u64 << 30u64,
            NSEventMask::Swipe => 1u64 << 31u64,
            NSEventMask::Rotate => 1u64 << 18u64,
            NSEventMask::BeginGesture => 1u64 << 19u64,
            NSEventMask::EndGesture => 1u64 << 20u64,
            NSEventMask::SmartMagnify => 1u64 << 32u64,
            NSEventMask::QuickLook => 1u64 << 33u64,
            NSEventMask::Pressure => 1u64 << 34u64,
            NSEventMask::DirectTouch => 1u64 << 37u64,
            NSEventMask::ChangeMode => 1u64 << 38u64,
            NSEventMask::AnyEvent => u64::MAX,
        }
    }

    /// The mask that selects the events of type `t`.
    pub fn from_type(t: NSEventType) -> (r: NSEventMask)
        ensures
            r.spec_raw() == 1u64 << t.spec_raw(),
    {
        match t {
            NSEventType::LeftMouseDown => NSEventMask::LeftMouseDown,
            NSEventType::LeftMouseUp => NSEventMask::LeftMouseUp,
            NSEventType::RightMouseDown => NSEventMask::RightMouseDown,
            NSEventType::RightMouseUp => NSEventMask::RightMouseUp,
            NSEventType::MouseMoved => NSEventMask::MouseMoved,
            NSEventType::LeftMouseDragged => NSEventMask::LeftMouseDragged,
            NSEventType::RightMouseDragged => NSEventMask::RightMouseDragged,
            NSEventType::MouseEntered => NSEventMask::MouseEntered,
            NSEventType::MouseExited => NSEventMask::MouseExited,
            NSEventType::KeyDown => NSEventMask::KeyDown,
            NSEventType::KeyUp => NSEventMask::KeyUp,
            NSEventType::FlagsChanged => NSEventMask::FlagsChanged,
            NSEventType::AppKitDefined => NSEventMask::AppKitDefined,
            NSEventType::SystemDefined => NSEventMask::SystemDefined,
            NSEventType::ApplicationDefined => NSEventMask::ApplicationDefined,
            NSEventType::Periodic => NSEventMask::Periodic,
            NSEventType::CursorUpdate => NSEventMask::CursorUpdate,
            NSEventType::ScrollWheel => NSEventMask::ScrollWheel,
            NSEventType::TabletPoint => NSEventMask::TabletPoint,
            NSEventType::TabletProximity => NSEventMask::TabletProximity,
            NSEventType::OtherMouseDown => NSEventMask::OtherMouseDown,
            NSEventType::OtherMouseUp => NSEventMask::OtherMouseUp,
            NSEventType::OtherMouseDragged => NSEventMask::OtherMouseDragged,
            NSEventType::Gesture => NSEventMask::Gesture,
            NSEventType::Magnify => NSEventMask::Magnify,
            NSEventType::Swipe => NSEventMask::Swipe,
            NSEventType::Rotate => NSEventMask::Rotate,
            NSEventType::BeginGesture => NSEventMask::BeginGesture,
            NSEventType::EndGesture => NSEventMask::EndGesture,
            NSEventType::SmartMagnify => NSEventMask::SmartMagnify,
            NSEventType::QuickLook => NSEventMask::QuickLook,
            NSEventType::Pressure => NSEventMask::Pressure,
            NSEventType::DirectTouch => NSEventMask::DirectTouch,
            NSEventType::ChangeMode => NSEventMask::ChangeMode,
        }
    }
}

impl NSApplicationTerminateReply {
    /// The encoding the reply crosses the boundary as: a signed integer.
    pub fn encode() -> (e: Encoding)
        ensures
            e == Encoding::Int,
    {
        Encoding::Int
    }
}

} // verus!
