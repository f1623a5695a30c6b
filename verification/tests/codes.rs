use core_graphics2::color_conversion_info::CGColorConversionInfoTransformType;
use core_graphics2::color_space::{CGColorRenderingIntent, CGColorSpaceModel};
use core_graphics2::context::{CGBlendMode, CGInterpolationQuality, CGPathDrawingMode, CGTextDrawingMode, CGTextEncoding};
use core_graphics2::display_stream::{CGDisplayStreamFrameStatus, CGDisplayStreamUpdateRectType};
use core_graphics2::error::CGError;
use core_graphics2::event_types::{CGEventField, CGEventMouseSubtype, CGEventSourceStateID, CGEventTapLocation, CGEventTapOptions, CGEventTapPlacement, CGEventType, CGGesturePhase, CGMomentumScrollPhase, CGMouseButton, CGScrollEventUnit, CGScrollPhase};
use core_graphics2::font::CGFontPostScriptFormat;
use core_graphics2::geometry::CGRectEdge;
use core_graphics2::image::{CGImageAlphaInfo, CGImageByteOrderInfo, CGImagePixelFormatInfo};
use core_graphics2::path::{CGLineCap, CGLineJoin, CGPathElementType};
use core_graphics2::pattern::CGPatternTiling;
use core_graphics2::window::{CGWindowBackingType, CGWindowSharingType};
use core_graphics2::window_level::CGWindowLevelKey;

#[test]
fn cg_color_conversion_info_transform_type_codes() {
    let table: Vec<(CGColorConversionInfoTransformType, u32)> = vec![
        (CGColorConversionInfoTransformType::FromSpace, 0),
        (CGColorConversionInfoTransformType::ToSpace, 1),
        (CGColorConversionInfoTransformType::ApplySpace, 2),
    ];
    for (value, code) in table {
        assert_eq!(value.code(), code);
        assert_eq!(CGColorConversionInfoTransformType::from_code(code), Some(value));
    }
    assert_eq!(CGColorConversionInfoTransformType::from_code(3), None);
    assert_eq!(CGColorConversionInfoTransformType::from_code(9), None);
    assert_eq!(CGColorConversionInfoTransformType::from_code(64), None);
}

#[test]
fn cg_color_rendering_intent_codes() {
    let table: Vec<(CGColorRenderingIntent, i32)> = vec![
        (CGColorRenderingIntent::Default, 0),
        (CGColorRenderingIntent::AbsoluteColorimetric, 1),
        (CGColorRenderingIntent::RelativeColorimetric, 2),
        (CGColorRenderingIntent::Perceptual, 3),
        (CGColorRenderingIntent::Saturation, 4),
    ];
    for (value, code) in table {
        assert_eq!(value.code(), code);
        assert_eq!(CGColorRenderingIntent::from_code(code), Some(value));
    }
    assert_eq!(CGColorRenderingIntent::from_code(5), None);
    assert_eq!(CGColorRenderingIntent::from_code(-1), None);
    assert_eq!(CGColorRenderingIntent::from_code(9), None);
}

#[test]
fn cg_color_space_model_codes() {
    let table: Vec<(CGColorSpaceModel, i32)> = vec![
        (CGColorSpaceModel::Unknown, -1),
        (CGColorSpaceModel::Monochrome, 0),
        (CGColorSpaceModel::RGB, 1),
        (CGColorSpaceModel::CMYK, 2),
        (CGColorSpaceModel::Lab, 3),
        (CGColorSpaceModel::DeviceN, 4),
        (CGColorSpaceModel::Indexed, 5),
        (CGColorSpaceModel::Pattern, 6),
        (CGColorSpaceModel::XYZ, 7),
    ];
    for (value, code) in table {
        assert_eq!(value.code(), code);
        assert_eq!(CGColorSpaceModel::from_code(code), Some(value));
    }
    assert_eq!(CGColorSpaceModel::from_code(8), None);
    assert_eq!(CGColorSpaceModel::from_code(-2), None);
    assert_eq!(CGColorSpaceModel::from_code(9), None);
}

#[test]
fn cg_path_drawing_mode_codes() {
    let table: Vec<(CGPathDrawingMode, i32)> = vec![
        (CGPathDrawingMode::Fill, 0),
        (CGPathDrawingMode::EOFill, 1),
        (CGPathDrawingMode::Stroke, 2),
        (CGPathDrawingMode::FillStroke, 3),
        (CGPathDrawingMode::EOFillStroke, 4),
    ];
    for (value, code) in table {
        assert_eq!(value.code(), code);
        assert_eq!(CGPathDrawingMode::from_code(code), Some(value));
    }
    assert_eq!(CGPathDrawingMode::from_code(5), None);
    assert_eq!(CGPathDrawingMode::from_code(-1), None);
    assert_eq!(CGPathDrawingMode::from_code(9), None);
}

#[test]
fn cg_text_drawing_mode_codes() {
    let table: Vec<(CGTextDrawingMode, i32)> = vec![
        (CGTextDrawingMode::Fill, 0),
        (CGTextDrawingMode::Stroke, 1),
        (CGTextDrawingMode::FillStroke, 2),
        (CGTextDrawingMode::Invisible, 3),
        (CGTextDrawingMode::FillClip, 4),
        (CGTextDrawingMode::StrokeClip, 5),
        (CGTextDrawingMode::FillStrokeClip, 6),
        (CGTextDrawingMode::Clip, 7),
    ];
    for (value, code) in table {
        assert_eq!(value.code(), code);
        assert_eq!(CGTextDrawingMode::from_code(code), Some(value));
    }
    assert_eq!(CGTextDrawingMode::from_code(8), None);
    assert_eq!(CGTextDrawingMode::from_code(-1), None);
    assert_eq!(CGTextDrawingMode::from_code(9), None);
}

#[test]
fn cg_text_encoding_codes() {
    let table: Vec<(CGTextEncoding, i32)> = vec![
        (CGTextEncoding::FontSpecific, 0),
        (CGTextEncoding::MacRoman, 1),
    ];
    for (value, code) in table {
        assert_eq!(value.code(), code);
        assert_eq!(CGTextEncoding::from_code(code), Some(value));
    }
    assert_eq!(CGTextEncoding::from_code(2), None);
    assert_eq!(CGTextEncoding::from_code(-1), None);
    assert_eq!(CGTextEncoding::from_code(9), None);
}

#[test]
fn cg_interpolation_quality_codes() {
    let table: Vec<(CGInterpolationQuality, i32)> = vec![
        (CGInterpolationQuality::Default, 0),
        (CGInterpolationQuality::NoInterpolation, 1),
        (CGInterpolationQuality::Low, 2),
        (CGInterpolationQuality::Medium, 4),
        (CGInterpolationQuality::High, 3),
    ];
    for (value, code) in table {
        assert_eq!(value.code(), code);
        assert_eq!(CGInterpolationQuality::from_code(code), Some(value));
    }
    assert_eq!(CGInterpolationQuality::from_code(5), None);
    assert_eq!(CGInterpolationQuality::from_code(-1), None);
    assert_eq!(CGInterpolationQuality::from_code(9), None);
}

#[test]
fn cg_blend_mode_codes() {
    let table: Vec<(CGBlendMode, i32)> = vec![
        (CGBlendMode::Normal, 0),
        (CGBlendMode::Multiply, 1),
        (CGBlendMode::Screen, 2),
        (CGBlendMode::Overlay, 3),
        (CGBlendMode::Darken, 4),
        (CGBlendMode::Lighten, 5),
        (CGBlendMode::ColorDodge, 6),
        (CGBlendMode::ColorBurn, 7),
        (CGBlendMode::SoftLight, 8),
        (CGBlendMode::HardLight, 9),
        (CGBlendMode::Difference, 10),
        (CGBlendMode::Exclusion, 11),
        (CGBlendMode::Hue, 12),
        (CGBlendMode::Saturation, 13),
        (CGBlendMode::Color, 14),
        (CGBlendMode::Luminosity, 15),
        (CGBlendMode::Clear, 16),
        (CGBlendMode::Copy, 17),
        (CGBlendMode::SourceIn, 18),
        (CGBlendMode::SourceOut, 19),
        (CGBlendMode::SourceAtop, 20),
        (CGBlendMode::DestinationOver, 21),
        (CGBlendMode::DestinationIn, 22),
        (CGBlendMode::DestinationOut, 23),
        (CGBlendMode::DestinationAtop, 24),
        (CGBlendMode::XOR, 25),
        (CGBlendMode::PlusDarker, 26),
        (CGBlendMode::PlusLighter, 27),
    ];
    for (value, code) in table {
        assert_eq!(value.code(), code);
        assert_eq!(CGBlendMode::from_code(code), Some(value));
    }
    assert_eq!(CGBlendMode::from_code(28), None);
    assert_eq!(CGBlendMode::from_code(-1), None);
    assert_eq!(CGBlendMode::from_code(64), None);
}

#[test]
fn cg_display_stream_update_rect_type_codes() {
    let table: Vec<(CGDisplayStreamUpdateRectType, i32)> = vec![
        (CGDisplayStreamUpdateRectType::RefreshedRects, 0),
        (CGDisplayStreamUpdateRectType::MovedRects, 1),
        (CGDisplayStreamUpdateRectType::DirtyRects, 2),
        (CGDisplayStreamUpdateRectType::ReducedDirtyRects, 3),
    ];
    for (value, code) in table {
        assert_eq!(value.code(), code);
        assert_eq!(CGDisplayStreamUpdateRectType::from_code(code), Some(value));
    }
    assert_eq!(CGDisplayStreamUpdateRectType::from_code(4), None);
    assert_eq!(CGDisplayStreamUpdateRectType::from_code(-1), None);
    assert_eq!(CGDisplayStreamUpdateRectType::from_code(9), None);
}

#[test]
fn cg_display_stream_frame_status_codes() {
    let table: Vec<(CGDisplayStreamFrameStatus, i32)> = vec![
        (CGDisplayStreamFrameStatus::FrameComplete, 0),
        (CGDisplayStreamFrameStatus::FrameIdle, 1),
        (CGDisplayStreamFrameStatus::FrameBlank, 2),
        (CGDisplayStreamFrameStatus::Stopped, 3),
    ];
    for (value, code) in table {
        assert_eq!(value.code(), code);
        assert_eq!(CGDisplayStreamFrameStatus::from_code(code), Some(value));
    }
    assert_eq!(CGDisplayStreamFrameStatus::from_code(4), None);
    assert_eq!(CGDisplayStreamFrameStatus::from_code(-1), None);
    assert_eq!(CGDisplayStreamFrameStatus::from_code(9), None);
}

#[test]
fn cg_error_codes() {
    let table: Vec<(CGError, i32)> = vec![
        (CGError::Success, 0),
        (CGError::Failure, 1000),
        (CGError::IllegalArgument, 1001),
        (CGError::InvalidConnection, 1002),
        (CGError::InvalidContext, 1003),
        (CGError::CannotComplete, 1004),
        (CGError::NotImplemented, 1006),
        (CGError::RangeCheck, 1007),
        (CGError::TypeCheck, 1008),
        (CGError::InvalidOperation, 1010),
        (CGError::NoneAvailable, 1011),
    ];
    for (value, code) in table {
        assert_eq!(value.code(), code);
        assert_eq!(CGError::from_code(code), Some(value));
    }
    assert_eq!(CGError::from_code(1012), None);
    assert_eq!(CGError::from_code(-1), None);
    assert_eq!(CGError::from_code(9), None);
}

#[test]
fn cg_mouse_button_codes() {
    let table: Vec<(CGMouseButton, u32)> = vec![
        (CGMouseButton::Left, 0),
        (CGMouseButton::Right, 1),
        (CGMouseButton::Center, 2),
    ];
    for (value, code) in table {
        assert_eq!(value.code(), code);
        assert_eq!(CGMouseButton::from_code(code), Some(value));
    }
    assert_eq!(CGMouseButton::from_code(3), None);
    assert_eq!(CGMouseButton::from_code(9), None);
    assert_eq!(CGMouseButton::from_code(64), None);
}

#[test]
fn cg_scroll_event_unit_codes() {
    let table: Vec<(CGScrollEventUnit, u32)> = vec![
        (CGScrollEventUnit::Pixel, 0),
        (CGScrollEventUnit::Line, 1),
    ];
    for (value, code) in table {
        assert_eq!(value.code(), code);
        assert_eq!(CGScrollEventUnit::from_code(code), Some(value));
    }
    assert_eq!(CGScrollEventUnit::from_code(2), None);
    assert_eq!(CGScrollEventUnit::from_code(9), None);
    assert_eq!(CGScrollEventUnit::from_code(64), None);
}

#[test]
fn cg_momentum_scroll_phase_codes() {
    let table: Vec<(CGMomentumScrollPhase, u32)> = vec![
        (CGMomentumScrollPhase::NoPhase, 0),
        (CGMomentumScrollPhase::Begin, 1),
        (CGMomentumScrollPhase::Continue, 2),
        (CGMomentumScrollPhase::End, 3),
    ];
    for (value, code) in table {
        assert_eq!(value.code(), code);
        assert_eq!(CGMomentumScrollPhase::from_code(code), Some(value));
    }
    assert_eq!(CGMomentumScrollPhase::from_code(4), None);
    assert_eq!(CGMomentumScrollPhase::from_code(9), None);
    assert_eq!(CGMomentumScrollPhase::from_code(64), None);
}

#[test]
fn cg_scroll_phase_codes() {
    let table: Vec<(CGScrollPhase, u32)> = vec![
        (CGScrollPhase::Began, 1),
        (CGScrollPhase::Changed, 2),
        (CGScrollPhase::Ended, 4),
        (CGScrollPhase::Cancelled, 8),
        (CGScrollPhase::MayBegin, 128),
    ];
    for (value, code) in table {
        assert_eq!(value.code(), code);
        assert_eq!(CGScrollPhase::from_code(code), Some(value));
    }
    assert_eq!(CGScrollPhase::from_code(129), None);
    assert_eq!(CGScrollPhase::from_code(0), None);
    assert_eq!(CGScrollPhase::from_code(9), None);
}

#[test]
fn cg_gesture_phase_codes() {
    let table: Vec<(CGGesturePhase, u32)> = vec![
        (CGGesturePhase::NoPhase, 0),
        (CGGesturePhase::Began, 1),
        (CGGesturePhase::Changed, 2),
        (CGGesturePhase::Ended, 4),
        (CGGesturePhase::Cancelled, 8),
        (CGGesturePhase::MayBegin, 128),
    ];
    for (value, code) in table {
        assert_eq!(value.code(), code);
        assert_eq!(CGGesturePhase::from_code(code), Some(value));
    }
    assert_eq!(CGGesturePhase::from_code(129), None);
    assert_eq!(CGGesturePhase::from_code(9), None);
    assert_eq!(CGGesturePhase::from_code(64), None);
}

#[test]
fn cg_event_type_codes() {
    let table: Vec<(CGEventType, u32)> = vec![
        (CGEventType::Null, 0),
        (CGEventType::LeftMouseDown, 1),
        (CGEventType::LeftMouseUp, 2),
        (CGEventType::RightMouseDown, 3),
        (CGEventType::RightMouseUp, 4),
        (CGEventType::MouseMoved, 5),
        (CGEventType::LeftMouseDragged, 6),
        (CGEventType::RightMouseDragged, 7),
        (CGEventType::KeyDown, 10),
        (CGEventType::KeyUp, 11),
        (CGEventType::FlagsChanged, 12),
        (CGEventType::ScrollWheel, 22),
        (CGEventType::TabletPointer, 23),
        (CGEventType::TabletProximity, 24),
        (CGEventType::OtherMouseDown, 25),
        (CGEventType::OtherMouseUp, 26),
        (CGEventType::OtherMouseDragged, 27),
        (CGEventType::TapDisabledByTimeout, 0xFFFFFFFE),
        (CGEventType::TapDisabledByUserInput, 0xFFFFFFFF),
    ];
    for (value, code) in table {
        assert_eq!(value.code(), code);
        assert_eq!(CGEventType::from_code(code), Some(value));
    }
    assert_eq!(CGEventType::from_code(9), None);
    assert_eq!(CGEventType::from_code(64), None);
    assert_eq!(CGEventType::from_code(1005), None);
}

#[test]
fn cg_event_field_codes() {
    let table: Vec<(CGEventField, u32)> = vec![
        (CGEventField::MouseEventNumber, 0),
        (CGEventField::MouseEventClickState, 1),
        (CGEventField::MouseEventPressure, 2),
        (CGEventField::MouseEventButtonNumber, 3),
        (CGEventField::MouseEventDeltaX, 4),
        (CGEventField::MouseEventDeltaY, 5),
        (CGEventField::MouseEventInstantMouser, 6),
        (CGEventField::MouseEventSubtype, 7),
        (CGEventField::KeyboardEventAutorepeat, 8),
        (CGEventField::KeyboardEventKeycode, 9),
        (CGEventField::KeyboardEventKeyboardType, 10),
        (CGEventField::ScrollWheelEventDeltaAxis1, 11),
        (CGEventField::ScrollWheelEventDeltaAxis2, 12),
        (CGEventField::ScrollWheelEventDeltaAxis3, 13),
        (CGEventField::ScrollWheelEventFixedPtDeltaAxis1, 93),
        (CGEventField::ScrollWheelEventFixedPtDeltaAxis2, 94),
        (CGEventField::ScrollWheelEventFixedPtDeltaAxis3, 95),
        (CGEventField::ScrollWheelEventPointDeltaAxis1, 96),
        (CGEventField::ScrollWheelEventPointDeltaAxis2, 97),
        (CGEventField::ScrollWheelEventPointDeltaAxis3, 98),
        (CGEventField::ScrollWheelEventScrollPhase, 99),
        (CGEventField::ScrollWheelEventScrollCount, 100),
        (CGEventField::ScrollWheelEventMomentumPhase, 123),
        (CGEventField::ScrollWheelEventInstantMouser, 14),
        (CGEventField::TabletEventPointX, 15),
        (CGEventField::TabletEventPointY, 16),
        (CGEventField::TabletEventPointZ, 17),
        (CGEventField::TabletEventPointButtons, 18),
        (CGEventField::TabletEventPointPressure, 19),
        (CGEventField::TabletEventTiltX, 20),
        (CGEventField::TabletEventTiltY, 21),
        (CGEventField::TabletEventRotation, 22),
        (CGEventField::TabletEventTangentialPressure, 23),
        (CGEventField::TabletEventDeviceID, 24),
        (CGEventField::TabletEventVendor1, 25),
        (CGEventField::TabletEventVendor2, 26),
        (CGEventField::TabletEventVendor3, 27),
        (CGEventField::TabletProximityEventVendorID, 28),
        (CGEventField::TabletProximityEventTabletID, 29),
        (CGEventField::TabletProximityEventPointerID, 30),
        (CGEventField::TabletProximityEventDeviceID, 31),
        (CGEventField::TabletProximityEventSystemTabletID, 32),
        (CGEventField::TabletProximityEventVendorPointerType, 33),
        (CGEventField::TabletProximityEventVendorPointerSerialNumber, 34),
        (CGEventField::TabletProximityEventVendorUniqueID, 35),
        (CGEventField::TabletProximityEventCapabilityMask, 36),
        (CGEventField::TabletProximityEventPointerType, 37),
        (CGEventField::TabletProximityEventEnterProximity, 38),
        (CGEventField::EventTargetProcessSerialNumber, 39),
        (CGEventField::EventTargetUnixProcessID, 40),
        (CGEventField::EventSourceUnixProcessID, 41),
        (CGEventField::EventSourceUserData, 42),
        (CGEventField::EventSourceUserID, 43),
        (CGEventField::EventSourceGroupID, 44),
        (CGEventField::EventSourceStateID, 45),
        (CGEventField::ScrollWheelEventIsContinuous, 88),
        (CGEventField::MouseEventWindowUnderMousePointer, 91),
        (CGEventField::MouseEventWindowUnderMousePointerThatCanHandleThisEvent, 92),
        (CGEventField::EventUnacceleratedPointerMovementX, 170),
        (CGEventField::EventUnacceleratedPointerMovementY, 171),
    ];
    for (value, code) in table {
        assert_eq!(value.code(), code);
        assert_eq!(CGEventField::from_code(code), Some(value));
    }
    assert_eq!(CGEventField::from_code(172), None);
    assert_eq!(CGEventField::from_code(64), None);
    assert_eq!(CGEventField::from_code(1005), None);
}

#[test]
fn cg_event_mouse_subtype_codes() {
    let table: Vec<(CGEventMouseSubtype, u32)> = vec![
        (CGEventMouseSubtype::Default, 0),
        (CGEventMouseSubtype::TabletPoint, 1),
        (CGEventMouseSubtype::TabletProximity, 2),
    ];
    for (value, code) in table {
        assert_eq!(value.code(), code);
        assert_eq!(CGEventMouseSubtype::from_code(code), Some(value));
    }
    assert_eq!(CGEventMouseSubtype::from_code(3), None);
    assert_eq!(CGEventMouseSubtype::from_code(9), None);
    assert_eq!(CGEventMouseSubtype::from_code(64), None);
}

#[test]
fn cg_event_tap_location_codes() {
    let table: Vec<(CGEventTapLocation, u32)> = vec![
        (CGEventTapLocation::HIDEventTap, 0),
        (CGEventTapLocation::SessionEventTap, 1),
        (CGEventTapLocation::AnnotatedSessionEventTap, 2),
    ];
    for (value, code) in table {
        assert_eq!(value.code(), code);
        assert_eq!(CGEventTapLocation::from_code(code), Some(value));
    }
    assert_eq!(CGEventTapLocation::from_code(3), None);
    assert_eq!(CGEventTapLocation::from_code(9), None);
    assert_eq!(CGEventTapLocation::from_code(64), None);
}

#[test]
fn cg_event_tap_placement_codes() {
    let table: Vec<(CGEventTapPlacement, u32)> = vec![
        (CGEventTapPlacement::HeadInsertEventTap, 0),
        (CGEventTapPlacement::TailAppendEventTap, 1),
    ];
    for (value, code) in table {
        assert_eq!(value.code(), code);
        assert_eq!(CGEventTapPlacement::from_code(code), Some(value));
    }
    assert_eq!(CGEventTapPlacement::from_code(2), None);
    assert_eq!(CGEventTapPlacement::from_code(9), None);
    assert_eq!(CGEventTapPlacement::from_code(64), None);
}

#[test]
fn cg_event_tap_options_codes() {
    let table: Vec<(CGEventTapOptions, u32)> = vec![
        (CGEventTapOptions::Default, 0),
        (CGEventTapOptions::ListenOnly, 1),
    ];
    for (value, code) in table {
        assert_eq!(value.code(), code);
        assert_eq!(CGEventTapOptions::from_code(code), Some(value));
    }
    assert_eq!(CGEventTapOptions::from_code(2), None);
    assert_eq!(CGEventTapOptions::from_code(9), None);
    assert_eq!(CGEventTapOptions::from_code(64), None);
}

#[test]
fn cg_event_source_state_id_codes() {
    let table: Vec<(CGEventSourceStateID, i32)> = vec![
        (CGEventSourceStateID::Private, -1),
        (CGEventSourceStateID::CombinedSessionState, 0),
        (CGEventSourceStateID::HIDSystemState, 1),
    ];
    for (value, code) in table {
        assert_eq!(value.code(), code);
        assert_eq!(CGEventSourceStateID::from_code(code), Some(value));
    }
    assert_eq!(CGEventSourceStateID::from_code(2), None);
    assert_eq!(CGEventSourceStateID::from_code(-2), None);
    assert_eq!(CGEventSourceStateID::from_code(9), None);
}

#[test]
fn cg_font_post_script_format_codes() {
    let table: Vec<(CGFontPostScriptFormat, i32)> = vec![
        (CGFontPostScriptFormat::Type1, 1),
        (CGFontPostScriptFormat::Type3, 3),
        (CGFontPostScriptFormat::Type42, 42),
    ];
    for (value, code) in table {
        assert_eq!(value.code(), code);
        assert_eq!(CGFontPostScriptFormat::from_code(code), Some(value));
    }
    assert_eq!(CGFontPostScriptFormat::from_code(43), None);
    assert_eq!(CGFontPostScriptFormat::from_code(0), None);
    assert_eq!(CGFontPostScriptFormat::from_code(9), None);
}

#[test]
fn cg_rect_edge_codes() {
    let table: Vec<(CGRectEdge, u32)> = vec![
        (CGRectEdge::MinX, 0),
        (CGRectEdge::MinY, 1),
        (CGRectEdge::MaxX, 2),
        (CGRectEdge::MaxY, 3),
    ];
    for (value, code) in table {
        assert_eq!(value.code(), code);
        assert_eq!(CGRectEdge::from_code(code), Some(value));
    }
    assert_eq!(CGRectEdge::from_code(4), None);
    assert_eq!(CGRectEdge::from_code(9), None);
    assert_eq!(CGRectEdge::from_code(64), None);
}

#[test]
fn cg_image_alpha_info_codes() {
    let table: Vec<(CGImageAlphaInfo, u32)> = vec![
        (CGImageAlphaInfo::AlphaNone, 0),
        (CGImageAlphaInfo::AlphaPremultipliedLast, 1),
        (CGImageAlphaInfo::AlphaPremultipliedFirst, 2),
        (CGImageAlphaInfo::AlphaLast, 3),
        (CGImageAlphaInfo::AlphaFirst, 4),
        (CGImageAlphaInfo::AlphaNoneSkipLast, 5),
        (CGImageAlphaInfo::AlphaNoneSkipFirst, 6),
        (CGImageAlphaInfo::AlphaOnly, 7),
    ];
    for (value, code) in table {
        assert_eq!(value.code(), code);
        assert_eq!(CGImageAlphaInfo::from_code(code), Some(value));
    }
    assert_eq!(CGImageAlphaInfo::from_code(8), None);
    assert_eq!(CGImageAlphaInfo::from_code(9), None);
    assert_eq!(CGImageAlphaInfo::from_code(64), None);
}

#[test]
fn cg_image_byte_order_info_codes() {
    let table: Vec<(CGImageByteOrderInfo, u32)> = vec![
        (CGImageByteOrderInfo::ByteOrderMask, 28672),
        (CGImageByteOrderInfo::ByteOrderDefault, 0),
        (CGImageByteOrderInfo::ByteOrder16Little, 4096),
        (CGImageByteOrderInfo::ByteOrder32Little, 8192),
        (CGImageByteOrderInfo::ByteOrder16Big, 12288),
        (CGImageByteOrderInfo::ByteOrder32Big, 16384),
    ];
    for (value, code) in table {
        assert_eq!(value.code(), code);
        assert_eq!(CGImageByteOrderInfo::from_code(code), Some(value));
    }
    assert_eq!(CGImageByteOrderInfo::from_code(28673), None);
    assert_eq!(CGImageByteOrderInfo::from_code(9), None);
    assert_eq!(CGImageByteOrderInfo::from_code(64), None);
}

#[test]
fn cg_image_pixel_format_info_codes() {
    let table: Vec<(CGImagePixelFormatInfo, u32)> = vec![
        (CGImagePixelFormatInfo::PixelFormatMask, 61440),
        (CGImagePixelFormatInfo::PixelFormatPacked, 0),
        (CGImagePixelFormatInfo::PixelFormatRGB555, 65536),
        (CGImagePixelFormatInfo::PixelFormatRGB565, 131072),
        (CGImagePixelFormatInfo::PixelFormatRGB101010, 196608),
        (CGImagePixelFormatInfo::PixelFormatRGBCIF10, 262144),
    ];
    for (value, code) in table {
        assert_eq!(value.code(), code);
        assert_eq!(CGImagePixelFormatInfo::from_code(code), Some(value));
    }
    assert_eq!(CGImagePixelFormatInfo::from_code(262145), None);
    assert_eq!(CGImagePixelFormatInfo::from_code(9), None);
    assert_eq!(CGImagePixelFormatInfo::from_code(64), None);
}

#[test]
fn cg_line_join_codes() {
    let table: Vec<(CGLineJoin, i32)> = vec![
        (CGLineJoin::Miter, 0),
        (CGLineJoin::Round, 1),
        (CGLineJoin::Bevel, 2),
    ];
    for (value, code) in table {
        assert_eq!(value.code(), code);
        assert_eq!(CGLineJoin::from_code(code), Some(value));
    }
    assert_eq!(CGLineJoin::from_code(3), None);
    assert_eq!(CGLineJoin::from_code(-1), None);
    assert_eq!(CGLineJoin::from_code(9), None);
}

#[test]
fn cg_line_cap_codes() {
    let table: Vec<(CGLineCap, i32)> = vec![
        (CGLineCap::Butt, 0),
        (CGLineCap::Round, 1),
        (CGLineCap::Square, 2),
    ];
    for (value, code) in table {
        assert_eq!(value.code(), code);
        assert_eq!(CGLineCap::from_code(code), Some(value));
    }
    assert_eq!(CGLineCap::from_code(3), None);
    assert_eq!(CGLineCap::from_code(-1), None);
    assert_eq!(CGLineCap::from_code(9), None);
}

#[test]
fn cg_path_element_type_codes() {
    let table: Vec<(CGPathElementType, i32)> = vec![
        (CGPathElementType::MoveToPoint, 0),
        (CGPathElementType::AddLineToPoint, 1),
        (CGPathElementType::AddQuadCurveToPoint, 2),
        (CGPathElementType::AddCurveToPoint, 3),
        (CGPathElementType::CloseSubpath, 4),
    ];
    for (value, code) in table {
        assert_eq!(value.code(), code);
        assert_eq!(CGPathElementType::from_code(code), Some(value));
    }
    assert_eq!(CGPathElementType::from_code(5), None);
    assert_eq!(CGPathElementType::from_code(-1), None);
    assert_eq!(CGPathElementType::from_code(9), None);
}

#[test]
fn cg_pattern_tiling_codes() {
    let table: Vec<(CGPatternTiling, i32)> = vec![
        (CGPatternTiling::NoDistortion, 0),
        (CGPatternTiling::ConstantSpacingMinimalDistortion, 1),
        (CGPatternTiling::ConstantSpacing, 2),
    ];
    for (value, code) in table {
        assert_eq!(value.code(), code);
        assert_eq!(CGPatternTiling::from_code(code), Some(value));
    }
    assert_eq!(CGPatternTiling::from_code(3), None);
    assert_eq!(CGPatternTiling::from_code(-1), None);
    assert_eq!(CGPatternTiling::from_code(9), None);
}

#[test]
fn cg_window_sharing_type_codes() {
    let table: Vec<(CGWindowSharingType, u32)> = vec![
        (CGWindowSharingType::NotShared, 0),
        (CGWindowSharingType::ReadOnly, 1),
        (CGWindowSharingType::ReadWrite, 2),
    ];
    for (value, code) in table {
        assert_eq!(value.code(), code);
        assert_eq!(CGWindowSharingType::from_code(code), Some(value));
    }
    assert_eq!(CGWindowSharingType::from_code(3), None);
    assert_eq!(CGWindowSharingType::from_code(9), None);
    assert_eq!(CGWindowSharingType::from_code(64), None);
}

#[test]
fn cg_window_backing_type_codes() {
    let table: Vec<(CGWindowBackingType, u32)> = vec![
        (CGWindowBackingType::Retained, 0),
        (CGWindowBackingType::Nonretained, 1),
        (CGWindowBackingType::Buffered, 2),
    ];
    for (value, code) in table {
        assert_eq!(value.code(), code);
        assert_eq!(CGWindowBackingType::from_code(code), Some(value));
    }
    assert_eq!(CGWindowBackingType::from_code(3), None);
    assert_eq!(CGWindowBackingType::from_code(9), None);
    assert_eq!(CGWindowBackingType::from_code(64), None);
}

#[test]
fn cg_window_level_key_codes() {
    let table: Vec<(CGWindowLevelKey, i32)> = vec![
        (CGWindowLevelKey::Base, 0),
        (CGWindowLevelKey::Minimum, 1),
        (CGWindowLevelKey::Desktop, 2),
        (CGWindowLevelKey::BackstopMenu, 3),
        (CGWindowLevelKey::Normal, 4),
        (CGWindowLevelKey::Floating, 5),
        (CGWindowLevelKey::TornOffMenu, 6),
        (CGWindowLevelKey::Dock, 7),
        (CGWindowLevelKey::MainMenu, 8),
        (CGWindowLevelKey::Status, 9),
        (CGWindowLevelKey::ModalPanel, 10),
        (CGWindowLevelKey::PopUpMenu, 11),
        (CGWindowLevelKey::Dragging, 12),
        (CGWindowLevelKey::ScreenSaver, 13),
        (CGWindowLevelKey::Maximum, 14),
        (CGWindowLevelKey::Overlay, 15),
        (CGWindowLevelKey::Help, 16),
        (CGWindowLevelKey::Utility, 17),
        (CGWindowLevelKey::DesktopIcon, 18),
        (CGWindowLevelKey::Cursor, 19),
        (CGWindowLevelKey::AssistiveTechHigh, 20),
        (CGWindowLevelKey::NumberOfKeys, 21),
    ];
    for (value, code) in table {
        assert_eq!(value.code(), code);
        assert_eq!(CGWindowLevelKey::from_code(code), Some(value));
    }
    assert_eq!(CGWindowLevelKey::from_code(22), None);
    assert_eq!(CGWindowLevelKey::from_code(-1), None);
    assert_eq!(CGWindowLevelKey::from_code(64), None);
}
