use core_graphics2::color::CGColorName;
use core_graphics2::color_conversion_info::CGColorConversionKeys;
use core_graphics2::color_space::CGColorSpaceNames;
use core_graphics2::display_stream::{CGDisplayStreamProperties, CGDisplayStreamYCbCrMatrices};
use core_graphics2::font::CGFontVariationAxis;
use core_graphics2::window::WindowKeys;

#[test]
fn cg_color_name_symbols() {
    let table: Vec<(CGColorName, &str)> = vec![
        (CGColorName::White, "kCGColorWhite"),
        (CGColorName::Black, "kCGColorBlack"),
        (CGColorName::Clear, "kCGColorClear"),
    ];
    for (i, (value, symbol)) in table.iter().enumerate() {
        assert_eq!(value.symbol(), *symbol);
        for (other, _) in &table[i + 1..] {
            assert_ne!(value.symbol(), other.symbol());
        }
    }
}

#[test]
fn cg_color_conversion_keys_symbols() {
    let table: Vec<(CGColorConversionKeys, &str)> = vec![
        (CGColorConversionKeys::BlackPointCompensation, "kCGColorConversionBlackPointCompensation"),
        (CGColorConversionKeys::TRCSize, "kCGColorConversionTRCSize"),
    ];
    for (i, (value, symbol)) in table.iter().enumerate() {
        assert_eq!(value.symbol(), *symbol);
        for (other, _) in &table[i + 1..] {
            assert_ne!(value.symbol(), other.symbol());
        }
    }
}

#[test]
fn cg_color_space_names_symbols() {
    let table: Vec<(CGColorSpaceNames, &str)> = vec![
        (CGColorSpaceNames::GenericGray, "kCGColorSpaceGenericGray"),
        (CGColorSpaceNames::GenericRGB, "kCGColorSpaceGenericRGB"),
        (CGColorSpaceNames::GenericCMYK, "kCGColorSpaceGenericCMYK"),
        (CGColorSpaceNames::DisplayP3, "kCGColorSpaceDisplayP3"),
        (CGColorSpaceNames::GenericRGBLinear, "kCGColorSpaceGenericRGBLinear"),
        (CGColorSpaceNames::AdobeRGB1998, "kCGColorSpaceAdobeRGB1998"),
        (CGColorSpaceNames::SRGB, "kCGColorSpaceSRGB"),
        (CGColorSpaceNames::GenericGrayGamma2_2, "kCGColorSpaceGenericGrayGamma2_2"),
        (CGColorSpaceNames::GenericXYZ, "kCGColorSpaceGenericXYZ"),
        (CGColorSpaceNames::GenericLab, "kCGColorSpaceGenericLab"),
        (CGColorSpaceNames::ACESCGLinear, "kCGColorSpaceACESCGLinear"),
        (CGColorSpaceNames::ITUR_709, "kCGColorSpaceITUR_709"),
        (CGColorSpaceNames::ITUR_709_PQ, "kCGColorSpaceITUR_709_PQ"),
        (CGColorSpaceNames::ITUR_709_HLG, "kCGColorSpaceITUR_709_HLG"),
        (CGColorSpaceNames::ITUR_2020, "kCGColorSpaceITUR_2020"),
        (CGColorSpaceNames::ITUR_2020_sRGBGamma, "kCGColorSpaceITUR_2020_sRGBGamma"),
        (CGColorSpaceNames::ROMMRGB, "kCGColorSpaceROMMRGB"),
        (CGColorSpaceNames::DCIP3, "kCGColorSpaceDCIP3"),
        (CGColorSpaceNames::LinearITUR_2020, "kCGColorSpaceLinearITUR_2020"),
        (CGColorSpaceNames::ExtendedITUR_2020, "kCGColorSpaceExtendedITUR_2020"),
        (CGColorSpaceNames::ExtendedLinearITUR_2020, "kCGColorSpaceExtendedLinearITUR_2020"),
        (CGColorSpaceNames::LinearDisplayP3, "kCGColorSpaceLinearDisplayP3"),
        (CGColorSpaceNames::ExtendedDisplayP3, "kCGColorSpaceExtendedDisplayP3"),
        (CGColorSpaceNames::ExtendedLinearDisplayP3, "kCGColorSpaceExtendedLinearDisplayP3"),
        (CGColorSpaceNames::ITUR_2100_PQ, "kCGColorSpaceITUR_2100_PQ"),
        (CGColorSpaceNames::ITUR_2100_HLG, "kCGColorSpaceITUR_2100_HLG"),
        (CGColorSpaceNames::DisplayP3_PQ, "kCGColorSpaceDisplayP3_PQ"),
        (CGColorSpaceNames::DisplayP3_HLG, "kCGColorSpaceDisplayP3_HLG"),
        (CGColorSpaceNames::ExtendedSRGB, "kCGColorSpaceExtendedSRGB"),
        (CGColorSpaceNames::LinearSRGB, "kCGColorSpaceLinearSRGB"),
        (CGColorSpaceNames::ExtendedLinearSRGB, "kCGColorSpaceExtendedLinearSRGB"),
        (CGColorSpaceNames::ExtendedGray, "kCGColorSpaceExtendedGray"),
        (CGColorSpaceNames::LinearGray, "kCGColorSpaceLinearGray"),
        (CGColorSpaceNames::ExtendedLinearGray, "kCGColorSpaceExtendedLinearGray"),
    ];
    for (i, (value, symbol)) in table.iter().enumerate() {
        assert_eq!(value.symbol(), *symbol);
        for (other, _) in &table[i + 1..] {
            assert_ne!(value.symbol(), other.symbol());
        }
    }
}

#[test]
fn cg_display_stream_properties_symbols() {
    let table: Vec<(CGDisplayStreamProperties, &str)> = vec![
        (CGDisplayStreamProperties::SourceRect, "kCGDisplayStreamSourceRect"),
        (CGDisplayStreamProperties::DestinationRect, "kCGDisplayStreamDestinationRect"),
        (CGDisplayStreamProperties::PreserveAspectRatio, "kCGDisplayStreamPreserveAspectRatio"),
        (CGDisplayStreamProperties::ColorSpace, "kCGDisplayStreamColorSpace"),
        (CGDisplayStreamProperties::MinimumFrameTime, "kCGDisplayStreamMinimumFrameTime"),
        (CGDisplayStreamProperties::ShowCursor, "kCGDisplayStreamShowCursor"),
        (CGDisplayStreamProperties::QueueDepth, "kCGDisplayStreamQueueDepth"),
        (CGDisplayStreamProperties::YCbCrMatrix, "kCGDisplayStreamYCbCrMatrix"),
    ];
    for (i, (value, symbol)) in table.iter().enumerate() {
        assert_eq!(value.symbol(), *symbol);
        for (other, _) in &table[i + 1..] {
            assert_ne!(value.symbol(), other.symbol());
        }
    }
}

#[test]
fn cg_display_stream_y_cb_cr_matrices_symbols() {
    let table: Vec<(CGDisplayStreamYCbCrMatrices, &str)> = vec![
        (CGDisplayStreamYCbCrMatrices::ITU_R_709_2, "kCGDisplayStreamYCbCrMatrix_ITU_R_709_2"),
        (CGDisplayStreamYCbCrMatrices::ITU_R_601_4, "kCGDisplayStreamYCbCrMatrix_ITU_R_601_4"),
        (CGDisplayStreamYCbCrMatrices::SMPTE_240M_1995, "kCGDisplayStreamYCbCrMatrix_SMPTE_240M_1995"),
    ];
    for (i, (value, symbol)) in table.iter().enumerate() {
        assert_eq!(value.symbol(), *symbol);
        for (other, _) in &table[i + 1..] {
            assert_ne!(value.symbol(), other.symbol());
        }
    }
}

#[test]
fn cg_font_variation_axis_symbols() {
    let table: Vec<(CGFontVariationAxis, &str)> = vec![
        (CGFontVariationAxis::Name, "kCGFontVariationAxisName"),
        (CGFontVariationAxis::MinValue, "kCGFontVariationAxisMinValue"),
        (CGFontVariationAxis::MaxValue, "kCGFontVariationAxisMaxValue"),
        (CGFontVariationAxis::DefaultValue, "kCGFontVariationAxisDefaultValue"),
    ];
    for (i, (value, symbol)) in table.iter().enumerate() {
        assert_eq!(value.symbol(), *symbol);
        for (other, _) in &table[i + 1..] {
            assert_ne!(value.symbol(), other.symbol());
        }
    }
}

#[test]
fn window_keys_symbols() {
    let table: Vec<(WindowKeys, &str)> = vec![
        (WindowKeys::Number, "kCGWindowNumber"),
        (WindowKeys::StoreType, "kCGWindowStoreType"),
        (WindowKeys::Layer, "kCGWindowLayer"),
        (WindowKeys::Bounds, "kCGWindowBounds"),
        (WindowKeys::SharingState, "kCGWindowSharingState"),
        (WindowKeys::Alpha, "kCGWindowAlpha"),
        (WindowKeys::OwnerPID, "kCGWindowOwnerPID"),
        (WindowKeys::MemoryUsage, "kCGWindowMemoryUsage"),
        (WindowKeys::Workspace, "kCGWindowWorkspace"),
        (WindowKeys::OwnerName, "kCGWindowOwnerName"),
        (WindowKeys::Name, "kCGWindowName"),
        (WindowKeys::IsOnscreen, "kCGWindowIsOnscreen"),
        (WindowKeys::BackingLocationVideoMemory, "kCGWindowBackingLocationVideoMemory"),
    ];
    for (i, (value, symbol)) in table.iter().enumerate() {
        assert_eq!(value.symbol(), *symbol);
        for (other, _) in &table[i + 1..] {
            assert_ne!(value.symbol(), other.symbol());
        }
    }
}
