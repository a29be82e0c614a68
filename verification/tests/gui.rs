use flipperzero::gui::canvas::{
    Align, CanvasDirection, CanvasFontParametersSnapshot, Font, FromSysAlignError,
    FromSysCanvasDirectionError, FromSysCanvasFontParameters, FromSysFontError,
    RawCanvasFontParameters,
};
use flipperzero::gui::layers::{
    FromSysGuiLayerError, FromSysViewPortOrientationError, GuiLayer, ViewPortOrientation,
};
use flipperzero::gui::scene_manager::Event;

#[test]
fn align_numbers_round_trip() {
    for align in [Align::Left, Align::Right, Align::Top, Align::Bottom, Align::Center] {
        assert_eq!(Align::from_raw(align.to_raw()), Ok(align));
    }
    assert_eq!(Align::Center.to_raw(), 4);
    assert_eq!(Align::from_raw(5), Err(FromSysAlignError::Invalid(5)));
}

#[test]
fn canvas_direction_numbers() {
    assert_eq!(CanvasDirection::from_raw(2), Ok(CanvasDirection::RightToLeft));
    assert_eq!(CanvasDirection::BottomToTop.to_raw(), 3);
    assert_eq!(
        CanvasDirection::from_raw(4),
        Err(FromSysCanvasDirectionError::Invalid(4))
    );
}

#[test]
fn font_numbers_and_count() {
    assert_eq!(Font::from_raw(3), Ok(Font::BigNumbers));
    assert_eq!(Font::from_raw(4), Err(FromSysFontError::Max));
    assert_eq!(Font::from_raw(9), Err(FromSysFontError::Invalid(9)));
    assert_eq!(Font::total_number(), 4);
    assert_eq!(Font::Keyboard.to_raw(), 2);
}

#[test]
fn gui_layer_and_orientation_numbers() {
    assert_eq!(GuiLayer::from_raw(4), Ok(GuiLayer::Fullscreen));
    assert_eq!(GuiLayer::from_raw(5), Err(FromSysGuiLayerError::Max));
    assert_eq!(GuiLayer::from_raw(200), Err(FromSysGuiLayerError::Invalid(200)));
    assert_eq!(GuiLayer::StatusBarLeft.to_raw(), 2);
    for o in [
        ViewPortOrientation::Horizontal,
        ViewPortOrientation::HorizontalFlip,
        ViewPortOrientation::Vertical,
        ViewPortOrientation::VerticalFlip,
    ] {
        assert_eq!(ViewPortOrientation::from_raw(o.to_raw()), Ok(o));
    }
    assert_eq!(
        ViewPortOrientation::from_raw(4),
        Err(FromSysViewPortOrientationError::Max)
    );
}

#[test]
fn font_parameters_checked_in_order() {
    let raw = RawCanvasFontParameters {
        leading_default: 12,
        leading_min: 11,
        height: 8,
        descender: 2,
    };
    let snapshot = CanvasFontParametersSnapshot::try_from_raw(raw).unwrap();
    assert_eq!(snapshot.leading_default, 12);
    assert_eq!(snapshot.descender, 2);
    assert_eq!(snapshot.to_raw(), raw);

    let zero_all = RawCanvasFontParameters {
        leading_default: 0,
        leading_min: 0,
        height: 0,
        descender: 0,
    };
    assert_eq!(
        CanvasFontParametersSnapshot::try_from_raw(zero_all),
        Err(FromSysCanvasFontParameters::ZeroLeadingDefault)
    );
    let zero_min = RawCanvasFontParameters { leading_min: 0, height: 0, ..raw };
    assert_eq!(
        CanvasFontParametersSnapshot::try_from_raw(zero_min),
        Err(FromSysCanvasFontParameters::ZeroLeadingMin)
    );
    let zero_height = RawCanvasFontParameters { height: 0, ..raw };
    assert_eq!(
        CanvasFontParametersSnapshot::try_from_raw(zero_height),
        Err(FromSysCanvasFontParameters::ZeroHeight)
    );
}

#[test]
fn scene_events_from_firmware() {
    assert_eq!(Event::from_raw(0, 42), Event::Custom(42));
    assert_eq!(Event::from_raw(1, 42), Event::Back);
    assert_eq!(Event::from_raw(2, 7), Event::Tick);
}

use flipperzero::gui::graphics::{
    bounding_box, box_to_fill, color_for, fill_solid_box, pixel_drawn, Area, CanvasBox,
    COLOR_BLACK, COLOR_WHITE,
};

#[test]
fn canvas_bounding_box() {
    assert_eq!(
        bounding_box(128, 64),
        Area { x: 0, y: 0, width: 128, height: 64 }
    );
}

#[test]
fn pixel_colors_and_visibility() {
    assert_eq!(color_for(true), COLOR_BLACK);
    assert_eq!(color_for(false), COLOR_WHITE);
    assert!(pixel_drawn(0, 0, 128, 64));
    assert!(pixel_drawn(127, 63, 128, 64));
    assert!(!pixel_drawn(128, 63, 128, 64));
    assert!(!pixel_drawn(127, 64, 128, 64));
    assert!(!pixel_drawn(10, 0, 10, 10));
    assert!(!pixel_drawn(-1, 3, 128, 64));
    assert!(!pixel_drawn(5, 65, 128, 64));
}

#[test]
fn solid_fill_is_clamped_to_canvas() {
    let area = Area { x: -5, y: -5, width: 10, height: 10 };
    assert_eq!(
        fill_solid_box(area, 128, 64),
        Some(CanvasBox { x: 0, y: 0, width: 5, height: 5 })
    );
    let inside = Area { x: 10, y: 20, width: 30, height: 4 };
    assert_eq!(
        fill_solid_box(inside, 128, 64),
        Some(CanvasBox { x: 10, y: 20, width: 30, height: 4 })
    );
    let overhanging = Area { x: 120, y: 60, width: 30, height: 30 };
    assert_eq!(
        fill_solid_box(overhanging, 128, 64),
        Some(CanvasBox { x: 120, y: 60, width: 8, height: 4 })
    );
    let outside = Area { x: 200, y: 0, width: 5, height: 5 };
    assert_eq!(fill_solid_box(outside, 128, 64), None);
    let empty = Area { x: 3, y: 3, width: 0, height: 5 };
    assert_eq!(fill_solid_box(empty, 128, 64), None);
}

#[test]
fn empty_clamped_area_draws_nothing() {
    assert_eq!(box_to_fill(Area { x: 0, y: 0, width: 0, height: 0 }), None);
    assert_eq!(
        box_to_fill(Area { x: 1, y: 2, width: 3, height: 4 }),
        Some(CanvasBox { x: 1, y: 2, width: 3, height: 4 })
    );
}
