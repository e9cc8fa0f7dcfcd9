use sdl_event_server::{ButtonLayout, SdlAxis, SdlButton, SdlEvent};

#[test]
fn triggers_are_the_two_trigger_axes() {
    assert!(SdlAxis::TriggerLeft.is_trigger());
    assert!(SdlAxis::TriggerRight.is_trigger());
    assert!(!SdlAxis::LeftX.is_trigger());
    assert!(!SdlAxis::LeftY.is_trigger());
    assert!(!SdlAxis::RightX.is_trigger());
    assert!(!SdlAxis::RightY.is_trigger());
}

#[test]
fn axis_codes_decode_in_order() {
    assert_eq!(SdlAxis::from_raw_sdl(0), Some(SdlAxis::LeftX));
    assert_eq!(SdlAxis::from_raw_sdl(1), Some(SdlAxis::LeftY));
    assert_eq!(SdlAxis::from_raw_sdl(2), Some(SdlAxis::RightX));
    assert_eq!(SdlAxis::from_raw_sdl(3), Some(SdlAxis::RightY));
    assert_eq!(SdlAxis::from_raw_sdl(4), Some(SdlAxis::TriggerLeft));
    assert_eq!(SdlAxis::from_raw_sdl(5), Some(SdlAxis::TriggerRight));
}

#[test]
fn unknown_axis_codes_decode_to_nothing() {
    assert_eq!(SdlAxis::from_raw_sdl(-1), None);
    assert_eq!(SdlAxis::from_raw_sdl(6), None);
    assert_eq!(SdlAxis::from_raw_sdl(i32::MAX), None);
    assert_eq!(SdlAxis::from_raw_sdl(i32::MIN), None);
}

#[test]
fn axis_names() {
    assert_eq!(SdlAxis::LeftX.as_str(), "LeftX");
    assert_eq!(SdlAxis::LeftY.as_str(), "LeftY");
    assert_eq!(SdlAxis::RightX.as_str(), "RightX");
    assert_eq!(SdlAxis::RightY.as_str(), "RightY");
    assert_eq!(SdlAxis::TriggerLeft.as_str(), "TriggerLeft");
    assert_eq!(SdlAxis::TriggerRight.as_str(), "TriggerRight");
}

#[test]
fn button_codes_decode_in_order() {
    let expected = [
        SdlButton::A,
        SdlButton::B,
        SdlButton::X,
        SdlButton::Y,
        SdlButton::Back,
        SdlButton::Guide,
        SdlButton::Start,
        SdlButton::LeftStick,
        SdlButton::RightStick,
        SdlButton::LeftShoulder,
        SdlButton::RightShoulder,
        SdlButton::DPadUp,
        SdlButton::DPadDown,
        SdlButton::DPadLeft,
        SdlButton::DPadRight,
        SdlButton::Misc1,
        SdlButton::Paddle1,
        SdlButton::Paddle2,
        SdlButton::Paddle3,
        SdlButton::Paddle4,
        SdlButton::Touchpad,
    ];
    for (code, button) in expected.iter().enumerate() {
        assert_eq!(SdlButton::from_code(code as i32), Some(*button));
        assert_eq!(SdlButton::from_raw_sdl(code as i32, "Xbox One Controller"), Some(*button));
    }
}

#[test]
fn unknown_button_codes_decode_to_nothing() {
    assert_eq!(SdlButton::from_code(-1), None);
    assert_eq!(SdlButton::from_code(21), None);
    assert_eq!(SdlButton::from_raw_sdl(-1, "Nintendo Switch Pro Controller"), None);
    assert_eq!(SdlButton::from_raw_sdl(21, "Nintendo Switch Pro Controller"), None);
    assert_eq!(SdlButton::from_raw_sdl(i32::MAX, ""), None);
}

#[test]
fn nintendo_controller_swaps_face_buttons() {
    let name = "Nintendo Switch Pro Controller";
    assert_eq!(SdlButton::from_raw_sdl(0, name), Some(SdlButton::B));
    assert_eq!(SdlButton::from_raw_sdl(1, name), Some(SdlButton::A));
    assert_eq!(SdlButton::from_raw_sdl(2, name), Some(SdlButton::Y));
    assert_eq!(SdlButton::from_raw_sdl(3, name), Some(SdlButton::X));
    assert_eq!(SdlButton::from_raw_sdl(4, name), Some(SdlButton::Back));
    assert_eq!(SdlButton::from_raw_sdl(6, name), Some(SdlButton::Start));
    assert_eq!(SdlButton::from_raw_sdl(20, name), Some(SdlButton::Touchpad));
}

#[test]
fn layout_goes_by_the_exact_name() {
    assert_eq!(ButtonLayout::from_name("Nintendo Switch Pro Controller"), ButtonLayout::Nintendo);
    assert_eq!(ButtonLayout::from_name("nintendo switch pro controller"), ButtonLayout::Standard);
    assert_eq!(ButtonLayout::from_name("Nintendo Switch Pro Controller "), ButtonLayout::Standard);
    assert_eq!(ButtonLayout::from_name("Xbox One Controller"), ButtonLayout::Standard);
    assert_eq!(ButtonLayout::from_name(""), ButtonLayout::Standard);
}

#[test]
fn remap_under_standard_layout_is_identity() {
    for code in 0..21 {
        let button = SdlButton::from_code(code).unwrap();
        assert_eq!(button.remap(ButtonLayout::Standard), button);
    }
}

#[test]
fn remap_twice_gives_the_button_back() {
    for code in 0..21 {
        let button = SdlButton::from_code(code).unwrap();
        for layout in [ButtonLayout::Standard, ButtonLayout::Nintendo] {
            assert_eq!(button.remap(layout).remap(layout), button);
        }
    }
}

#[test]
fn remap_under_nintendo_layout_touches_only_face_buttons() {
    assert_eq!(SdlButton::A.remap(ButtonLayout::Nintendo), SdlButton::B);
    assert_eq!(SdlButton::B.remap(ButtonLayout::Nintendo), SdlButton::A);
    assert_eq!(SdlButton::X.remap(ButtonLayout::Nintendo), SdlButton::Y);
    assert_eq!(SdlButton::Y.remap(ButtonLayout::Nintendo), SdlButton::X);
    for code in 4..21 {
        let button = SdlButton::from_code(code).unwrap();
        assert_eq!(button.remap(ButtonLayout::Nintendo), button);
    }
}

#[test]
fn button_names() {
    assert_eq!(SdlButton::A.as_str(), "A");
    assert_eq!(SdlButton::LeftShoulder.as_str(), "LeftShoulder");
    assert_eq!(SdlButton::DPadUp.as_str(), "DPadUp");
    assert_eq!(SdlButton::Misc1.as_str(), "Misc1");
    assert_eq!(SdlButton::Paddle4.as_str(), "Paddle4");
    assert_eq!(SdlButton::Touchpad.as_str(), "Touchpad");
}

#[test]
fn event_getters() {
    let added = SdlEvent::ControllerAdded { timestamp: 7, device_id: 3 };
    let removed = SdlEvent::ControllerRemoved { timestamp: 8, device_id: 4 };
    let axis = SdlEvent::AxisMotion {
        timestamp: 9,
        device_id: 5,
        axis: SdlAxis::RightY,
        value: -32768,
    };
    let button = SdlEvent::ButtonPress {
        timestamp: u32::MAX,
        device_id: u32::MAX,
        button: SdlButton::Guide,
        pressed: false,
    };
    assert_eq!((added.timestamp(), added.device_id(), added.kind_str()), (7, 3, "ControllerAdded"));
    assert_eq!(
        (removed.timestamp(), removed.device_id(), removed.kind_str()),
        (8, 4, "ControllerRemoved")
    );
    assert_eq!((axis.timestamp(), axis.device_id(), axis.kind_str()), (9, 5, "AxisMotion"));
    assert_eq!(
        (button.timestamp(), button.device_id(), button.kind_str()),
        (u32::MAX, u32::MAX, "ButtonPress")
    );
}
