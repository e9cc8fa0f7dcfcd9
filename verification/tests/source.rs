use sdl_event_server::{
    ButtonLayout, EventBuffer, RawEvent, SdlAxis, SdlButton, SdlEvent, SdlReader,
};

#[test]
fn new_reader_reads_every_device_under_standard_layout() {
    let reader = SdlReader::new();
    assert_eq!(reader.layout(0), ButtonLayout::Standard);
    assert_eq!(reader.layout(u32::MAX), ButtonLayout::Standard);
}

#[test]
fn added_device_is_registered_under_its_instance_id() {
    let mut reader = SdlReader::new();
    let event = reader.normalize(&RawEvent::DeviceAdded {
        timestamp: 10,
        which: 0,
        instance_id: 7,
        layout: ButtonLayout::Nintendo,
    });
    assert_eq!(event, Some(SdlEvent::ControllerAdded { timestamp: 10, device_id: 0 }));
    assert_eq!(reader.layout(7), ButtonLayout::Nintendo);
    assert_eq!(reader.layout(0), ButtonLayout::Standard);
}

#[test]
fn removed_device_leaves_the_registry() {
    let mut reader = SdlReader::new();
    reader.normalize(&RawEvent::DeviceAdded {
        timestamp: 1,
        which: 0,
        instance_id: 3,
        layout: ButtonLayout::Nintendo,
    });
    let event = reader.normalize(&RawEvent::DeviceRemoved { timestamp: 2, which: 3 });
    assert_eq!(event, Some(SdlEvent::ControllerRemoved { timestamp: 2, device_id: 3 }));
    assert_eq!(reader.layout(3), ButtonLayout::Standard);
}

#[test]
fn removing_an_unknown_device_is_still_reported() {
    let mut reader = SdlReader::new();
    let event = reader.normalize(&RawEvent::DeviceRemoved { timestamp: 2, which: 99 });
    assert_eq!(event, Some(SdlEvent::ControllerRemoved { timestamp: 2, device_id: 99 }));
}

#[test]
fn adding_again_replaces_the_layout() {
    let mut reader = SdlReader::new();
    reader.normalize(&RawEvent::DeviceAdded {
        timestamp: 1,
        which: 0,
        instance_id: 3,
        layout: ButtonLayout::Nintendo,
    });
    reader.normalize(&RawEvent::DeviceAdded {
        timestamp: 2,
        which: 0,
        instance_id: 3,
        layout: ButtonLayout::Standard,
    });
    assert_eq!(reader.layout(3), ButtonLayout::Standard);
}

#[test]
fn axis_motion_is_decoded() {
    let mut reader = SdlReader::new();
    let event = reader.normalize(&RawEvent::AxisMotion {
        timestamp: 4,
        which: 1,
        axis: 4,
        value: -123,
    });
    assert_eq!(
        event,
        Some(SdlEvent::AxisMotion {
            timestamp: 4,
            device_id: 1,
            axis: SdlAxis::TriggerLeft,
            value: -123
        })
    );
}

#[test]
fn reports_with_unknown_codes_become_no_event() {
    let mut reader = SdlReader::new();
    assert_eq!(
        reader.normalize(&RawEvent::AxisMotion { timestamp: 4, which: 1, axis: 6, value: 0 }),
        None
    );
    assert_eq!(
        reader.normalize(&RawEvent::ButtonDown { timestamp: 4, which: 1, button: 21 }),
        None
    );
    assert_eq!(
        reader.normalize(&RawEvent::ButtonUp { timestamp: 4, which: 1, button: -1 }),
        None
    );
    assert_eq!(reader.normalize(&RawEvent::Other), None);
}

#[test]
fn button_of_unregistered_device_falls_back_to_standard_layout() {
    let mut reader = SdlReader::new();
    let event = reader.normalize(&RawEvent::ButtonDown { timestamp: 5, which: 42, button: 0 });
    assert_eq!(
        event,
        Some(SdlEvent::ButtonPress {
            timestamp: 5,
            device_id: 42,
            button: SdlButton::A,
            pressed: true
        })
    );
}

#[test]
fn button_of_nintendo_device_is_relabelled() {
    let mut reader = SdlReader::new();
    reader.normalize(&RawEvent::DeviceAdded {
        timestamp: 1,
        which: 0,
        instance_id: 8,
        layout: ButtonLayout::from_name("Nintendo Switch Pro Controller"),
    });
    let down = reader.normalize(&RawEvent::ButtonDown { timestamp: 2, which: 8, button: 0 });
    let up = reader.normalize(&RawEvent::ButtonUp { timestamp: 3, which: 8, button: 2 });
    assert_eq!(
        down,
        Some(SdlEvent::ButtonPress {
            timestamp: 2,
            device_id: 8,
            button: SdlButton::B,
            pressed: true
        })
    );
    assert_eq!(
        up,
        Some(SdlEvent::ButtonPress {
            timestamp: 3,
            device_id: 8,
            button: SdlButton::Y,
            pressed: false
        })
    );
}

#[test]
fn poll_events_appends_in_order_behind_what_is_pending() {
    let mut reader = SdlReader::new();
    let mut buffer = EventBuffer::new();
    buffer.push(SdlEvent::ControllerRemoved { timestamp: 0, device_id: 50 });
    let raw = vec![
        RawEvent::DeviceAdded {
            timestamp: 1,
            which: 0,
            instance_id: 8,
            layout: ButtonLayout::Nintendo,
        },
        RawEvent::ButtonDown { timestamp: 2, which: 8, button: 1 },
        RawEvent::Other,
        RawEvent::AxisMotion { timestamp: 3, which: 8, axis: 9, value: 1 },
        RawEvent::DeviceRemoved { timestamp: 4, which: 8 },
        RawEvent::ButtonUp { timestamp: 5, which: 8, button: 1 },
    ];
    reader.poll_events(&raw, &mut buffer);
    assert_eq!(
        buffer.drain_all(),
        vec![
            SdlEvent::ControllerRemoved { timestamp: 0, device_id: 50 },
            SdlEvent::ControllerAdded { timestamp: 1, device_id: 0 },
            SdlEvent::ButtonPress {
                timestamp: 2,
                device_id: 8,
                button: SdlButton::A,
                pressed: true
            },
            SdlEvent::ControllerRemoved { timestamp: 4, device_id: 8 },
            SdlEvent::ButtonPress {
                timestamp: 5,
                device_id: 8,
                button: SdlButton::B,
                pressed: false
            },
        ]
    );
    assert_eq!(reader.layout(8), ButtonLayout::Standard);
}

#[test]
fn poll_events_with_nothing_observed_changes_nothing() {
    let mut reader = SdlReader::new();
    let mut buffer = EventBuffer::new();
    reader.poll_events(&Vec::new(), &mut buffer);
    assert!(buffer.is_empty());
}

#[test]
fn lookup_tells_registered_devices_from_unknown_ones() {
    let mut reader = SdlReader::new();
    assert_eq!(reader.lookup(5), None);
    reader.normalize(&RawEvent::DeviceAdded {
        timestamp: 1,
        which: 0,
        instance_id: 5,
        layout: ButtonLayout::Standard,
    });
    assert_eq!(reader.lookup(5), Some(ButtonLayout::Standard));
    assert_eq!(reader.lookup(0), None);
    reader.normalize(&RawEvent::DeviceRemoved { timestamp: 2, which: 5 });
    assert_eq!(reader.lookup(5), None);
}
