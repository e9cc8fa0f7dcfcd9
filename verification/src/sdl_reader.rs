//! The source adapter: from what the input subsystem reports to the events
//! that are relayed.
//!
//! Polling the input subsystem and opening devices is the surrounding
//! program's work. It hands over what it observed as [`RawEvent`]s; this
//! module keeps the registry of open devices and normalises each report.

use std::collections::HashMap;
use vstd::prelude::*;
use vstd::std_specs::hash::*;
use crate::event_buffer::EventBuffer;
use crate::sdl_event::{ButtonLayout, SdlAxis, SdlButton, SdlEvent};

verus! {

broadcast use group_hash_axioms;

/// One report of the input subsystem, in plain values.
///
/// Axes and buttons are given by the numbers the subsystem uses for them.
/// `which` is the device the report is about: the index of the device for
/// `DeviceAdded`, the instance id of an open device for all others.
#[derive(Clone, Copy, Debug)]
pub enum RawEvent {
    /// A device was attached and has been opened under `instance_id`.
    DeviceAdded { timestamp: u32, which: u32, instance_id: u32, layout: ButtonLayout },
    /// An open device was detached.
    DeviceRemoved { timestamp: u32, which: u32 },
    /// An axis moved to `value`.
    AxisMotion { timestamp: u32, which: u32, axis: i32, value: i16 },
    /// A button went down.
    ButtonDown { timestamp: u32, which: u32, button: i32 },
    /// A button came up.
    ButtonUp { timestamp: u32, which: u32, button: i32 },
    /// Any report that is not relayed.
    Other,
}

/// The layout that the registry holds for a device, if it holds the device.
pub open spec fn registered(registry: Map<u32, ButtonLayout>, device: u32) -> Option<ButtonLayout> {
    if registry.contains_key(device) {
        Some(registry[device])
    } else {
        None
    }
}

/// The layout under which a device's buttons are read: the registered one,
/// or `Standard` for a device that the registry does not hold.
pub open spec fn layout_of(registry: Map<u32, ButtonLayout>, device: u32) -> ButtonLayout {
    match registered(registry, device) {
        Some(layout) => layout,
        None => ButtonLayout::Standard,
    }
}

/// The event, if any, that a button report becomes.
pub open spec fn button_event(
    registry: Map<u32, ButtonLayout>,
    timestamp: u32,
    which: u32,
    button: i32,
    pressed: bool,
) -> Option<SdlEvent> {
    match SdlButton::of_code_under(button as int, layout_of(registry, which)) {
        Some(label) => Some(
            SdlEvent::ButtonPress { timestamp, device_id: which, button: label, pressed },
        ),
        None => None,
    }
}

/// The event, if any, that one report becomes under the given registry.
///
/// Reports of other kinds, and reports whose axis or button number names
/// nothing, become no event.
pub open spec fn event_step(registry: Map<u32, ButtonLayout>, raw: RawEvent) -> Option<SdlEvent> {
    match raw {
        RawEvent::DeviceAdded { timestamp, which, .. } => Some(
            SdlEvent::ControllerAdded { timestamp, device_id: which },
        ),
        RawEvent::DeviceRemoved { timestamp, which } => Some(
            SdlEvent::ControllerRemoved { timestamp, device_id: which },
        ),
        RawEvent::AxisMotion { timestamp, which, axis, value } => match SdlAxis::of_code(
            axis as int,
        ) {
            Some(axis) => Some(SdlEvent::AxisMotion { timestamp, device_id: which, axis, value }),
            None => None,
        },
        RawEvent::ButtonDown { timestamp, which, button } => button_event(
            registry,
            timestamp,
            which,
            button,
            true,
        ),
        RawEvent::ButtonUp { timestamp, which, button } => button_event(
            registry,
            timestamp,
            which,
            button,
            false,
        ),
        RawEvent::Other => None,
    }
}

/// The registry after one report: an added device is entered under its
/// instance id, a removed one is taken out, anything else changes nothing.
pub open spec fn registry_step(registry: Map<u32, ButtonLayout>, raw: RawEvent) -> Map<
    u32,
    ButtonLayout,
> {
    match raw {
        RawEvent::DeviceAdded { instance_id, layout, .. } => registry.insert(instance_id, layout),
        RawEvent::DeviceRemoved { which, .. } => registry.remove(which),
        _ => registry,
    }
}

/// The registry after a batch of reports, taken in order.
pub open spec fn registry_after(registry: Map<u32, ButtonLayout>, raw: Seq<RawEvent>) -> Map<
    u32,
    ButtonLayout,
>
    decreases raw.len(),
{
    if raw.len() == 0 {
        registry
    } else {
        registry_step(registry_after(registry, raw.drop_last()), raw.last())
    }
}

/// The events that a batch of reports becomes, in the order of the reports,
/// each read under the registry as the reports before it left it.
pub open spec fn events_of(registry: Map<u32, ButtonLayout>, raw: Seq<RawEvent>) -> Seq<SdlEvent>
    decreases raw.len(),
{
    if raw.len() == 0 {
        Seq::empty()
    } else {
        let earlier = events_of(registry, raw.drop_last());
        match event_step(registry_after(registry, raw.drop_last()), raw.last()) {
            Some(event) => earlier.push(event),
            None => earlier,
        }
    }
}

/// The source adapter's state: which devices are open, and how each one's
/// buttons are laid out.
pub struct SdlReader {
    game_controllers: HashMap<u32, ButtonLayout>,
}

impl View for SdlReader {
    type V = Map<u32, ButtonLayout>;

    closed spec fn view(&self) -> Map<u32, ButtonLayout> {
        self.game_controllers@
    }
}

impl SdlReader {
    /// An adapter that knows of no open device.
    pub fn new() -> (reader: SdlReader)
        ensures
            reader@ == Map::<u32, ButtonLayout>::empty(),
    {
        SdlReader { game_controllers: HashMap::new() }
    }

    /// Looks a device up in the registry.
    pub fn lookup(&self, device: u32) -> (found: Option<ButtonLayout>)
        ensures
            found == registered(self@, device),
    {
        match self.game_controllers.get(&device) {
            Some(layout) => Some(*layout),
            None => None,
        }
    }

    /// The layout under which the buttons of `device` are read.
    pub fn layout(&self, device: u32) -> (layout: ButtonLayout)
        ensures
            layout == layout_of(self@, device),
    {
        match self.lookup(device) {
            Some(layout) => layout,
            None => ButtonLayout::Standard,
        }
    }

    /// Takes in one report: updates the registry and returns the event that
    /// the report becomes, if it becomes one.
    ///
    /// A button report for a device that is not registered is read under
    /// the standard layout.
    pub fn normalize(&mut self, raw: &RawEvent) -> (event: Option<SdlEvent>)
        ensures
            event == event_step(old(self)@, *raw),
            final(self)@ == registry_step(old(self)@, *raw),
    {
        match *raw {
            RawEvent::DeviceAdded { timestamp, which, instance_id, layout } => {
                self.game_controllers.insert(instance_id, layout);
                Some(SdlEvent::ControllerAdded { timestamp, device_id: which })
            },
            RawEvent::DeviceRemoved { timestamp, which } => {
                self.game_controllers.remove(&which);
                Some(SdlEvent::ControllerRemoved { timestamp, device_id: which })
            },
            RawEvent::AxisMotion { timestamp, which, axis, value } => {
                match SdlAxis::from_raw_sdl(axis) {
                    Some(axis) => Some(
                        SdlEvent::AxisMotion { timestamp, device_id: which, axis, value },
                    ),
                    None => None,
                }
            },
            RawEvent::ButtonDown { timestamp, which, button } => {
                self.button(timestamp, which, button, true)
            },
            RawEvent::ButtonUp { timestamp, which, button } => {
                self.button(timestamp, which, button, false)
            },
            RawEvent::Other => None,
        }
    }

    /// Normalises a button report for the device `which`.
    fn button(&self, timestamp: u32, which: u32, button: i32, pressed: bool) -> (event: Option<
        SdlEvent,
    >)
        ensures
            event == button_event(self@, timestamp, which, button, pressed),
    {
        match SdlButton::from_code(button) {
            Some(position) => Some(
                SdlEvent::ButtonPress {
                    timestamp,
                    device_id: which,
                    button: position.remap(self.layout(which)),
                    pressed,
                },
            ),
            None => None,
        }
    }

    /// Takes in a batch of reports, in order, and appends the events they
    /// become to `events`.
    pub fn poll_events(&mut self, raw: &Vec<RawEvent>, events: &mut EventBuffer)
        ensures
            final(self)@ == registry_after(old(self)@, raw@),
            final(events)@ == old(events)@ + events_of(old(self)@, raw@),
    {
        let ghost registry = self@;
        let ghost pending = events@;
        let mut i: usize = 0;
        assert(raw@.take(0) =~= Seq::<RawEvent>::empty());
        assert(pending + events_of(registry, raw@.take(0)) =~= pending);
        while i < raw.len()
            invariant
                i <= raw.len(),
                self@ == registry_after(registry, raw@.take(i as int)),
                events@ == pending + events_of(registry, raw@.take(i as int)),
            decreases raw.len() - i,
        {
            let ghost seen = raw@.take(i as int);
            let ghost next = raw@.take(i as int + 1);
            assert(next.drop_last() =~= seen);
            assert(next.last() == raw@[i as int]);
            match self.normalize(&raw[i]) {
                Some(event) => {
                    events.push(event);
                    assert(events@ =~= pending + events_of(registry, next));
                },
                None => {},
            }
            i = i + 1;
        }
        assert(raw@.take(i as int) =~= raw@);
    }
}

} // verus!
