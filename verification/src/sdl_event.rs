//! Controller events and the identities of axes and buttons.

use vstd::prelude::*;
use vstd::string::*;
use serde_json::Value;
use crate::json::{
    has_no_line_feed, json_bool, json_map_insert, json_map_new, json_number, json_object,
    json_render, json_string, json_text, json_tree, JsonFields, JsonTree,
};

verus! {

/// An analog axis of a game controller.
#[derive(Clone, Copy, Debug, PartialEq, Eq, Structural)]
pub enum SdlAxis {
    LeftX,
    LeftY,
    RightX,
    RightY,
    TriggerLeft,
    TriggerRight,
}

impl SdlAxis {
    /// The axis that the input subsystem numbers `code`, if there is one.
    pub open spec fn of_code(code: int) -> Option<SdlAxis> {
        if code == 0 {
            Some(SdlAxis::LeftX)
        } else if code == 1 {
            Some(SdlAxis::LeftY)
        } else if code == 2 {
            Some(SdlAxis::RightX)
        } else if code == 3 {
            Some(SdlAxis::RightY)
        } else if code == 4 {
            Some(SdlAxis::TriggerLeft)
        } else if code == 5 {
            Some(SdlAxis::TriggerRight)
        } else {
            None
        }
    }

    /// The name under which the axis appears in a record.
    pub open spec fn name(self) -> Seq<char> {
        match self {
            SdlAxis::LeftX => "LeftX"@,
            SdlAxis::LeftY => "LeftY"@,
            SdlAxis::RightX => "RightX"@,
            SdlAxis::RightY => "RightY"@,
            SdlAxis::TriggerLeft => "TriggerLeft"@,
            SdlAxis::TriggerRight => "TriggerRight"@,
        }
    }

    /// Whether the axis is one of the two analog triggers.
    pub fn is_trigger(&self) -> (trigger: bool)
        ensures
            trigger == (*self == SdlAxis::TriggerLeft || *self == SdlAxis::TriggerRight),
    {
        match self {
            SdlAxis::TriggerLeft | SdlAxis::TriggerRight => true,
            _ => false,
        }
    }

    /// Decodes the number that the input subsystem gives an axis.
    ///
    /// The six axes are numbered 0 to 5 in the order of the variants; any
    /// other number names no axis.
    pub fn from_raw_sdl(axis: i32) -> (decoded: Option<SdlAxis>)
        ensures
            decoded == SdlAxis::of_code(axis as int),
            decoded is Some <==> 0 <= axis <= 5,
    {
        match axis {
            0 => Some(SdlAxis::LeftX),
            1 => Some(SdlAxis::LeftY),
            2 => Some(SdlAxis::RightX),
            3 => Some(SdlAxis::RightY),
            4 => Some(SdlAxis::TriggerLeft),
            5 => Some(SdlAxis::TriggerRight),
            _ => None,
        }
    }

    /// The axis's name, as text.
    pub fn as_str(&self) -> (name: &'static str)
        ensures
            name@ == self.name(),
    {
        match self {
            SdlAxis::LeftX => "LeftX",
            SdlAxis::LeftY => "LeftY",
            SdlAxis::RightX => "RightX",
            SdlAxis::RightY => "RightY",
            SdlAxis::TriggerLeft => "TriggerLeft",
            SdlAxis::TriggerRight => "TriggerRight",
        }
    }
}

/// The arrangement of the four face buttons on a physical controller.
///
/// The input subsystem reports buttons by position. On most controllers the
/// position and the label agree; on controllers with the Nintendo
/// arrangement the labels `A`/`B` and `X`/`Y` sit the other way round.
#[derive(Clone, Copy, Debug, PartialEq, Eq, Structural)]
pub enum ButtonLayout {
    /// Position and label agree. Also used for devices that are not known.
    Standard,
    /// `A` and `B` are exchanged, and so are `X` and `Y`.
    Nintendo,
}

impl ButtonLayout {
    /// The one controller name that is known to have the Nintendo layout.
    pub open spec fn nintendo_name() -> Seq<char> {
        "Nintendo Switch Pro Controller"@
    }

    /// The layout of a controller with the given name.
    pub open spec fn of_name(name: Seq<char>) -> ButtonLayout {
        if name == ButtonLayout::nintendo_name() {
            ButtonLayout::Nintendo
        } else {
            ButtonLayout::Standard
        }
    }

    /// Finds the layout of a controller by its name: `Nintendo` for exactly
    /// the name `Nintendo Switch Pro Controller`, `Standard` for every other.
    pub fn from_name(name: &str) -> (layout: ButtonLayout)
        ensures
            layout == ButtonLayout::of_name(name@),
    {
        let given: String = name.to_owned();
        let known: String = "Nintendo Switch Pro Controller".to_owned();
        if given == known {
            ButtonLayout::Nintendo
        } else {
            ButtonLayout::Standard
        }
    }
}

/// A button of a game controller, by its label.
#[derive(Clone, Copy, Debug, PartialEq, Eq, Structural)]
pub enum SdlButton {
    A,
    B,
    X,
    Y,
    Back,
    Guide,
    Start,
    LeftStick,
    RightStick,
    LeftShoulder,
    RightShoulder,
    DPadUp,
    DPadDown,
    DPadLeft,
    DPadRight,
    Misc1,
    Paddle1,
    Paddle2,
    Paddle3,
    Paddle4,
    Touchpad,
}

impl SdlButton {
    /// The button that the input subsystem numbers `code`, if there is one.
    pub open spec fn of_code(code: int) -> Option<SdlButton> {
        if code == 0 {
            Some(SdlButton::A)
        } else if code == 1 {
            Some(SdlButton::B)
        } else if code == 2 {
            Some(SdlButton::X)
        } else if code == 3 {
            Some(SdlButton::Y)
        } else if code == 4 {
            Some(SdlButton::Back)
        } else if code == 5 {
            Some(SdlButton::Guide)
        } else if code == 6 {
            Some(SdlButton::Start)
        } else if code == 7 {
            Some(SdlButton::LeftStick)
        } else if code == 8 {
            Some(SdlButton::RightStick)
        } else if code == 9 {
            Some(SdlButton::LeftShoulder)
        } else if code == 10 {
            Some(SdlButton::RightShoulder)
        } else if code == 11 {
            Some(SdlButton::DPadUp)
        } else if code == 12 {
            Some(SdlButton::DPadDown)
        } else if code == 13 {
            Some(SdlButton::DPadLeft)
        } else if code == 14 {
            Some(SdlButton::DPadRight)
        } else if code == 15 {
            Some(SdlButton::Misc1)
        } else if code == 16 {
            Some(SdlButton::Paddle1)
        } else if code == 17 {
            Some(SdlButton::Paddle2)
        } else if code == 18 {
            Some(SdlButton::Paddle3)
        } else if code == 19 {
            Some(SdlButton::Paddle4)
        } else if code == 20 {
            Some(SdlButton::Touchpad)
        } else {
            None
        }
    }

    /// The label that a button in this position carries under `layout`.
    pub open spec fn relabelled(self, layout: ButtonLayout) -> SdlButton {
        match layout {
            ButtonLayout::Standard => self,
            ButtonLayout::Nintendo => match self {
                SdlButton::A => SdlButton::B,
                SdlButton::B => SdlButton::A,
                SdlButton::X => SdlButton::Y,
                SdlButton::Y => SdlButton::X,
                other => other,
            },
        }
    }

    /// The button that a raw code stands for on a controller with the given
    /// layout, if the code names a button at all.
    pub open spec fn of_code_under(code: int, layout: ButtonLayout) -> Option<SdlButton> {
        match SdlButton::of_code(code) {
            Some(button) => Some(button.relabelled(layout)),
            None => None,
        }
    }

    /// The name under which the button appears in a record.
    pub open spec fn name(self) -> Seq<char> {
        match self {
            SdlButton::A => "A"@,
            SdlButton::B => "B"@,
            SdlButton::X => "X"@,
            SdlButton::Y => "Y"@,
            SdlButton::Back => "Back"@,
            SdlButton::Guide => "Guide"@,
            SdlButton::Start => "Start"@,
            SdlButton::LeftStick => "LeftStick"@,
            SdlButton::RightStick => "RightStick"@,
            SdlButton::LeftShoulder => "LeftShoulder"@,
            SdlButton::RightShoulder => "RightShoulder"@,
            SdlButton::DPadUp => "DPadUp"@,
            SdlButton::DPadDown => "DPadDown"@,
            SdlButton::DPadLeft => "DPadLeft"@,
            SdlButton::DPadRight => "DPadRight"@,
            SdlButton::Misc1 => "Misc1"@,
            SdlButton::Paddle1 => "Paddle1"@,
            SdlButton::Paddle2 => "Paddle2"@,
            SdlButton::Paddle3 => "Paddle3"@,
            SdlButton::Paddle4 => "Paddle4"@,
            SdlButton::Touchpad => "Touchpad"@,
        }
    }

    /// Decodes the number that the input subsystem gives a button.
    ///
    /// The buttons are numbered 0 to 20 in the order of the variants; any
    /// other number names no button.
    pub fn from_code(code: i32) -> (decoded: Option<SdlButton>)
        ensures
            decoded == SdlButton::of_code(code as int),
            decoded is Some <==> 0 <= code <= 20,
    {
        match code {
            0 => Some(SdlButton::A),
            1 => Some(SdlButton::B),
            2 => Some(SdlButton::X),
            3 => Some(SdlButton::Y),
            4 => Some(SdlButton::Back),
            5 => Some(SdlButton::Guide),
            6 => Some(SdlButton::Start),
            7 => Some(SdlButton::LeftStick),
            8 => Some(SdlButton::RightStick),
            9 => Some(SdlButton::LeftShoulder),
            10 => Some(SdlButton::RightShoulder),
            11 => Some(SdlButton::DPadUp),
            12 => Some(SdlButton::DPadDown),
            13 => Some(SdlButton::DPadLeft),
            14 => Some(SdlButton::DPadRight),
            15 => Some(SdlButton::Misc1),
            16 => Some(SdlButton::Paddle1),
            17 => Some(SdlButton::Paddle2),
            18 => Some(SdlButton::Paddle3),
            19 => Some(SdlButton::Paddle4),
            20 => Some(SdlButton::Touchpad),
            _ => None,
        }
    }

    /// Applies a controller's layout to a button reported by position.
    pub fn remap(self, layout: ButtonLayout) -> (label: SdlButton)
        ensures
            label == self.relabelled(layout),
    {
        match layout {
            ButtonLayout::Standard => self,
            ButtonLayout::Nintendo => match self {
                SdlButton::A => SdlButton::B,
                SdlButton::B => SdlButton::A,
                SdlButton::X => SdlButton::Y,
                SdlButton::Y => SdlButton::X,
                other => other,
            },
        }
    }

    /// Decodes a raw button code as reported for the controller named
    /// `controller_name`, exchanging `A`/`B` and `X`/`Y` where that
    /// controller has the Nintendo layout.
    pub fn from_raw_sdl(button: i32, controller_name: &str) -> (decoded: Option<SdlButton>)
        ensures
            decoded == SdlButton::of_code_under(
                button as int,
                ButtonLayout::of_name(controller_name@),
            ),
            decoded is Some <==> 0 <= button <= 20,
    {
        match SdlButton::from_code(button) {
            Some(position) => Some(position.remap(ButtonLayout::from_name(controller_name))),
            None => None,
        }
    }

    /// The button's name, as text.
    pub fn as_str(&self) -> (name: &'static str)
        ensures
            name@ == self.name(),
    {
        match self {
            SdlButton::A => "A",
            SdlButton::B => "B",
            SdlButton::X => "X",
            SdlButton::Y => "Y",
            SdlButton::Back => "Back",
            SdlButton::Guide => "Guide",
            SdlButton::Start => "Start",
            SdlButton::LeftStick => "LeftStick",
            SdlButton::RightStick => "RightStick",
            SdlButton::LeftShoulder => "LeftShoulder",
            SdlButton::RightShoulder => "RightShoulder",
            SdlButton::DPadUp => "DPadUp",
            SdlButton::DPadDown => "DPadDown",
            SdlButton::DPadLeft => "DPadLeft",
            SdlButton::DPadRight => "DPadRight",
            SdlButton::Misc1 => "Misc1",
            SdlButton::Paddle1 => "Paddle1",
            SdlButton::Paddle2 => "Paddle2",
            SdlButton::Paddle3 => "Paddle3",
            SdlButton::Paddle4 => "Paddle4",
            SdlButton::Touchpad => "Touchpad",
        }
    }
}

/// Relabelling twice under the same layout gives the button back, so a
/// layout never maps two positions to one label.
pub proof fn lemma_relabel_twice(button: SdlButton, layout: ButtonLayout)
    ensures
        button.relabelled(layout).relabelled(layout) == button,
{
}

/// One input event of a game controller, as relayed to a consumer.
///
/// `timestamp` is the time the input subsystem stamped on the event and
/// `device_id` the device it came from.
#[derive(Clone, Copy, Debug, PartialEq, Eq, Structural)]
pub enum SdlEvent {
    ControllerAdded { timestamp: u32, device_id: u32 },
    ControllerRemoved { timestamp: u32, device_id: u32 },
    AxisMotion { timestamp: u32, device_id: u32, axis: SdlAxis, value: i16 },
    ButtonPress { timestamp: u32, device_id: u32, button: SdlButton, pressed: bool },
}

impl SdlEvent {
    /// The time stamped on the event.
    pub open spec fn stamp(self) -> u32 {
        match self {
            SdlEvent::ControllerAdded { timestamp, .. } => timestamp,
            SdlEvent::ControllerRemoved { timestamp, .. } => timestamp,
            SdlEvent::AxisMotion { timestamp, .. } => timestamp,
            SdlEvent::ButtonPress { timestamp, .. } => timestamp,
        }
    }

    /// The device the event came from.
    pub open spec fn device(self) -> u32 {
        match self {
            SdlEvent::ControllerAdded { device_id, .. } => device_id,
            SdlEvent::ControllerRemoved { device_id, .. } => device_id,
            SdlEvent::AxisMotion { device_id, .. } => device_id,
            SdlEvent::ButtonPress { device_id, .. } => device_id,
        }
    }

    /// The tag that names the event's kind in a record.
    pub open spec fn kind(self) -> Seq<char> {
        match self {
            SdlEvent::ControllerAdded { .. } => "ControllerAdded"@,
            SdlEvent::ControllerRemoved { .. } => "ControllerRemoved"@,
            SdlEvent::AxisMotion { .. } => "AxisMotion"@,
            SdlEvent::ButtonPress { .. } => "ButtonPress"@,
        }
    }

    /// The two fields that every kind of event carries.
    pub open spec fn common_fields(self) -> Map<Seq<char>, JsonTree> {
        Map::<Seq<char>, JsonTree>::empty().insert(
            "timestamp"@,
            JsonTree::Number(self.stamp() as int),
        ).insert("device_id"@, JsonTree::Number(self.device() as int))
    }

    /// The fields of the event, by name: the common ones and the payload of
    /// its kind. Adding and removing a controller carry no payload.
    pub open spec fn fields(self) -> Map<Seq<char>, JsonTree> {
        match self {
            SdlEvent::ControllerAdded { .. } => self.common_fields(),
            SdlEvent::ControllerRemoved { .. } => self.common_fields(),
            SdlEvent::AxisMotion { axis, value, .. } => self.common_fields().insert(
                "axis"@,
                JsonTree::Text(axis.name()),
            ).insert("value"@, JsonTree::Number(value as int)),
            SdlEvent::ButtonPress { button, pressed, .. } => self.common_fields().insert(
                "button"@,
                JsonTree::Text(button.name()),
            ).insert("pressed"@, JsonTree::Bool(pressed)),
        }
    }

    /// The JSON value of the event: an object with one entry, whose key is
    /// the kind and whose value is the object of the fields.
    pub open spec fn tree(self) -> JsonTree {
        JsonTree::Object(
            Map::<Seq<char>, JsonTree>::empty().insert(self.kind(), JsonTree::Object(self.fields())),
        )
    }

    /// The record of the event: its JSON value in compact form, followed by
    /// one line feed.
    pub open spec fn record_text(self) -> Seq<char> {
        json_text(self.tree()) + seq!['\n']
    }

    /// The time stamped on the event.
    pub fn timestamp(&self) -> (timestamp: u32)
        ensures
            timestamp == self.stamp(),
    {
        match self {
            SdlEvent::ControllerAdded { timestamp, .. } => *timestamp,
            SdlEvent::ControllerRemoved { timestamp, .. } => *timestamp,
            SdlEvent::AxisMotion { timestamp, .. } => *timestamp,
            SdlEvent::ButtonPress { timestamp, .. } => *timestamp,
        }
    }

    /// The device the event came from.
    pub fn device_id(&self) -> (device_id: u32)
        ensures
            device_id == self.device(),
    {
        match self {
            SdlEvent::ControllerAdded { device_id, .. } => *device_id,
            SdlEvent::ControllerRemoved { device_id, .. } => *device_id,
            SdlEvent::AxisMotion { device_id, .. } => *device_id,
            SdlEvent::ButtonPress { device_id, .. } => *device_id,
        }
    }

    /// The tag that names the event's kind, as text.
    pub fn kind_str(&self) -> (kind: &'static str)
        ensures
            kind@ == self.kind(),
    {
        match self {
            SdlEvent::ControllerAdded { .. } => "ControllerAdded",
            SdlEvent::ControllerRemoved { .. } => "ControllerRemoved",
            SdlEvent::AxisMotion { .. } => "AxisMotion",
            SdlEvent::ButtonPress { .. } => "ButtonPress",
        }
    }

    /// Builds the JSON value of the event.
    pub fn to_json(&self) -> (value: Value)
        ensures
            json_tree(value) == self.tree(),
    {
        let mut fields: JsonFields = json_map_new();
        json_map_insert(&mut fields, "timestamp", json_number(self.timestamp() as i64));
        json_map_insert(&mut fields, "device_id", json_number(self.device_id() as i64));
        match self {
            SdlEvent::ControllerAdded { .. } => {},
            SdlEvent::ControllerRemoved { .. } => {},
            SdlEvent::AxisMotion { axis, value, .. } => {
                json_map_insert(&mut fields, "axis", json_string(axis.as_str()));
                json_map_insert(&mut fields, "value", json_number(*value as i64));
            },
            SdlEvent::ButtonPress { button, pressed, .. } => {
                json_map_insert(&mut fields, "button", json_string(button.as_str()));
                json_map_insert(&mut fields, "pressed", json_bool(*pressed));
            },
        }
        let mut tagged: JsonFields = json_map_new();
        json_map_insert(&mut tagged, self.kind_str(), json_object(fields));
        json_object(tagged)
    }

    /// Serialises the event to one record: a single line, closed by the
    /// only line feed in it.
    pub fn to_record(&self) -> (record: String)
        ensures
            record@ == self.record_text(),
            is_one_line(record@),
    {
        let value = self.to_json();
        frame_record(json_render(&value))
    }
}

/// Whether a text is one line: it ends with a line feed and holds no other.
pub open spec fn is_one_line(text: Seq<char>) -> bool {
    &&& text.len() > 0
    &&& text.last() == '\n'
    &&& has_no_line_feed(text.drop_last())
}

/// Ends a rendered value with the line feed that closes a record.
pub fn frame_record(text: String) -> (record: String)
    ensures
        record@ == text@ + seq!['\n'],
        has_no_line_feed(text@) ==> is_one_line(record@),
{
    let mut record = text;
    proof {
        reveal_strlit("\n");
    }
    record.append("\n");
    assert("\n"@ =~= seq!['\n']);
    assert(record@.drop_last() =~= text@);
    record
}

} // verus!
