use vstd::prelude::*;
use vstd::string::*;
use crate::komsi::{
    KomsiCommandKind, EOL_BYTE, command_bytes, build_komsi_command,
    build_komsi_command_u8, build_komsi_command_eol,
};

verus! {

/// Receives a human-readable line for each field that a comparison sends.
pub trait VehicleLogger {
    /// Logs a message.
    fn log(&self, msg: String);
}

/// The state of a vehicle.
///
/// Every field is a plain number. The fourth door light and the gear selector
/// are kept here but are not part of the KOMSI protocol: `compare` never
/// sends them.
#[derive(Debug, Clone, PartialEq, Eq, Structural)]
pub struct VehicleState {
    /// Ignition status (0 = Off, 1 = On)
    pub ignition: u8,
    /// Engine status (0 = Off, 1 = On)
    pub engine: u8,
    /// Passenger doors status (0 = Closed, 1 = Open)
    pub doors: u8,
    /// Current speed
    pub speed: u32,
    /// Maximum speed
    pub maxspeed: u32,
    /// Fuel level
    pub fuel: u32,
    /// Indicator status (0 = Off, 1 = Left, 2 = Right, 3 = Both)
    pub indicator: u8,
    /// Fixing brake / Parking brake status (0 = Released, 1 = Applied)
    pub fixing_brake: u8,
    /// Warning lights status (0 = Off, 1 = On)
    pub lights_warning: u8,
    /// Main lights status (0 = Off, 1 = On)
    pub lights_main: u8,
    /// Front door lights status
    pub lights_front_door: u8,
    /// Second door lights status
    pub lights_second_door: u8,
    /// Third door lights status
    pub lights_third_door: u8,
    /// Fourth door lights status (not sent)
    pub lights_fourth_door: u8,
    /// Stop request lights status
    pub lights_stop_request: u8,
    /// Stop brake lights status
    pub lights_stop_brake: u8,
    /// High beam lights status
    pub lights_high_beam: u8,
    /// Battery charging light status
    pub battery_light: u8,
    /// Gear selector position (not sent)
    pub gear_selector: u8,
    /// Door enable status
    pub door_enable: u8,
}

/// The state with every field at zero.
pub open spec fn zero_state() -> VehicleState {
    VehicleState {
        ignition: 0,
        engine: 0,
        doors: 0,
        speed: 0,
        maxspeed: 0,
        fuel: 0,
        indicator: 0,
        fixing_brake: 0,
        lights_warning: 0,
        lights_main: 0,
        lights_front_door: 0,
        lights_second_door: 0,
        lights_third_door: 0,
        lights_fourth_door: 0,
        lights_stop_request: 0,
        lights_stop_brake: 0,
        lights_high_beam: 0,
        battery_light: 0,
        gear_selector: 0,
        door_enable: 0,
    }
}

impl Default for VehicleState {
    fn default() -> (r: Self)
        ensures
            r == zero_state(),
    {
        VehicleState {
            ignition: 0,
            engine: 0,
            doors: 0,
            speed: 0,
            maxspeed: 0,
            fuel: 0,
            indicator: 0,
            fixing_brake: 0,
            lights_warning: 0,
            lights_main: 0,
            lights_front_door: 0,
            lights_second_door: 0,
            lights_third_door: 0,
            lights_fourth_door: 0,
            lights_stop_request: 0,
            lights_stop_brake: 0,
            lights_high_beam: 0,
            battery_light: 0,
            gear_selector: 0,
            door_enable: 0,
        }
    }
}

/// The fields of a `VehicleState` that `compare` sends, in the order in
/// which it checks and sends them.
#[derive(Debug, Clone, Copy, PartialEq, Eq, Structural)]
pub enum TrackedField {
    /// The `ignition` field.
    Ignition,
    /// The `engine` field.
    Engine,
    /// The `doors` field.
    Doors,
    /// The `fixing_brake` field.
    FixingBrake,
    /// The `indicator` field.
    Indicator,
    /// The `lights_warning` field.
    LightsWarning,
    /// The `lights_main` field.
    LightsMain,
    /// The `lights_stop_request` field.
    LightsStopRequest,
    /// The `lights_stop_brake` field.
    LightsStopBrake,
    /// The `lights_front_door` field.
    LightsFrontDoor,
    /// The `lights_second_door` field.
    LightsSecondDoor,
    /// The `lights_third_door` field.
    LightsThirdDoor,
    /// The `lights_high_beam` field.
    LightsHighBeam,
    /// The `fuel` field.
    Fuel,
    /// The `speed` field.
    Speed,
    /// The `maxspeed` field.
    MaxSpeed,
    /// The `battery_light` field.
    BatteryLight,
    /// The `door_enable` field.
    DoorEnable,
}

/// How many fields `compare` checks.
pub const TRACKED_FIELD_COUNT: usize = 18;

/// The field at position `i` of the canonical order.
pub open spec fn field_at(i: int) -> TrackedField {
    if i == 0 {
        TrackedField::Ignition
    } else if i == 1 {
        TrackedField::Engine
    } else if i == 2 {
        TrackedField::Doors
    } else if i == 3 {
        TrackedField::FixingBrake
    } else if i == 4 {
        TrackedField::Indicator
    } else if i == 5 {
        TrackedField::LightsWarning
    } else if i == 6 {
        TrackedField::LightsMain
    } else if i == 7 {
        TrackedField::LightsStopRequest
    } else if i == 8 {
        TrackedField::LightsStopBrake
    } else if i == 9 {
        TrackedField::LightsFrontDoor
    } else if i == 10 {
        TrackedField::LightsSecondDoor
    } else if i == 11 {
        TrackedField::LightsThirdDoor
    } else if i == 12 {
        TrackedField::LightsHighBeam
    } else if i == 13 {
        TrackedField::Fuel
    } else if i == 14 {
        TrackedField::Speed
    } else if i == 15 {
        TrackedField::MaxSpeed
    } else if i == 16 {
        TrackedField::BatteryLight
    } else {
        TrackedField::DoorEnable
    }
}

/// The position of a field in the canonical order.
pub open spec fn field_index(f: TrackedField) -> int {
    match f {
        TrackedField::Ignition => 0,
        TrackedField::Engine => 1,
        TrackedField::Doors => 2,
        TrackedField::FixingBrake => 3,
        TrackedField::Indicator => 4,
        TrackedField::LightsWarning => 5,
        TrackedField::LightsMain => 6,
        TrackedField::LightsStopRequest => 7,
        TrackedField::LightsStopBrake => 8,
        TrackedField::LightsFrontDoor => 9,
        TrackedField::LightsSecondDoor => 10,
        TrackedField::LightsThirdDoor => 11,
        TrackedField::LightsHighBeam => 12,
        TrackedField::Fuel => 13,
        TrackedField::Speed => 14,
        TrackedField::MaxSpeed => 15,
        TrackedField::BatteryLight => 16,
        TrackedField::DoorEnable => 17,
    }
}

/// All tracked fields in canonical order.
pub open spec fn canonical_fields() -> Seq<TrackedField> {
    Seq::new(TRACKED_FIELD_COUNT as nat, |i: int| field_at(i))
}

/// The command that carries a field.
pub open spec fn kind_of(f: TrackedField) -> KomsiCommandKind {
    match f {
        TrackedField::Ignition => KomsiCommandKind::Ignition,
        TrackedField::Engine => KomsiCommandKind::Engine,
        TrackedField::Doors => KomsiCommandKind::PassengerDoorsOpen,
        TrackedField::FixingBrake => KomsiCommandKind::FixingBrake,
        TrackedField::Indicator => KomsiCommandKind::Indicator,
        TrackedField::LightsWarning => KomsiCommandKind::LightsWarning,
        TrackedField::LightsMain => KomsiCommandKind::LightsMain,
        TrackedField::LightsStopRequest => KomsiCommandKind::LightsStopRequest,
        TrackedField::LightsStopBrake => KomsiCommandKind::LightsStopBrake,
        TrackedField::LightsFrontDoor => KomsiCommandKind::LightsFrontDoor,
        TrackedField::LightsSecondDoor => KomsiCommandKind::LightsSecondDoor,
        TrackedField::LightsThirdDoor => KomsiCommandKind::LightsThirdDoor,
        TrackedField::LightsHighBeam => KomsiCommandKind::LightsHighBeam,
        TrackedField::Fuel => KomsiCommandKind::Fuel,
        TrackedField::Speed => KomsiCommandKind::Speed,
        TrackedField::MaxSpeed => KomsiCommandKind::MaxSpeed,
        TrackedField::BatteryLight => KomsiCommandKind::BatteryLight,
        TrackedField::DoorEnable => KomsiCommandKind::DoorEnable,
    }
}

/// True of the fields that hold a 32-bit value; the others hold a byte.
pub open spec fn is_wide_field(f: TrackedField) -> bool {
    f == TrackedField::Fuel || f == TrackedField::Speed || f == TrackedField::MaxSpeed
}

/// The name under which a field is logged.
pub open spec fn name_of(f: TrackedField) -> Seq<char> {
    match f {
        TrackedField::Ignition => "ignition"@,
        TrackedField::Engine => "engine"@,
        TrackedField::Doors => "doors"@,
        TrackedField::FixingBrake => "fixing_brake"@,
        TrackedField::Indicator => "indicator"@,
        TrackedField::LightsWarning => "lights_warning"@,
        TrackedField::LightsMain => "lights_main"@,
        TrackedField::LightsStopRequest => "lights_stop_request"@,
        TrackedField::LightsStopBrake => "lights_stop_brake"@,
        TrackedField::LightsFrontDoor => "lights_front_door"@,
        TrackedField::LightsSecondDoor => "lights_second_door"@,
        TrackedField::LightsThirdDoor => "lights_third_door"@,
        TrackedField::LightsHighBeam => "lights_high_beam"@,
        TrackedField::Fuel => "fuel"@,
        TrackedField::Speed => "speed"@,
        TrackedField::MaxSpeed => "maxspeed"@,
        TrackedField::BatteryLight => "battery_light"@,
        TrackedField::DoorEnable => "door_enable"@,
    }
}

/// The value of a tracked field in a state.
pub open spec fn field_value(s: VehicleState, f: TrackedField) -> nat {
    match f {
        TrackedField::Ignition => s.ignition as nat,
        TrackedField::Engine => s.engine as nat,
        TrackedField::Doors => s.doors as nat,
        TrackedField::FixingBrake => s.fixing_brake as nat,
        TrackedField::Indicator => s.indicator as nat,
        TrackedField::LightsWarning => s.lights_warning as nat,
        TrackedField::LightsMain => s.lights_main as nat,
        TrackedField::LightsStopRequest => s.lights_stop_request as nat,
        TrackedField::LightsStopBrake => s.lights_stop_brake as nat,
        TrackedField::LightsFrontDoor => s.lights_front_door as nat,
        TrackedField::LightsSecondDoor => s.lights_second_door as nat,
        TrackedField::LightsThirdDoor => s.lights_third_door as nat,
        TrackedField::LightsHighBeam => s.lights_high_beam as nat,
        TrackedField::Fuel => s.fuel as nat,
        TrackedField::Speed => s.speed as nat,
        TrackedField::MaxSpeed => s.maxspeed as nat,
        TrackedField::BatteryLight => s.battery_light as nat,
        TrackedField::DoorEnable => s.door_enable as nat,
    }
}

impl TrackedField {
    /// The field at position `i` of the canonical order.
    pub fn at(i: usize) -> (f: TrackedField)
        requires
            i < TRACKED_FIELD_COUNT,
        ensures
            f == field_at(i as int),
    {
        if i == 0 {
            TrackedField::Ignition
        } else if i == 1 {
            TrackedField::Engine
        } else if i == 2 {
            TrackedField::Doors
        } else if i == 3 {
            TrackedField::FixingBrake
        } else if i == 4 {
            TrackedField::Indicator
        } else if i == 5 {
            TrackedField::LightsWarning
        } else if i == 6 {
            TrackedField::LightsMain
        } else if i == 7 {
            TrackedField::LightsStopRequest
        } else if i == 8 {
            TrackedField::LightsStopBrake
        } else if i == 9 {
            TrackedField::LightsFrontDoor
        } else if i == 10 {
            TrackedField::LightsSecondDoor
        } else if i == 11 {
            TrackedField::LightsThirdDoor
        } else if i == 12 {
            TrackedField::LightsHighBeam
        } else if i == 13 {
            TrackedField::Fuel
        } else if i == 14 {
            TrackedField::Speed
        } else if i == 15 {
            TrackedField::MaxSpeed
        } else if i == 16 {
            TrackedField::BatteryLight
        } else {
            TrackedField::DoorEnable
        }
    }

    /// The command that carries this field.
    pub fn command_kind(self) -> (k: KomsiCommandKind)
        ensures
            k == kind_of(self),
    {
        match self {
            TrackedField::Ignition => KomsiCommandKind::Ignition,
            TrackedField::Engine => KomsiCommandKind::Engine,
            TrackedField::Doors => KomsiCommandKind::PassengerDoorsOpen,
            TrackedField::FixingBrake => KomsiCommandKind::FixingBrake,
            TrackedField::Indicator => KomsiCommandKind::Indicator,
            TrackedField::LightsWarning => KomsiCommandKind::LightsWarning,
            TrackedField::LightsMain => KomsiCommandKind::LightsMain,
            TrackedField::LightsStopRequest => KomsiCommandKind::LightsStopRequest,
            TrackedField::LightsStopBrake => KomsiCommandKind::LightsStopBrake,
            TrackedField::LightsFrontDoor => KomsiCommandKind::LightsFrontDoor,
            TrackedField::LightsSecondDoor => KomsiCommandKind::LightsSecondDoor,
            TrackedField::LightsThirdDoor => KomsiCommandKind::LightsThirdDoor,
            TrackedField::LightsHighBeam => KomsiCommandKind::LightsHighBeam,
            TrackedField::Fuel => KomsiCommandKind::Fuel,
            TrackedField::Speed => KomsiCommandKind::Speed,
            TrackedField::MaxSpeed => KomsiCommandKind::MaxSpeed,
            TrackedField::BatteryLight => KomsiCommandKind::BatteryLight,
            TrackedField::DoorEnable => KomsiCommandKind::DoorEnable,
        }
    }

    /// Whether this field holds a 32-bit value.
    pub fn is_wide(self) -> (r: bool)
        ensures
            r == is_wide_field(self),
    {
        match self {
            TrackedField::Fuel | TrackedField::Speed | TrackedField::MaxSpeed => true,
            _ => false,
        }
    }

    /// The name under which this field is logged.
    pub fn name(self) -> (r: &'static str)
        ensures
            r@ == name_of(self),
    {
        match self {
            TrackedField::Ignition => "ignition",
            TrackedField::Engine => "engine",
            TrackedField::Doors => "doors",
            TrackedField::FixingBrake => "fixing_brake",
            TrackedField::Indicator => "indicator",
            TrackedField::LightsWarning => "lights_warning",
            TrackedField::LightsMain => "lights_main",
            TrackedField::LightsStopRequest => "lights_stop_request",
            TrackedField::LightsStopBrake => "lights_stop_brake",
            TrackedField::LightsFrontDoor => "lights_front_door",
            TrackedField::LightsSecondDoor => "lights_second_door",
            TrackedField::LightsThirdDoor => "lights_third_door",
            TrackedField::LightsHighBeam => "lights_high_beam",
            TrackedField::Fuel => "fuel",
            TrackedField::Speed => "speed",
            TrackedField::MaxSpeed => "maxspeed",
            TrackedField::BatteryLight => "battery_light",
            TrackedField::DoorEnable => "door_enable",
        }
    }
}

impl VehicleState {
    /// The value of a field that holds a byte.
    fn small_value(&self, f: TrackedField) -> (r: u8)
        requires
            !is_wide_field(f),
        ensures
            r as nat == field_value(*self, f),
    {
        match f {
            TrackedField::Ignition => self.ignition,
            TrackedField::Engine => self.engine,
            TrackedField::Doors => self.doors,
            TrackedField::FixingBrake => self.fixing_brake,
            TrackedField::Indicator => self.indicator,
            TrackedField::LightsWarning => self.lights_warning,
            TrackedField::LightsMain => self.lights_main,
            TrackedField::LightsStopRequest => self.lights_stop_request,
            TrackedField::LightsStopBrake => self.lights_stop_brake,
            TrackedField::LightsFrontDoor => self.lights_front_door,
            TrackedField::LightsSecondDoor => self.lights_second_door,
            TrackedField::LightsThirdDoor => self.lights_third_door,
            TrackedField::LightsHighBeam => self.lights_high_beam,
            TrackedField::BatteryLight => self.battery_light,
            TrackedField::DoorEnable => self.door_enable,
            _ => 0,
        }
    }

    /// The value of a field that holds a 32-bit value.
    fn wide_value(&self, f: TrackedField) -> (r: u32)
        requires
            is_wide_field(f),
        ensures
            r as nat == field_value(*self, f),
    {
        match f {
            TrackedField::Fuel => self.fuel,
            TrackedField::Speed => self.speed,
            _ => self.maxspeed,
        }
    }
}

/// The character of a decimal digit.
pub open spec fn digit_char(d: nat) -> char {
    if d == 0 {
        '0'
    } else if d == 1 {
        '1'
    } else if d == 2 {
        '2'
    } else if d == 3 {
        '3'
    } else if d == 4 {
        '4'
    } else if d == 5 {
        '5'
    } else if d == 6 {
        '6'
    } else if d == 7 {
        '7'
    } else if d == 8 {
        '8'
    } else {
        '9'
    }
}

/// The decimal digits of `n` as text, most significant first, without
/// leading zeros.
pub open spec fn decimal_text(n: nat) -> Seq<char>
    decreases n,
{
    if n < 10 {
        seq![digit_char(n)]
    } else {
        decimal_text(n / 10).push(digit_char(n % 10))
    }
}

/// The line logged for a field that is sent: its name, a colon, the old value,
/// an arrow and the new value. Fields of 32 bits put two spaces after the colon.
pub open spec fn change_message(name: Seq<char>, old_value: nat, new_value: nat, wide: bool) -> Seq<char> {
    name + ":"@ + (if wide { "  "@ } else { " "@ }) + decimal_text(old_value) + " -> "@
        + decimal_text(new_value) + " "@
}

/// The line logged for field `f` when comparing `before` with `after`.
pub open spec fn field_message(before: VehicleState, after: VehicleState, f: TrackedField) -> Seq<char> {
    change_message(name_of(f), field_value(before, f), field_value(after, f), is_wide_field(f))
}

/// Whether `compare` sends field `f`: it changed, or sending is forced.
pub open spec fn sent_pred(before: VehicleState, after: VehicleState, force: bool) -> spec_fn(TrackedField) -> bool {
    |f: TrackedField| force || field_value(before, f) != field_value(after, f)
}

/// The fields that `compare` sends, in canonical order.
pub open spec fn fields_to_send(before: VehicleState, after: VehicleState, force: bool) -> Seq<TrackedField> {
    canonical_fields().filter(sent_pred(before, after, force))
}

/// The commands for fields `fs`, in order, each with the field's value in `state`.
pub open spec fn encode_fields(state: VehicleState, fs: Seq<TrackedField>) -> Seq<u8>
    decreases fs.len(),
{
    if fs.len() == 0 {
        Seq::empty()
    } else {
        encode_fields(state, fs.drop_last()) + command_bytes(kind_of(fs.last()), field_value(state, fs.last()))
    }
}

/// The bytes that `compare` returns: a command for each field to send, then
/// a line feed; nothing at all when no field is sent.
pub open spec fn compare_bytes(before: VehicleState, after: VehicleState, force: bool) -> Seq<u8> {
    let fs = fields_to_send(before, after, force);
    if fs.len() == 0 {
        Seq::empty()
    } else {
        encode_fields(after, fs).push(EOL_BYTE)
    }
}

/// The lines that `compare` hands to a logger, in order: one per field sent.
pub open spec fn log_messages(before: VehicleState, after: VehicleState, force: bool) -> Seq<Seq<char>> {
    fields_to_send(before, after, force).map_values(|f: TrackedField| field_message(before, after, f))
}

/// One entry of a state's summary: a label, a colon, the value and a space.
pub open spec fn summary_entry(label: Seq<char>, value: nat) -> Seq<char> {
    label + ":"@ + decimal_text(value) + " "@
}

/// The one-line summary of every field of a state, ending with a space and
/// a line feed.
pub open spec fn summary_text(s: VehicleState) -> Seq<char> {
    summary_entry("ignition"@, s.ignition as nat)
        + summary_entry("engine"@, s.engine as nat)
        + summary_entry("indicator"@, s.indicator as nat)
        + summary_entry("fuel"@, s.fuel as nat)
        + summary_entry("warn"@, s.lights_warning as nat)
        + summary_entry("lights"@, s.lights_main as nat)
        + summary_entry("high-beam"@, s.lights_high_beam as nat)
        + summary_entry("stop"@, s.lights_stop_request as nat)
        + summary_entry("fixing-brake"@, s.fixing_brake as nat)
        + summary_entry("stop-brake"@, s.lights_stop_brake as nat)
        + summary_entry("doors"@, s.doors as nat)
        + summary_entry("door1"@, s.lights_front_door as nat)
        + summary_entry("door2"@, s.lights_second_door as nat)
        + summary_entry("door3"@, s.lights_third_door as nat)
        + summary_entry("door4"@, s.lights_fourth_door as nat)
        + summary_entry("speed"@, s.speed as nat)
        + summary_entry("max-speed"@, s.maxspeed as nat)
        + summary_entry("battery-light"@, s.battery_light as nat)
        + summary_entry("door-enable"@, s.door_enable as nat)
        + summary_entry("gear-selector"@, s.gear_selector as nat)
        + " \n"@
}

/// The text of a single decimal digit.
fn digit_str(d: u32) -> (r: &'static str)
    requires
        d < 10,
    ensures
        r@ == seq![digit_char(d as nat)],
{
    proof {
        reveal_strlit("0");
        reveal_strlit("1");
        reveal_strlit("2");
        reveal_strlit("3");
        reveal_strlit("4");
        reveal_strlit("5");
        reveal_strlit("6");
        reveal_strlit("7");
        reveal_strlit("8");
        reveal_strlit("9");
    }
    if d == 0 {
        "0"
    } else if d == 1 {
        "1"
    } else if d == 2 {
        "2"
    } else if d == 3 {
        "3"
    } else if d == 4 {
        "4"
    } else if d == 5 {
        "5"
    } else if d == 6 {
        "6"
    } else if d == 7 {
        "7"
    } else if d == 8 {
        "8"
    } else {
        "9"
    }
}

/// Appends the decimal digits of `n` to `text`.
fn push_decimal_text(n: u32, text: &mut String)
    ensures
        final(text)@ == old(text)@ + decimal_text(n as nat),
    decreases n,
{
    if n >= 10 {
        push_decimal_text(n / 10, text);
    }
    text.append(digit_str(n % 10));
    assert(final(text)@ =~= old(text)@ + decimal_text(n as nat));
}

/// The line logged for a field named `field_name` whose value goes from
/// `old_value` to `new_value`.
pub fn describe_change(field_name: &str, old_value: u32, new_value: u32, wide: bool) -> (r: String)
    ensures
        r@ == change_message(field_name@, old_value as nat, new_value as nat, wide),
{
    let mut text = String::from_str(field_name);
    text.append(":");
    if wide {
        text.append("  ");
    } else {
        text.append(" ");
    }
    push_decimal_text(old_value, &mut text);
    text.append(" -> ");
    push_decimal_text(new_value, &mut text);
    text.append(" ");
    text
}

/// Appends one entry of a state's summary to `text`.
fn push_summary_entry(text: &mut String, label: &str, value: u32)
    ensures
        final(text)@ == old(text)@ + summary_entry(label@, value as nat),
{
    text.append(label);
    text.append(":");
    push_decimal_text(value, text);
    text.append(" ");
    assert(final(text)@ =~= old(text)@ + summary_entry(label@, value as nat));
}

impl VehicleState {
    /// Creates a new `VehicleState` with every field at zero.
    pub fn new() -> (r: Self)
        ensures
            r == zero_state(),
    {
        Self::default()
    }

    /// The state as one line of text, each field as `label:value`, for
    /// showing it to a person.
    pub fn summary(&self) -> (r: String)
        ensures
            r@ == summary_text(*self),
    {
        let mut text = String::new();
        push_summary_entry(&mut text, "ignition", self.ignition as u32);
        push_summary_entry(&mut text, "engine", self.engine as u32);
        push_summary_entry(&mut text, "indicator", self.indicator as u32);
        push_summary_entry(&mut text, "fuel", self.fuel);
        push_summary_entry(&mut text, "warn", self.lights_warning as u32);
        push_summary_entry(&mut text, "lights", self.lights_main as u32);
        push_summary_entry(&mut text, "high-beam", self.lights_high_beam as u32);
        push_summary_entry(&mut text, "stop", self.lights_stop_request as u32);
        push_summary_entry(&mut text, "fixing-brake", self.fixing_brake as u32);
        push_summary_entry(&mut text, "stop-brake", self.lights_stop_brake as u32);
        push_summary_entry(&mut text, "doors", self.doors as u32);
        push_summary_entry(&mut text, "door1", self.lights_front_door as u32);
        push_summary_entry(&mut text, "door2", self.lights_second_door as u32);
        push_summary_entry(&mut text, "door3", self.lights_third_door as u32);
        push_summary_entry(&mut text, "door4", self.lights_fourth_door as u32);
        push_summary_entry(&mut text, "speed", self.speed);
        push_summary_entry(&mut text, "max-speed", self.maxspeed);
        push_summary_entry(&mut text, "battery-light", self.battery_light as u32);
        push_summary_entry(&mut text, "door-enable", self.door_enable as u32);
        push_summary_entry(&mut text, "gear-selector", self.gear_selector as u32);
        text.append(" \n");
        text
    }

    /// Compares this state with `new` and returns the KOMSI commands that
    /// bring a receiver from this state to `new`.
    ///
    /// The fields are checked in canonical order; each one that changed, or
    /// every one if `force` is true, is sent as its command with the value in
    /// `new`, and handed to `logger` if there is one. A line feed ends the
    /// commands; when nothing is sent the result is empty. The bytes do not
    /// depend on the logger.
    pub fn compare(&self, new: &VehicleState, force: bool, logger: Option<&dyn VehicleLogger>) -> (r: Vec<u8>)
        ensures
            r@ == compare_bytes(*self, *new, force),
    {
        let ghost pred = sent_pred(*self, *new, force);
        let mut buffer: Vec<u8> = Vec::new();
        let mut i: usize = 0;
        while i < TRACKED_FIELD_COUNT
            invariant
                i <= TRACKED_FIELD_COUNT,
                pred == sent_pred(*self, *new, force),
                buffer@ == encode_fields(*new, canonical_fields().take(i as int).filter(pred)),
            decreases TRACKED_FIELD_COUNT - i,
        {
            let f = TrackedField::at(i);
            proof {
                lemma_prefix_step(*self, *new, force, i as int);
            }
            if f.is_wide() {
                self.handle_u32_field_change(
                    self.wide_value(f),
                    new.wide_value(f),
                    f.name(),
                    f.command_kind(),
                    logger,
                    force,
                    &mut buffer,
                );
            } else {
                self.handle_u8_field_change(
                    self.small_value(f),
                    new.small_value(f),
                    f.name(),
                    f.command_kind(),
                    logger,
                    force,
                    &mut buffer,
                );
            }
            i += 1;
        }
        proof {
            assert(canonical_fields().take(TRACKED_FIELD_COUNT as int) =~= canonical_fields());
            lemma_encode_fields_empty(*new, fields_to_send(*self, *new, force));
        }
        // the line feed ends a non-empty batch only
        if buffer.len() > 0 {
            let mut b = build_komsi_command_eol();
            buffer.append(&mut b);
        }
        buffer
    }

    /// Sends a field that holds a byte, if it changed or `force` is set:
    /// logs the change and appends its command to `buffer`.
    fn handle_u8_field_change(
        &self,
        old_value: u8,
        new_value: u8,
        field_name: &str,
        command_kind: KomsiCommandKind,
        logger: Option<&dyn VehicleLogger>,
        force: bool,
        buffer: &mut Vec<u8>,
    )
        ensures
            final(buffer)@ == old(buffer)@ + (if old_value != new_value || force {
                command_bytes(command_kind, new_value as nat)
            } else {
                Seq::empty()
            }),
    {
        if (old_value != new_value) || force {
            if let Some(l) = logger {
                l.log(describe_change(field_name, old_value as u32, new_value as u32, false));
            }
            let mut b = build_komsi_command_u8(command_kind, new_value);
            buffer.append(&mut b);
        } else {
            assert(buffer@ =~= buffer@ + Seq::<u8>::empty());
        }
    }

    /// Sends a field that holds a 32-bit value, if it changed or `force` is
    /// set: logs the change and appends its command to `buffer`.
    fn handle_u32_field_change(
        &self,
        old_value: u32,
        new_value: u32,
        field_name: &str,
        command_kind: KomsiCommandKind,
        logger: Option<&dyn VehicleLogger>,
        force: bool,
        buffer: &mut Vec<u8>,
    )
        ensures
            final(buffer)@ == old(buffer)@ + (if old_value != new_value || force {
                command_bytes(command_kind, new_value as nat)
            } else {
                Seq::empty()
            }),
    {
        if (old_value != new_value) || force {
            if let Some(l) = logger {
                l.log(describe_change(field_name, old_value, new_value, true));
            }
            let mut b = build_komsi_command(command_kind, new_value);
            buffer.append(&mut b);
        } else {
            assert(buffer@ =~= buffer@ + Seq::<u8>::empty());
        }
    }
}

/// Filtering the first `i + 1` tracked fields adds field `i` to the filtered
/// first `i` exactly when that field is sent, and its command to their encoding.
proof fn lemma_prefix_step(before: VehicleState, after: VehicleState, force: bool, i: int)
    requires
        0 <= i < TRACKED_FIELD_COUNT,
    ensures
        ({
            let p = sent_pred(before, after, force);
            let c = canonical_fields();
            let f = field_at(i);
            &&& c.take(i + 1).filter(p) == (if p(f) {
                c.take(i).filter(p).push(f)
            } else {
                c.take(i).filter(p)
            })
            &&& encode_fields(after, c.take(i + 1).filter(p)) == encode_fields(after, c.take(i).filter(p))
                + (if p(f) {
                command_bytes(kind_of(f), field_value(after, f))
            } else {
                Seq::empty()
            })
        }),
{
    let p = sent_pred(before, after, force);
    let c = canonical_fields();
    let f = field_at(i);
    reveal(Seq::filter);
    assert(c.take(i + 1).drop_last() =~= c.take(i));
    assert(c.take(i + 1).last() == f);
    let prev = c.take(i).filter(p);
    if p(f) {
        assert(prev.push(f).drop_last() =~= prev);
    } else {
        assert(encode_fields(after, prev) =~= encode_fields(after, prev) + Seq::<u8>::empty());
    }
}

/// The commands for a list of fields are empty exactly when the list is.
proof fn lemma_encode_fields_empty(state: VehicleState, fs: Seq<TrackedField>)
    ensures
        (encode_fields(state, fs).len() == 0) <==> (fs.len() == 0),
    decreases fs.len(),
{
    if fs.len() > 0 {
        lemma_encode_fields_empty(state, fs.drop_last());
    }
}

/// Every tracked field has its place in the canonical order.
proof fn lemma_field_positions(f: TrackedField, i: int)
    ensures
        0 <= field_index(f) < TRACKED_FIELD_COUNT,
        field_at(field_index(f)) == f,
        canonical_fields().contains(f),
        0 <= i < TRACKED_FIELD_COUNT ==> field_index(field_at(i)) == i,
{
    assert(canonical_fields()[field_index(f)] == f);
}

/// Filtering the first `n` tracked fields keeps them in canonical order.
proof fn lemma_prefix_ordered(before: VehicleState, after: VehicleState, force: bool, n: int)
    requires
        0 <= n <= TRACKED_FIELD_COUNT,
    ensures
        ({
            let fs = canonical_fields().take(n).filter(sent_pred(before, after, force));
            &&& forall|i: int| 0 <= i < fs.len() ==> 0 <= #[trigger] field_index(fs[i]) < n
            &&& forall|i: int, j: int|
                0 <= i < j < fs.len() ==> field_index(#[trigger] fs[i]) < field_index(#[trigger] fs[j])
        }),
    decreases n,
{
    let p = sent_pred(before, after, force);
    if n == 0 {
        reveal(Seq::filter);
        assert(canonical_fields().take(0).filter(p).len() == 0);
    } else {
        lemma_prefix_ordered(before, after, force, n - 1);
        lemma_prefix_step(before, after, force, n - 1);
        lemma_field_positions(field_at(n - 1), n - 1);
    }
}

/// A filter whose predicate holds of every field keeps the whole list.
proof fn lemma_filter_keeps_all(fs: Seq<TrackedField>, p: spec_fn(TrackedField) -> bool)
    requires
        forall|f: TrackedField| #[trigger] p(f),
    ensures
        fs.filter(p) == fs,
    decreases fs.len(),
{
    reveal(Seq::filter);
    if fs.len() > 0 {
        lemma_filter_keeps_all(fs.drop_last(), p);
        assert(fs.drop_last().push(fs.last()) =~= fs);
    }
}

/// Comparing a state with itself, without forcing, sends nothing: the result
/// is empty and nothing is logged.
pub proof fn lemma_no_change(s: VehicleState)
    ensures
        fields_to_send(s, s, false).len() == 0,
        compare_bytes(s, s, false) == Seq::<u8>::empty(),
        log_messages(s, s, false).len() == 0,
{
    let p = sent_pred(s, s, false);
    canonical_fields().filter_lemma(p);
    if fields_to_send(s, s, false).len() > 0 {
        assert(p(fields_to_send(s, s, false)[0]));
    }
}

/// Forcing sends every tracked field, in canonical order, each with its
/// current value, and ends the commands with a line feed.
pub proof fn lemma_force_complete(s: VehicleState)
    ensures
        fields_to_send(s, s, true) == canonical_fields(),
        fields_to_send(s, s, true).len() == TRACKED_FIELD_COUNT,
        compare_bytes(s, s, true) == encode_fields(s, canonical_fields()).push(EOL_BYTE),
        compare_bytes(s, s, true).len() > 0,
        compare_bytes(s, s, true).last() == EOL_BYTE,
{
    let p = sent_pred(s, s, true);
    assert forall|f: TrackedField| #[trigger] p(f) by {}
    lemma_filter_keeps_all(canonical_fields(), p);
}

/// Without forcing, the fields sent are exactly those whose values differ,
/// each once and in canonical order; the result is their commands with the
/// values of `after`, followed by a line feed, or empty when none differ.
pub proof fn lemma_minimal(before: VehicleState, after: VehicleState)
    ensures
        ({
            let fs = fields_to_send(before, after, false);
            &&& forall|f: TrackedField|
                #[trigger] fs.contains(f) <==> field_value(before, f) != field_value(after, f)
            &&& forall|i: int, j: int|
                0 <= i < j < fs.len() ==> field_index(#[trigger] fs[i]) < field_index(#[trigger] fs[j])
            &&& compare_bytes(before, after, false) == (if fs.len() == 0 {
                Seq::<u8>::empty()
            } else {
                encode_fields(after, fs).push(EOL_BYTE)
            })
        }),
{
    let p = sent_pred(before, after, false);
    let c = canonical_fields();
    let fs = fields_to_send(before, after, false);
    c.filter_lemma(p);
    lemma_prefix_ordered(before, after, false, TRACKED_FIELD_COUNT as int);
    assert(c.take(TRACKED_FIELD_COUNT as int) =~= c);
    assert forall|f: TrackedField| #[trigger] fs.contains(f) <==> field_value(before, f) != field_value(after, f) by {
        lemma_field_positions(f, 0);
        if fs.contains(f) {
            let k = choose|k: int| 0 <= k < fs.len() && fs[k] == f;
            assert(p(fs[k]));
        }
        if field_value(before, f) != field_value(after, f) {
            assert(c[field_index(f)] == f);
            assert(p(c[field_index(f)]));
        }
    }
}

/// A logger is handed one line per field sent, in the same order, and each
/// line names the field and gives its value before and after.
pub proof fn lemma_logger_fidelity(before: VehicleState, after: VehicleState, force: bool)
    ensures
        ({
            let fs = fields_to_send(before, after, force);
            let ms = log_messages(before, after, force);
            &&& ms.len() == fs.len()
            &&& forall|i: int| 0 <= i < ms.len() ==> #[trigger] ms[i] == change_message(
                name_of(fs[i]),
                field_value(before, fs[i]),
                field_value(after, fs[i]),
                is_wide_field(fs[i]),
            )
            &&& !force ==> forall|f: TrackedField|
                #[trigger] fs.contains(f) <==> field_value(before, f) != field_value(after, f)
        }),
{
    lemma_minimal(before, after);
}

} // verus!
