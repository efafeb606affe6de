use vstd::prelude::*;

verus! {

/// The commands of the KOMSI protocol, each identified by one byte (see `code`).
#[derive(Debug, Clone, Copy, PartialEq, Eq, Structural)]
pub enum KomsiCommandKind {
    /// End of command line ("\n")
    EOL,
    /// Ignition status
    Ignition,
    /// Engine status
    Engine,
    /// Passenger doors open status
    PassengerDoorsOpen,
    /// Indicator status
    Indicator,
    /// Fixing brake / Parking brake status
    FixingBrake,
    /// Warning lights status
    LightsWarning,
    /// Main lights status
    LightsMain,
    /// Front door lights status
    LightsFrontDoor,
    /// Second door lights status
    LightsSecondDoor,
    /// Third door lights status
    LightsThirdDoor,
    /// Stop request lights status
    LightsStopRequest,
    /// Stop brake lights status
    LightsStopBrake,
    /// High beam lights status
    LightsHighBeam,
    /// Battery charging light status
    BatteryLight,
    /// Type of simulator
    SimulatorType,
    /// Door enable status
    DoorEnable,
    /// Custom / Reserved command A17
    A17,
    /// Custom / Reserved command A18
    A18,
    /// Custom / Reserved command A19
    A19,
    /// Custom / Reserved command A20
    A20,
    /// Custom / Reserved command A21
    A21,
    /// Custom / Reserved command A22
    A22,
    /// Custom / Reserved command A23
    A23,
    /// Custom / Reserved command A24
    A24,
    /// Custom / Reserved command A25
    A25,
    /// Custom / Reserved command A26
    A26,
    /// Maximum speed value
    MaxSpeed,
    /// Engine RPM value
    RPM,
    /// Air pressure value
    Pressure,
    /// Temperature value
    Temperature,
    /// Oil level/pressure value
    Oil,
    /// Fuel level value
    Fuel,
    /// Current speed value
    Speed,
    /// Water temperature value
    Water,
}

/// The byte sent on the wire for a command kind.
pub open spec fn code_of(kind: KomsiCommandKind) -> u8 {
    match kind {
        KomsiCommandKind::EOL => 10,
        KomsiCommandKind::Ignition => 65,
        KomsiCommandKind::Engine => 66,
        KomsiCommandKind::PassengerDoorsOpen => 67,
        KomsiCommandKind::Indicator => 68,
        KomsiCommandKind::FixingBrake => 69,
        KomsiCommandKind::LightsWarning => 70,
        KomsiCommandKind::LightsMain => 71,
        KomsiCommandKind::LightsFrontDoor => 72,
        KomsiCommandKind::LightsSecondDoor => 73,
        KomsiCommandKind::LightsThirdDoor => 74,
        KomsiCommandKind::LightsStopRequest => 75,
        KomsiCommandKind::LightsStopBrake => 76,
        KomsiCommandKind::LightsHighBeam => 77,
        KomsiCommandKind::BatteryLight => 78,
        KomsiCommandKind::SimulatorType => 79,
        KomsiCommandKind::DoorEnable => 80,
        KomsiCommandKind::A17 => 81,
        KomsiCommandKind::A18 => 82,
        KomsiCommandKind::A19 => 83,
        KomsiCommandKind::A20 => 84,
        KomsiCommandKind::A21 => 85,
        KomsiCommandKind::A22 => 86,
        KomsiCommandKind::A23 => 87,
        KomsiCommandKind::A24 => 88,
        KomsiCommandKind::A25 => 89,
        KomsiCommandKind::A26 => 90,
        KomsiCommandKind::MaxSpeed => 115,
        KomsiCommandKind::RPM => 116,
        KomsiCommandKind::Pressure => 117,
        KomsiCommandKind::Temperature => 118,
        KomsiCommandKind::Oil => 119,
        KomsiCommandKind::Fuel => 120,
        KomsiCommandKind::Speed => 121,
        KomsiCommandKind::Water => 122,
    }
}

/// The line feed that ends a batch of commands.
pub const EOL_BYTE: u8 = 10;

/// True of the bytes that carry a command's value: ASCII '0' to '9'.
pub open spec fn is_digit_byte(b: u8) -> bool {
    48 <= b <= 57
}

/// The decimal digits of `n` as ASCII bytes, most significant first, without
/// leading zeros (zero itself is the single digit '0').
pub open spec fn decimal_bytes(n: nat) -> Seq<u8>
    decreases n,
{
    if n < 10 {
        seq![(48 + n) as u8]
    } else {
        decimal_bytes(n / 10).push((48 + n % 10) as u8)
    }
}

/// The bytes of one command: its code followed by the decimal digits of `value`.
pub open spec fn command_bytes(kind: KomsiCommandKind, value: nat) -> Seq<u8> {
    seq![code_of(kind)] + decimal_bytes(value)
}

/// The decimal form of a number is never empty and holds digits only.
pub proof fn lemma_decimal_bytes_digits(n: nat)
    ensures
        decimal_bytes(n).len() >= 1,
        forall|i: int| 0 <= i < decimal_bytes(n).len() ==> is_digit_byte(#[trigger] decimal_bytes(n)[i]),
    decreases n,
{
    if n >= 10 {
        lemma_decimal_bytes_digits(n / 10);
    }
}

/// Every command code lies outside the digit range and, but for the line
/// feed itself, differs from the line feed: this is what lets a receiver
/// split a stream of commands without separators.
pub proof fn lemma_codes_frame(kind: KomsiCommandKind)
    ensures
        !is_digit_byte(code_of(kind)),
        (code_of(kind) == EOL_BYTE) <==> (kind == KomsiCommandKind::EOL),
        kind != KomsiCommandKind::EOL ==> (65 <= code_of(kind) <= 90 || 115 <= code_of(kind) <= 122),
{
}

/// A command whose value is zero is two bytes: its code and the digit '0'.
pub proof fn lemma_zero_value_command(kind: KomsiCommandKind)
    ensures
        command_bytes(kind, 0) == seq![code_of(kind), 48u8],
{
    assert(command_bytes(kind, 0) =~= seq![code_of(kind), 48u8]);
}

impl KomsiCommandKind {
    /// The byte that identifies this command on the wire.
    pub fn code(self) -> (r: u8)
        ensures
            r == code_of(self),
    {
        match self {
            KomsiCommandKind::EOL => 10,
            KomsiCommandKind::Ignition => 65,
            KomsiCommandKind::Engine => 66,
            KomsiCommandKind::PassengerDoorsOpen => 67,
            KomsiCommandKind::Indicator => 68,
            KomsiCommandKind::FixingBrake => 69,
            KomsiCommandKind::LightsWarning => 70,
            KomsiCommandKind::LightsMain => 71,
            KomsiCommandKind::LightsFrontDoor => 72,
            KomsiCommandKind::LightsSecondDoor => 73,
            KomsiCommandKind::LightsThirdDoor => 74,
            KomsiCommandKind::LightsStopRequest => 75,
            KomsiCommandKind::LightsStopBrake => 76,
            KomsiCommandKind::LightsHighBeam => 77,
            KomsiCommandKind::BatteryLight => 78,
            KomsiCommandKind::SimulatorType => 79,
            KomsiCommandKind::DoorEnable => 80,
            KomsiCommandKind::A17 => 81,
            KomsiCommandKind::A18 => 82,
            KomsiCommandKind::A19 => 83,
            KomsiCommandKind::A20 => 84,
            KomsiCommandKind::A21 => 85,
            KomsiCommandKind::A22 => 86,
            KomsiCommandKind::A23 => 87,
            KomsiCommandKind::A24 => 88,
            KomsiCommandKind::A25 => 89,
            KomsiCommandKind::A26 => 90,
            KomsiCommandKind::MaxSpeed => 115,
            KomsiCommandKind::RPM => 116,
            KomsiCommandKind::Pressure => 117,
            KomsiCommandKind::Temperature => 118,
            KomsiCommandKind::Oil => 119,
            KomsiCommandKind::Fuel => 120,
            KomsiCommandKind::Speed => 121,
            KomsiCommandKind::Water => 122,
        }
    }
}

/// Appends the decimal digits of `n` to `buffer`.
fn push_decimal(n: u32, buffer: &mut Vec<u8>)
    ensures
        final(buffer)@ == old(buffer)@ + decimal_bytes(n as nat),
    decreases n,
{
    if n >= 10 {
        push_decimal(n / 10, buffer);
    }
    let digit: u8 = (n % 10) as u8;
    buffer.push(48 + digit);
    assert(final(buffer)@ =~= old(buffer)@ + decimal_bytes(n as nat));
}

/// Builds a KOMSI command from a command kind and a u32 value: the command's
/// code followed by the value in decimal ASCII digits.
pub fn build_komsi_command(cmd: KomsiCommandKind, wert: u32) -> (r: Vec<u8>)
    ensures
        r@ == command_bytes(cmd, wert as nat),
{
    let mut buffer: Vec<u8> = vec![cmd.code()];
    push_decimal(wert, &mut buffer);
    assert(buffer@ =~= command_bytes(cmd, wert as nat));
    buffer
}

/// Builds a KOMSI command from a command kind and a u8 value: the command's
/// code followed by the value in decimal ASCII digits.
pub fn build_komsi_command_u8(cmd: KomsiCommandKind, wert: u8) -> (r: Vec<u8>)
    ensures
        r@ == command_bytes(cmd, wert as nat),
{
    let mut buffer: Vec<u8> = vec![cmd.code()];
    push_decimal(wert as u32, &mut buffer);
    assert(buffer@ =~= command_bytes(cmd, wert as nat));
    buffer
}

/// Builds the KOMSI end-of-line command: the single line-feed byte.
pub fn build_komsi_command_eol() -> (r: Vec<u8>)
    ensures
        r@ == seq![EOL_BYTE],
{
    let buffer: Vec<u8> = vec![KomsiCommandKind::EOL.code()];
    assert(buffer@ =~= seq![EOL_BYTE]);
    buffer
}

} // verus!
