//! The controller's commands and the bytes that go with them.
use vstd::prelude::*;

verus! {

/// A command of the panel's controller.
#[derive(Clone, Copy, PartialEq, Eq, Debug, Structural)]
pub enum ThreeColorEpdCommand {
    DeepSleepMode,
    DataEntryMode,
    Reset,
    MasterActivation,
    DisplayUpdateControl1,
    WriteBlackWhiteRAM,
    WriteChromaticRAM,
    SetXAddressRange,
    SetYAddressRange,
    SetXAddressCounter,
    SetYAddressCounter,
}

impl ThreeColorEpdCommand {
    /// The byte that stands for the command on the wire.
    pub open spec fn spec_opcode(self) -> u8 {
        match self {
            ThreeColorEpdCommand::DeepSleepMode => 0x10,
            ThreeColorEpdCommand::DataEntryMode => 0x11,
            ThreeColorEpdCommand::Reset => 0x12,
            ThreeColorEpdCommand::MasterActivation => 0x20,
            ThreeColorEpdCommand::DisplayUpdateControl1 => 0x21,
            ThreeColorEpdCommand::WriteBlackWhiteRAM => 0x24,
            ThreeColorEpdCommand::WriteChromaticRAM => 0x26,
            ThreeColorEpdCommand::SetXAddressRange => 0x44,
            ThreeColorEpdCommand::SetYAddressRange => 0x45,
            ThreeColorEpdCommand::SetXAddressCounter => 0x4e,
            ThreeColorEpdCommand::SetYAddressCounter => 0x4f,
        }
    }

    /// The byte that stands for the command on the wire.
    #[verifier::when_used_as_spec(spec_opcode)]
    pub fn opcode(self) -> (byte: u8)
        ensures
            byte == self.spec_opcode(),
    {
        match self {
            ThreeColorEpdCommand::DeepSleepMode => 0x10,
            ThreeColorEpdCommand::DataEntryMode => 0x11,
            ThreeColorEpdCommand::Reset => 0x12,
            ThreeColorEpdCommand::MasterActivation => 0x20,
            ThreeColorEpdCommand::DisplayUpdateControl1 => 0x21,
            ThreeColorEpdCommand::WriteBlackWhiteRAM => 0x24,
            ThreeColorEpdCommand::WriteChromaticRAM => 0x26,
            ThreeColorEpdCommand::SetXAddressRange => 0x44,
            ThreeColorEpdCommand::SetYAddressRange => 0x45,
            ThreeColorEpdCommand::SetXAddressCounter => 0x4e,
            ThreeColorEpdCommand::SetYAddressCounter => 0x4f,
        }
    }
}

/// In which direction the address counters move after each byte of data.
#[derive(Clone, Copy, PartialEq, Eq, Debug, Structural)]
pub enum DataEntrySign {
    DecYDecX,
    DecYIncX,
    IncYDecX,
    IncYIncX,
}

impl DataEntrySign {
    /// The two sign bits: bit 1 is set where Y grows, bit 0 where X grows.
    pub open spec fn spec_bits(self) -> u8 {
        match self {
            DataEntrySign::DecYDecX => 0b00,
            DataEntrySign::DecYIncX => 0b01,
            DataEntrySign::IncYDecX => 0b10,
            DataEntrySign::IncYIncX => 0b11,
        }
    }

    /// The bits as they stand in the byte of data.
    #[verifier::when_used_as_spec(spec_bits)]
    pub fn bits(self) -> (byte: u8)
        ensures
            byte == self.spec_bits(),
    {
        match self {
            DataEntrySign::DecYDecX => 0b00,
            DataEntrySign::DecYIncX => 0b01,
            DataEntrySign::IncYDecX => 0b10,
            DataEntrySign::IncYIncX => 0b11,
        }
    }
}

/// Which address counter moves first: X for data that come row by row, Y for data that come
/// column by column.
#[derive(Clone, Copy, PartialEq, Eq, Debug, Structural)]
pub enum DataEntryRow {
    XMinor,
    YMinor,
}

impl DataEntryRow {
    /// The selection bit, bit 2: set where Y moves first.
    pub open spec fn spec_bits(self) -> u8 {
        match self {
            DataEntryRow::XMinor => 0b000,
            DataEntryRow::YMinor => 0b100,
        }
    }

    /// The bits as they stand in the byte of data.
    #[verifier::when_used_as_spec(spec_bits)]
    pub fn bits(self) -> (byte: u8)
        ensures
            byte == self.spec_bits(),
    {
        match self {
            DataEntryRow::XMinor => 0b000,
            DataEntryRow::YMinor => 0b100,
        }
    }
}

/// How the controller reads one of its two memories when it updates the panel.
#[derive(Clone, Copy, PartialEq, Eq, Debug, Structural)]
pub enum WriteMode {
    Normal,
    ForceZero,
    Invert,
}

impl WriteMode {
    /// The mode as a nibble.
    pub open spec fn spec_bits(self) -> u8 {
        match self {
            WriteMode::Normal => 0b0000,
            WriteMode::ForceZero => 0b0100,
            WriteMode::Invert => 0b1000,
        }
    }

    /// The bits as they stand in the byte of data.
    #[verifier::when_used_as_spec(spec_bits)]
    pub fn bits(self) -> (byte: u8)
        ensures
            byte == self.spec_bits(),
    {
        match self {
            WriteMode::Normal => 0b0000,
            WriteMode::ForceZero => 0b0100,
            WriteMode::Invert => 0b1000,
        }
    }
}

/// Which source lines the controller drives: all of them, or all but the eight at each border.
#[derive(Clone, Copy, PartialEq, Eq, Debug, Structural)]
pub enum OutputSource {
    S0ToS175,
    S8ToS167,
}

impl OutputSource {
    /// The choice as a byte: its highest bit is set where the border lines are left out.
    pub open spec fn spec_bits(self) -> u8 {
        match self {
            OutputSource::S0ToS175 => 0x00,
            OutputSource::S8ToS167 => 0x80,
        }
    }

    /// The bits as they stand in the byte of data.
    #[verifier::when_used_as_spec(spec_bits)]
    pub fn bits(self) -> (byte: u8)
        ensures
            byte == self.spec_bits(),
    {
        match self {
            OutputSource::S0ToS175 => 0x00,
            OutputSource::S8ToS167 => 0x80,
        }
    }
}

/// The controller's power state as the deep sleep command names it.
#[derive(Clone, Copy, PartialEq, Eq, Debug, Structural)]
pub enum DeepSleep {
    Awake,
    SleepKeepingRAM,
    SleepLosingRAM,
}

impl DeepSleep {
    /// The state as two bits: bit 0 is set for sleep, bit 1 where the memories are lost.
    pub open spec fn spec_bits(self) -> u8 {
        match self {
            DeepSleep::Awake => 0b00,
            DeepSleep::SleepKeepingRAM => 0b01,
            DeepSleep::SleepLosingRAM => 0b11,
        }
    }

    /// The bits as they stand in the byte of data.
    #[verifier::when_used_as_spec(spec_bits)]
    pub fn bits(self) -> (byte: u8)
        ensures
            byte == self.spec_bits(),
    {
        match self {
            DeepSleep::Awake => 0b00,
            DeepSleep::SleepKeepingRAM => 0b01,
            DeepSleep::SleepLosingRAM => 0b11,
        }
    }
}

/// The low byte of a number.
pub open spec fn low_byte(value: int) -> u8 {
    (value % 256) as u8
}

/// The second byte of a number.
pub open spec fn high_byte(value: int) -> u8 {
    (value / 256 % 256) as u8
}

/// The number of the eight-pixel column that holds column `x`, as a byte.
pub open spec fn column_byte(x: int) -> u8 {
    (x / 8 % 256) as u8
}

/// The data of the data entry mode command: one byte that holds the selection bit and the
/// two sign bits.
pub open spec fn data_entry_mode_of(row: DataEntryRow, sign: DataEntrySign) -> Seq<u8> {
    seq![row.bits() | sign.bits()]
}

/// The data of the display update command: the chromatic memory's mode in the high nibble
/// and the black/white memory's mode in the low nibble, then the choice of source lines.
pub open spec fn display_update_of(
    bw_mode: WriteMode,
    red_mode: WriteMode,
    output_source: OutputSource,
) -> Seq<u8> {
    seq![(red_mode.bits() << 4u8) | bw_mode.bits(), output_source.bits()]
}

/// The data of the X address range command: the eight-pixel columns of the first and of the
/// last column.
pub open spec fn x_address_range_of(x_start: int, x_end: int) -> Seq<u8> {
    seq![column_byte(x_start), column_byte(x_end)]
}

/// The data of the Y address range command: the first and the last row, each low byte first.
pub open spec fn y_address_range_of(y_start: int, y_end: int) -> Seq<u8> {
    seq![low_byte(y_start), high_byte(y_start), low_byte(y_end), high_byte(y_end)]
}

/// The data of the Y address counter command: the row, low byte first.
pub open spec fn y_address_counter_of(y: int) -> Seq<u8> {
    seq![low_byte(y), high_byte(y)]
}

/// The data of the data entry mode command.
pub fn data_entry_mode(row: DataEntryRow, sign: DataEntrySign) -> (data: [u8; 1])
    ensures
        data@ == data_entry_mode_of(row, sign),
{
    let data: [u8; 1] = [row.bits() | sign.bits()];
    assert(data@ =~= data_entry_mode_of(row, sign));
    data
}

/// The data of the display update command.
pub fn display_update(bw_mode: WriteMode, red_mode: WriteMode, output_source: OutputSource) -> (data:
    [u8; 2])
    ensures
        data@ == display_update_of(bw_mode, red_mode, output_source),
{
    let data: [u8; 2] = [(red_mode.bits() << 4u8) | bw_mode.bits(), output_source.bits()];
    assert(data@ =~= display_update_of(bw_mode, red_mode, output_source));
    data
}

/// The data of the X address range command. Columns past 2047 wrap round: the controller
/// takes one byte for each end.
pub fn x_address_range(x_start: usize, x_end: usize) -> (data: [u8; 2])
    ensures
        data@ == x_address_range_of(x_start as int, x_end as int),
{
    let first: u8 = #[verifier::truncate]
    ((x_start >> 3) as u8);
    let last: u8 = #[verifier::truncate]
    ((x_end >> 3) as u8);
    assert(first == (x_start / 8 % 256) as u8) by (bit_vector)
        requires
            first == (x_start >> 3) as u8,
    ;
    assert(last == (x_end / 8 % 256) as u8) by (bit_vector)
        requires
            last == (x_end >> 3) as u8,
    ;
    let data: [u8; 2] = [first, last];
    assert(data@ =~= x_address_range_of(x_start as int, x_end as int));
    data
}

/// The data of the Y address range command. Rows past 65535 wrap round: the controller takes
/// two bytes for each end.
pub fn y_address_range(y_start: usize, y_end: usize) -> (data: [u8; 4])
    ensures
        data@ == y_address_range_of(y_start as int, y_end as int),
{
    let first_low: u8 = #[verifier::truncate]
    ((y_start & 0xff) as u8);
    let first_high: u8 = #[verifier::truncate]
    ((y_start >> 8) as u8);
    let last_low: u8 = #[verifier::truncate]
    ((y_end & 0xff) as u8);
    let last_high: u8 = #[verifier::truncate]
    ((y_end >> 8) as u8);
    assert(first_low == (y_start % 256) as u8) by (bit_vector)
        requires
            first_low == (y_start & 0xff) as u8,
    ;
    assert(first_high == (y_start / 256 % 256) as u8) by (bit_vector)
        requires
            first_high == (y_start >> 8) as u8,
    ;
    assert(last_low == (y_end % 256) as u8) by (bit_vector)
        requires
            last_low == (y_end & 0xff) as u8,
    ;
    assert(last_high == (y_end / 256 % 256) as u8) by (bit_vector)
        requires
            last_high == (y_end >> 8) as u8,
    ;
    let data: [u8; 4] = [first_low, first_high, last_low, last_high];
    assert(data@ =~= y_address_range_of(y_start as int, y_end as int));
    data
}

/// The data of the Y address counter command.
pub fn y_address_counter(y: u16) -> (data: [u8; 2])
    ensures
        data@ == y_address_counter_of(y as int),
{
    let low: u8 = #[verifier::truncate]
    ((y & 0xff) as u8);
    let high: u8 = (y >> 8) as u8;
    assert(low == (y % 256) as u8) by (bit_vector)
        requires
            low == (y & 0xff) as u8,
    ;
    assert(high == (y / 256 % 256) as u8) by (bit_vector)
        requires
            high == (y >> 8) as u8,
    ;
    let data: [u8; 2] = [low, high];
    assert(data@ =~= y_address_counter_of(y as int));
    data
}

} // verus!
