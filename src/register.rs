//! Register addresses of the device and the bit layout of the registers
//! whose flags the driver sets one at a time.
use vstd::prelude::*;

verus! {

/// Register addresses.
pub struct Register;

impl Register {
    pub const ENABLE: u8 = 0x80;
    pub const ATIME: u8 = 0x81;
    pub const WTIME: u8 = 0x83;
    pub const AILTL: u8 = 0x84;
    pub const AIHTL: u8 = 0x86;
    pub const PILT: u8 = 0x89;
    pub const PIHT: u8 = 0x8B;
    pub const PERS: u8 = 0x8C;
    pub const CONFIG1: u8 = 0x8D;
    pub const PPULSE: u8 = 0x8E;
    pub const CONTROL: u8 = 0x8F;
    pub const CONFIG2: u8 = 0x90;
    pub const ID: u8 = 0x92;
    pub const STATUS: u8 = 0x93;
    pub const PDATA: u8 = 0x9C;
    pub const POFFSET_UR: u8 = 0x9D;
    pub const POFFSET_DL: u8 = 0x9E;
    pub const CONFIG3: u8 = 0x9F;
    pub const GPENTH: u8 = 0xA0;
    pub const GEXTH: u8 = 0xA1;
    pub const GCONF1: u8 = 0xA2;
    pub const GCONF2: u8 = 0xA3;
    pub const GOFFSET_U: u8 = 0xA4;
    pub const GOFFSET_D: u8 = 0xA5;
    pub const GPULSE: u8 = 0xA6;
    pub const GOFFSET_L: u8 = 0xA7;
    pub const GOFFSET_R: u8 = 0xA9;
    pub const GCONF3: u8 = 0xAA;
    pub const GCONF4: u8 = 0xAB;
    pub const GFLVL: u8 = 0xAE;
    pub const GSTATUS: u8 = 0xAF;
    pub const IFORCE: u8 = 0xE4;
    pub const PICLEAR: u8 = 0xE5;
    pub const CICLEAR: u8 = 0xE6;
    pub const AICLEAR: u8 = 0xE7;
    pub const GFIFO_U: u8 = 0xFC;
}

/// `bits` with the bits of `mask` set (`on`) or cleared (`!on`).
pub open spec fn flag_applied(bits: u8, mask: u8, on: bool) -> u8 {
    if on {
        bits | mask
    } else {
        bits & !mask
    }
}

/// Whether the bits of `mask` in `bits` are set (`on`) or all clear (`!on`).
pub open spec fn flag_reads(bits: u8, mask: u8, on: bool) -> bool {
    ((bits & mask) != 0) == on
}

/// The new value of a register after setting or clearing the bits of `mask`.
pub fn with_flag(bits: u8, mask: u8, on: bool) -> (r: u8)
    ensures
        r == flag_applied(bits, mask, on),
{
    if on {
        bits | mask
    } else {
        bits & !mask
    }
}

/// Tests the bits of `mask` in `bits` against `on`.
pub fn flag_is(bits: u8, mask: u8, on: bool) -> (r: bool)
    ensures
        r == flag_reads(bits, mask, on),
{
    ((bits & mask) != 0) == on
}

/// ENABLE: power and engine enable flags.
#[derive(Debug, Clone, Copy, PartialEq, Eq)]
pub struct Enable(pub u8);

impl Enable {
    pub const ALL: u8 = 0b1111_1111;
    pub const PON: u8 = 0b0000_0001;
    pub const AEN: u8 = 0b0000_0010;
    pub const PEN: u8 = 0b0000_0100;
    pub const WEN: u8 = 0b0000_1000;
    pub const AIEN: u8 = 0b0001_0000;
    pub const PIEN: u8 = 0b0010_0000;
    pub const GEN: u8 = 0b0100_0000;
}

/// CONFIG1: long wait.
#[derive(Debug, Clone, Copy, PartialEq, Eq)]
pub struct Config1(pub u8);

impl Config1 {
    pub const WLONG: u8 = 0b0000_0010;
    pub const POWER_ON: u8 = 0x40;
}

/// CONFIG2: saturation interrupts and LED boost.
#[derive(Debug, Clone, Copy, PartialEq, Eq)]
pub struct Config2(pub u8);

impl Config2 {
    pub const PSIEN: u8 = 0b1000_0000;
    pub const CPSIEN: u8 = 0b0100_0000;
    pub const POWER_ON: u8 = 0x01;
}

/// CONFIG3: proximity gain compensation and photodiode mask.
#[derive(Debug, Clone, Copy, PartialEq, Eq)]
pub struct Config3(pub u8);

impl Config3 {
    pub const PCMP: u8 = 0b0010_0000;
    pub const PMASK_R: u8 = 0b0000_0001;
    pub const PMASK_L: u8 = 0b0000_0010;
    pub const PMASK_D: u8 = 0b0000_0100;
    pub const PMASK_U: u8 = 0b0000_1000;
}

/// CONTROL: LED drive, proximity gain and light gain.
#[derive(Debug, Clone, Copy, PartialEq, Eq)]
pub struct Control(pub u8);

impl Control {
    pub const LED_DRIVE_SHIFT: u8 = 6;
    pub const LED_DRIVE_MASK: u8 = 0b1100_0000;
    pub const PGAIN_SHIFT: u8 = 2;
    pub const PGAIN_MASK: u8 = 0b0000_1100;
    pub const AGAIN_SHIFT: u8 = 0;
    pub const AGAIN_MASK: u8 = 0b0000_0011;
}

/// PERS: interrupt persistence filters.
#[derive(Debug, Clone, Copy, PartialEq, Eq)]
pub struct Pers(pub u8);

impl Pers {
    pub const APERS_MASK: u8 = 0b0000_1111;
    pub const PPERS_SHIFT: u8 = 4;
    pub const PPERS_MASK: u8 = 0b1111_0000;
}

/// GCONF1: gesture FIFO threshold and exit settings.
#[derive(Debug, Clone, Copy, PartialEq, Eq)]
pub struct GConfig1(pub u8);

impl GConfig1 {
    pub const GFIFOTH1: u8 = 0b1000_0000;
    pub const GFIFOTH0: u8 = 0b0100_0000;
}

/// STATUS: light and proximity data valid flags.
#[derive(Debug, Clone, Copy, PartialEq, Eq)]
pub struct Status(pub u8);

impl Status {
    pub const AVALID: u8 = 0b0000_0001;
    pub const PVALID: u8 = 0b0000_0010;
}

/// GCONF4: gesture mode, interrupts and FIFO clear.
#[derive(Debug, Clone, Copy, PartialEq, Eq)]
pub struct GConfig4(pub u8);

impl GConfig4 {
    pub const GMODE: u8 = 0b0000_0001;
    pub const GIEN: u8 = 0b0000_0010;
    pub const GFIFO_CLR: u8 = 0b0000_0100;
}

/// GSTATUS: gesture data valid and FIFO overflow flags.
#[derive(Debug, Clone, Copy, PartialEq, Eq)]
pub struct GStatus(pub u8);

impl GStatus {
    pub const GVALID: u8 = 0b0000_0001;
    pub const GFOV: u8 = 0b0000_0010;
}

} // verus!
