//! Register settings of the BMI088 accelerometer and their byte encodings.

use vstd::prelude::*;
use vstd::arithmetic::power2::{lemma2_to64, pow2};

verus! {

/// Full-scale measurement range of the accelerometer.
#[derive(Clone, Copy, Debug, PartialEq, Eq, Structural)]
pub enum AccRange {
    Range3G,
    Range6G,
    Range12G,
    Range24G,
}

impl AccRange {
    /// The register encoding of this setting.
    pub open spec fn code(self) -> u8 {
        match self {
            AccRange::Range3G => 0x00,
            AccRange::Range6G => 0x01,
            AccRange::Range12G => 0x02,
            AccRange::Range24G => 0x03,
        }
    }
}

/// The register encoding of a `AccRange` setting.
impl From<AccRange> for u8 {
    fn from(value: AccRange) -> (r: u8)
        ensures
            r == value.code(),
    {
        match value {
            AccRange::Range3G => 0x00,
            AccRange::Range6G => 0x01,
            AccRange::Range12G => 0x02,
            AccRange::Range24G => 0x03,
        }
    }
}

impl vstd::std_specs::convert::FromSpecImpl<AccRange> for u8 {
    open spec fn obeys_from_spec() -> bool {
        true
    }

    open spec fn from_spec(v: AccRange) -> u8 {
        v.code()
    }
}

impl AccRange {
    /// The full-scale range in multiples of Earth's gravity.
    pub open spec fn spec_full_scale_g(self) -> u8 {
        match self {
            AccRange::Range3G => 3,
            AccRange::Range6G => 6,
            AccRange::Range12G => 12,
            AccRange::Range24G => 24,
        }
    }

    /// Returns the full-scale range in multiples of Earth's gravity.
    pub fn full_scale_g(self) -> (r: u8)
        ensures
            r == self.spec_full_scale_g(),
    {
        match self {
            AccRange::Range3G => 3,
            AccRange::Range6G => 6,
            AccRange::Range12G => 12,
            AccRange::Range24G => 24,
        }
    }
}

/// Each register code doubles the full-scale range, starting at 3 g for
/// code 0: the range is `3 * 2^code` g, so Range3G, Range6G, Range12G and
/// Range24G read as 3, 6, 12 and 24 g.
pub proof fn lemma_full_scale_doubles_with_code(range: AccRange)
    ensures
        range.code() <= 3,
        range.spec_full_scale_g() == 3 * pow2(range.code() as nat),
{
    lemma2_to64();
}

/// The full-scale range grows strictly with the register code, so no two
/// settings share a range.
pub proof fn lemma_full_scale_orders_as_code(a: AccRange, b: AccRange)
    ensures
        a.code() < b.code() ==> a.spec_full_scale_g() < b.spec_full_scale_g(),
        a.spec_full_scale_g() == b.spec_full_scale_g() <==> a == b,
{
}

impl Default for AccRange {
    fn default() -> (r: Self)
        ensures
            r == AccRange::Range6G,
    {
        AccRange::Range6G
    }
}

/// Accelerometer output data rate.
#[derive(Clone, Copy, Debug, PartialEq, Eq, Structural)]
pub enum AccOdr {
    /// 12.5 Hz
    Hz12_5,
    /// 25 Hz
    Hz25,
    /// 50 Hz
    Hz50,
    /// 100 Hz
    Hz100,
    /// 200 Hz
    Hz200,
    /// 400 Hz
    Hz400,
    /// 800 Hz
    Hz800,
    /// 1600 Hz
    Hz1600,
}

impl AccOdr {
    /// The register encoding of this setting.
    pub open spec fn code(self) -> u8 {
        match self {
            AccOdr::Hz12_5 => 0x05,
            AccOdr::Hz25 => 0x06,
            AccOdr::Hz50 => 0x07,
            AccOdr::Hz100 => 0x08,
            AccOdr::Hz200 => 0x09,
            AccOdr::Hz400 => 0x0a,
            AccOdr::Hz800 => 0x0b,
            AccOdr::Hz1600 => 0x0c,
        }
    }
}

/// The register encoding of a `AccOdr` setting.
impl From<AccOdr> for u8 {
    fn from(value: AccOdr) -> (r: u8)
        ensures
            r == value.code(),
    {
        match value {
            AccOdr::Hz12_5 => 0x05,
            AccOdr::Hz25 => 0x06,
            AccOdr::Hz50 => 0x07,
            AccOdr::Hz100 => 0x08,
            AccOdr::Hz200 => 0x09,
            AccOdr::Hz400 => 0x0a,
            AccOdr::Hz800 => 0x0b,
            AccOdr::Hz1600 => 0x0c,
        }
    }
}

impl vstd::std_specs::convert::FromSpecImpl<AccOdr> for u8 {
    open spec fn obeys_from_spec() -> bool {
        true
    }

    open spec fn from_spec(v: AccOdr) -> u8 {
        v.code()
    }
}

impl Default for AccOdr {
    fn default() -> (r: Self)
        ensures
            r == AccOdr::Hz100,
    {
        AccOdr::Hz100
    }
}

/// Oversample rate for the accelerometer (regarding the low-pass filter).
#[derive(Clone, Copy, Debug, PartialEq, Eq, Structural)]
pub enum AccOsr {
    /// Normal (average 4) mode.
    Normal,
    /// 2-fold oversampling.
    Osr2,
    /// 4-fold oversampling.
    Osr4,
}

impl AccOsr {
    /// The register encoding of this setting.
    pub open spec fn code(self) -> u8 {
        match self {
            AccOsr::Normal => 0x02,
            AccOsr::Osr2 => 0x01,
            AccOsr::Osr4 => 0x00,
        }
    }
}

/// The register encoding of a `AccOsr` setting.
impl From<AccOsr> for u8 {
    fn from(value: AccOsr) -> (r: u8)
        ensures
            r == value.code(),
    {
        match value {
            AccOsr::Normal => 0x02,
            AccOsr::Osr2 => 0x01,
            AccOsr::Osr4 => 0x00,
        }
    }
}

impl vstd::std_specs::convert::FromSpecImpl<AccOsr> for u8 {
    open spec fn obeys_from_spec() -> bool {
        true
    }

    open spec fn from_spec(v: AccOsr) -> u8 {
        v.code()
    }
}

impl Default for AccOsr {
    fn default() -> (r: Self)
        ensures
            r == AccOsr::Normal,
    {
        AccOsr::Normal
    }
}

/// One field of the ACC_CONF register.
#[derive(Clone, Copy, Debug, PartialEq, Eq, Structural)]
pub enum AccConf {
    /// Output data rate.
    Odr(AccOdr),
    /// Oversampling rate.
    Osr(AccOsr),
}

impl AccConf {
    /// The register encoding of this field: the data rate occupies the low
    /// nibble, the oversampling rate the bits above it.
    pub open spec fn code(self) -> u8 {
        match self {
            AccConf::Odr(odr) => odr.code(),
            AccConf::Osr(osr) => (osr.code() * 16) as u8,
        }
    }
}

/// The register encoding of an `AccConf` field.
impl From<AccConf> for u8 {
    fn from(value: AccConf) -> (r: u8)
        ensures
            r == value.code(),
    {
        match value {
            AccConf::Odr(odr) => u8::from(odr),
            AccConf::Osr(osr) => u8::from(osr) * 16,
        }
    }
}

impl vstd::std_specs::convert::FromSpecImpl<AccConf> for u8 {
    open spec fn obeys_from_spec() -> bool {
        true
    }

    open spec fn from_spec(v: AccConf) -> u8 {
        v.code()
    }
}

/// Combines two `AccConf` settings into one register value.
impl core::ops::BitOr<AccConf> for AccConf {
    type Output = u8;

    fn bitor(self, rhs: AccConf) -> (r: u8)
        ensures
            r == self.code() | rhs.code(),
    {
        u8::from(self) | u8::from(rhs)
    }
}

impl vstd::std_specs::ops::BitOrSpecImpl<AccConf> for AccConf {
    open spec fn obeys_bitor_spec() -> bool {
        true
    }

    open spec fn bitor_req(self, rhs: AccConf) -> bool {
        true
    }

    open spec fn bitor_spec(self, rhs: AccConf) -> u8 {
        self.code() | rhs.code()
    }
}

/// Adds the `AccConf` setting to a register value.
impl core::ops::BitOr<u8> for AccConf {
    type Output = u8;

    fn bitor(self, rhs: u8) -> (r: u8)
        ensures
            r == self.code() | rhs,
    {
        u8::from(self) | rhs
    }
}

impl vstd::std_specs::ops::BitOrSpecImpl<u8> for AccConf {
    open spec fn obeys_bitor_spec() -> bool {
        true
    }

    open spec fn bitor_req(self, rhs: u8) -> bool {
        true
    }

    open spec fn bitor_spec(self, rhs: u8) -> u8 {
        self.code() | rhs
    }
}

/// Adds the `AccConf` setting to a register value.
impl core::ops::BitOr<AccConf> for u8 {
    type Output = u8;

    fn bitor(self, rhs: AccConf) -> (r: u8)
        ensures
            r == self | rhs.code(),
    {
        self | u8::from(rhs)
    }
}

impl vstd::std_specs::ops::BitOrSpecImpl<AccConf> for u8 {
    open spec fn obeys_bitor_spec() -> bool {
        true
    }

    open spec fn bitor_req(self, rhs: AccConf) -> bool {
        true
    }

    open spec fn bitor_spec(self, rhs: AccConf) -> u8 {
        self | rhs.code()
    }
}

/// Configuration bits of the INT1/INT2 pins.
#[derive(Clone, Copy, Debug, PartialEq, Eq, Structural)]
pub enum AccIntConf {
    EnableInput,
    EnableOutput,
    PushPull,
    OpenDrain,
    ActiveLow,
    ActiveHigh,
}

impl AccIntConf {
    /// The register encoding of this setting.
    pub open spec fn code(self) -> u8 {
        match self {
            AccIntConf::EnableInput => 0x10,
            AccIntConf::EnableOutput => 0x08,
            AccIntConf::PushPull => 0x00,
            AccIntConf::OpenDrain => 0x04,
            AccIntConf::ActiveLow => 0x00,
            AccIntConf::ActiveHigh => 0x02,
        }
    }
}

/// The register encoding of a `AccIntConf` setting.
impl From<AccIntConf> for u8 {
    fn from(value: AccIntConf) -> (r: u8)
        ensures
            r == value.code(),
    {
        match value {
            AccIntConf::EnableInput => 0x10,
            AccIntConf::EnableOutput => 0x08,
            AccIntConf::PushPull => 0x00,
            AccIntConf::OpenDrain => 0x04,
            AccIntConf::ActiveLow => 0x00,
            AccIntConf::ActiveHigh => 0x02,
        }
    }
}

impl vstd::std_specs::convert::FromSpecImpl<AccIntConf> for u8 {
    open spec fn obeys_from_spec() -> bool {
        true
    }

    open spec fn from_spec(v: AccIntConf) -> u8 {
        v.code()
    }
}

/// The complement of the `AccIntConf` setting's bits.
impl core::ops::Not for AccIntConf {
    type Output = u8;

    fn not(self) -> (r: u8)
        ensures
            r == !self.code(),
    {
        !u8::from(self)
    }
}

impl vstd::std_specs::ops::NotSpecImpl for AccIntConf {
    open spec fn obeys_not_spec() -> bool {
        true
    }

    open spec fn not_req(self) -> bool {
        true
    }

    open spec fn not_spec(self) -> u8 {
        !self.code()
    }
}

/// Intersects the bits of two `AccIntConf` settings.
impl core::ops::BitAnd<AccIntConf> for AccIntConf {
    type Output = u8;

    fn bitand(self, rhs: AccIntConf) -> (r: u8)
        ensures
            r == self.code() & rhs.code(),
    {
        u8::from(self) & u8::from(rhs)
    }
}

impl vstd::std_specs::ops::BitAndSpecImpl<AccIntConf> for AccIntConf {
    open spec fn obeys_bitand_spec() -> bool {
        true
    }

    open spec fn bitand_req(self, rhs: AccIntConf) -> bool {
        true
    }

    open spec fn bitand_spec(self, rhs: AccIntConf) -> u8 {
        self.code() & rhs.code()
    }
}

/// Masks the `AccIntConf` setting with a register value.
impl core::ops::BitAnd<u8> for AccIntConf {
    type Output = u8;

    fn bitand(self, rhs: u8) -> (r: u8)
        ensures
            r == self.code() & rhs,
    {
        u8::from(self) & rhs
    }
}

impl vstd::std_specs::ops::BitAndSpecImpl<u8> for AccIntConf {
    open spec fn obeys_bitand_spec() -> bool {
        true
    }

    open spec fn bitand_req(self, rhs: u8) -> bool {
        true
    }

    open spec fn bitand_spec(self, rhs: u8) -> u8 {
        self.code() & rhs
    }
}

/// Masks a register value with the `AccIntConf` setting.
impl core::ops::BitAnd<AccIntConf> for u8 {
    type Output = u8;

    fn bitand(self, rhs: AccIntConf) -> (r: u8)
        ensures
            r == self & rhs.code(),
    {
        self & u8::from(rhs)
    }
}

impl vstd::std_specs::ops::BitAndSpecImpl<AccIntConf> for u8 {
    open spec fn obeys_bitand_spec() -> bool {
        true
    }

    open spec fn bitand_req(self, rhs: AccIntConf) -> bool {
        true
    }

    open spec fn bitand_spec(self, rhs: AccIntConf) -> u8 {
        self & rhs.code()
    }
}

/// Combines two `AccIntConf` settings into one register value.
impl core::ops::BitOr<AccIntConf> for AccIntConf {
    type Output = u8;

    fn bitor(self, rhs: AccIntConf) -> (r: u8)
        ensures
            r == self.code() | rhs.code(),
    {
        u8::from(self) | u8::from(rhs)
    }
}

impl vstd::std_specs::ops::BitOrSpecImpl<AccIntConf> for AccIntConf {
    open spec fn obeys_bitor_spec() -> bool {
        true
    }

    open spec fn bitor_req(self, rhs: AccIntConf) -> bool {
        true
    }

    open spec fn bitor_spec(self, rhs: AccIntConf) -> u8 {
        self.code() | rhs.code()
    }
}

/// Adds the `AccIntConf` setting to a register value.
impl core::ops::BitOr<u8> for AccIntConf {
    type Output = u8;

    fn bitor(self, rhs: u8) -> (r: u8)
        ensures
            r == self.code() | rhs,
    {
        u8::from(self) | rhs
    }
}

impl vstd::std_specs::ops::BitOrSpecImpl<u8> for AccIntConf {
    open spec fn obeys_bitor_spec() -> bool {
        true
    }

    open spec fn bitor_req(self, rhs: u8) -> bool {
        true
    }

    open spec fn bitor_spec(self, rhs: u8) -> u8 {
        self.code() | rhs
    }
}

/// Adds the `AccIntConf` setting to a register value.
impl core::ops::BitOr<AccIntConf> for u8 {
    type Output = u8;

    fn bitor(self, rhs: AccIntConf) -> (r: u8)
        ensures
            r == self | rhs.code(),
    {
        self | u8::from(rhs)
    }
}

impl vstd::std_specs::ops::BitOrSpecImpl<AccIntConf> for u8 {
    open spec fn obeys_bitor_spec() -> bool {
        true
    }

    open spec fn bitor_req(self, rhs: AccIntConf) -> bool {
        true
    }

    open spec fn bitor_spec(self, rhs: AccIntConf) -> u8 {
        self | rhs.code()
    }
}

/// Mapping of the accelerometer interrupts onto the pins.
#[derive(Clone, Copy, Debug, PartialEq, Eq, Structural)]
pub enum AccIntMap {
    /// Map data ready interrupt to INT1
    Int1Drdy,
    /// Map data ready interrupt to INT2
    Int2Drdy,
}

impl AccIntMap {
    /// The register encoding of this setting.
    pub open spec fn code(self) -> u8 {
        match self {
            AccIntMap::Int1Drdy => 0x04,
            AccIntMap::Int2Drdy => 0x40,
        }
    }
}

/// The register encoding of a `AccIntMap` setting.
impl From<AccIntMap> for u8 {
    fn from(value: AccIntMap) -> (r: u8)
        ensures
            r == value.code(),
    {
        match value {
            AccIntMap::Int1Drdy => 0x04,
            AccIntMap::Int2Drdy => 0x40,
        }
    }
}

impl vstd::std_specs::convert::FromSpecImpl<AccIntMap> for u8 {
    open spec fn obeys_from_spec() -> bool {
        true
    }

    open spec fn from_spec(v: AccIntMap) -> u8 {
        v.code()
    }
}

/// The complement of the `AccIntMap` setting's bits.
impl core::ops::Not for AccIntMap {
    type Output = u8;

    fn not(self) -> (r: u8)
        ensures
            r == !self.code(),
    {
        !u8::from(self)
    }
}

impl vstd::std_specs::ops::NotSpecImpl for AccIntMap {
    open spec fn obeys_not_spec() -> bool {
        true
    }

    open spec fn not_req(self) -> bool {
        true
    }

    open spec fn not_spec(self) -> u8 {
        !self.code()
    }
}

/// Intersects the bits of two `AccIntMap` settings.
impl core::ops::BitAnd<AccIntMap> for AccIntMap {
    type Output = u8;

    fn bitand(self, rhs: AccIntMap) -> (r: u8)
        ensures
            r == self.code() & rhs.code(),
    {
        u8::from(self) & u8::from(rhs)
    }
}

impl vstd::std_specs::ops::BitAndSpecImpl<AccIntMap> for AccIntMap {
    open spec fn obeys_bitand_spec() -> bool {
        true
    }

    open spec fn bitand_req(self, rhs: AccIntMap) -> bool {
        true
    }

    open spec fn bitand_spec(self, rhs: AccIntMap) -> u8 {
        self.code() & rhs.code()
    }
}

/// Masks the `AccIntMap` setting with a register value.
impl core::ops::BitAnd<u8> for AccIntMap {
    type Output = u8;

    fn bitand(self, rhs: u8) -> (r: u8)
        ensures
            r == self.code() & rhs,
    {
        u8::from(self) & rhs
    }
}

impl vstd::std_specs::ops::BitAndSpecImpl<u8> for AccIntMap {
    open spec fn obeys_bitand_spec() -> bool {
        true
    }

    open spec fn bitand_req(self, rhs: u8) -> bool {
        true
    }

    open spec fn bitand_spec(self, rhs: u8) -> u8 {
        self.code() & rhs
    }
}

/// Masks a register value with the `AccIntMap` setting.
impl core::ops::BitAnd<AccIntMap> for u8 {
    type Output = u8;

    fn bitand(self, rhs: AccIntMap) -> (r: u8)
        ensures
            r == self & rhs.code(),
    {
        self & u8::from(rhs)
    }
}

impl vstd::std_specs::ops::BitAndSpecImpl<AccIntMap> for u8 {
    open spec fn obeys_bitand_spec() -> bool {
        true
    }

    open spec fn bitand_req(self, rhs: AccIntMap) -> bool {
        true
    }

    open spec fn bitand_spec(self, rhs: AccIntMap) -> u8 {
        self & rhs.code()
    }
}

/// Combines two `AccIntMap` settings into one register value.
impl core::ops::BitOr<AccIntMap> for AccIntMap {
    type Output = u8;

    fn bitor(self, rhs: AccIntMap) -> (r: u8)
        ensures
            r == self.code() | rhs.code(),
    {
        u8::from(self) | u8::from(rhs)
    }
}

impl vstd::std_specs::ops::BitOrSpecImpl<AccIntMap> for AccIntMap {
    open spec fn obeys_bitor_spec() -> bool {
        true
    }

    open spec fn bitor_req(self, rhs: AccIntMap) -> bool {
        true
    }

    open spec fn bitor_spec(self, rhs: AccIntMap) -> u8 {
        self.code() | rhs.code()
    }
}

/// Adds the `AccIntMap` setting to a register value.
impl core::ops::BitOr<u8> for AccIntMap {
    type Output = u8;

    fn bitor(self, rhs: u8) -> (r: u8)
        ensures
            r == self.code() | rhs,
    {
        u8::from(self) | rhs
    }
}

impl vstd::std_specs::ops::BitOrSpecImpl<u8> for AccIntMap {
    open spec fn obeys_bitor_spec() -> bool {
        true
    }

    open spec fn bitor_req(self, rhs: u8) -> bool {
        true
    }

    open spec fn bitor_spec(self, rhs: u8) -> u8 {
        self.code() | rhs
    }
}

/// Adds the `AccIntMap` setting to a register value.
impl core::ops::BitOr<AccIntMap> for u8 {
    type Output = u8;

    fn bitor(self, rhs: AccIntMap) -> (r: u8)
        ensures
            r == self | rhs.code(),
    {
        self | u8::from(rhs)
    }
}

impl vstd::std_specs::ops::BitOrSpecImpl<AccIntMap> for u8 {
    open spec fn obeys_bitor_spec() -> bool {
        true
    }

    open spec fn bitor_req(self, rhs: AccIntMap) -> bool {
        true
    }

    open spec fn bitor_spec(self, rhs: AccIntMap) -> u8 {
        self | rhs.code()
    }
}

/// Self-test polarity of the accelerometer.
#[derive(Clone, Copy, Debug, PartialEq, Eq, Structural)]
pub enum AccSelfTest {
    Disabled,
    Positive,
    Negative,
}

impl AccSelfTest {
    /// The register encoding of this setting.
    pub open spec fn code(self) -> u8 {
        match self {
            AccSelfTest::Disabled => 0x00,
            AccSelfTest::Positive => 0x0D,
            AccSelfTest::Negative => 0x09,
        }
    }
}

/// The register encoding of a `AccSelfTest` setting.
impl From<AccSelfTest> for u8 {
    fn from(value: AccSelfTest) -> (r: u8)
        ensures
            r == value.code(),
    {
        match value {
            AccSelfTest::Disabled => 0x00,
            AccSelfTest::Positive => 0x0D,
            AccSelfTest::Negative => 0x09,
        }
    }
}

impl vstd::std_specs::convert::FromSpecImpl<AccSelfTest> for u8 {
    open spec fn obeys_from_spec() -> bool {
        true
    }

    open spec fn from_spec(v: AccSelfTest) -> u8 {
        v.code()
    }
}

/// Setting the data rate and the oversampling rate together loses neither:
/// the combined ACC_CONF value holds the data rate in its low nibble and the
/// oversampling rate in the bits above, in whichever order they are combined.
pub proof fn lemma_acc_conf_fields_disjoint(odr: AccOdr, osr: AccOsr)
    ensures
        AccConf::Odr(odr).code() | AccConf::Osr(osr).code() == AccConf::Osr(osr).code()
            | AccConf::Odr(odr).code(),
        (AccConf::Odr(odr).code() | AccConf::Osr(osr).code()) & 0x0f == odr.code(),
        (AccConf::Odr(odr).code() | AccConf::Osr(osr).code()) >> 4u8 == osr.code(),
{
    let o = odr.code();
    let s = osr.code();
    let c = AccConf::Osr(osr).code();
    assert(c == (s * 16) as u8);
    assert((o | c) == (c | o) && (o | c) & 0x0f == o && (o | c) >> 4u8 == s) by (bit_vector)
        requires
            5 <= o <= 12,
            s <= 2,
            c == (s * 16) as u8,
    ;
}

} // verus!
