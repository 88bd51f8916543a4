//! Settings of the BMP390 PWR_CTRL register (datasheet section 4.3.17).

use vstd::prelude::*;

verus! {

/// Mode of operation.
#[derive(Clone, Copy, Debug, PartialEq, Eq, Structural)]
pub enum PowerCtrlMode {
    Sleep,
    Forced,
    Normal,
}

impl PowerCtrlMode {
    /// The encoding of the mode in bits 4 and 5 of PWR_CTRL.
    pub open spec fn code(self) -> u8 {
        match self {
            PowerCtrlMode::Sleep => 0x00,
            PowerCtrlMode::Forced => 0x10,
            PowerCtrlMode::Normal => 0x30,
        }
    }
}

/// One field of the PWR_CTRL register.
#[derive(Clone, Copy, Debug, PartialEq, Eq, Structural)]
pub enum PowerCtrl {
    PressureEnable,
    TemperatureEnable,
    Mode(PowerCtrlMode),
}

impl PowerCtrl {
    /// The register encoding of this field.
    pub open spec fn code(self) -> u8 {
        match self {
            PowerCtrl::PressureEnable => 0x01,
            PowerCtrl::TemperatureEnable => 0x02,
            PowerCtrl::Mode(m) => m.code(),
        }
    }
}

/// The register encoding of a `PowerCtrl` field.
impl From<PowerCtrl> for u8 {
    fn from(value: PowerCtrl) -> (r: u8)
        ensures
            r == value.code(),
    {
        match value {
            PowerCtrl::PressureEnable => 0x01,
            PowerCtrl::TemperatureEnable => 0x02,
            PowerCtrl::Mode(m) => match m {
                PowerCtrlMode::Sleep => 0x00,
                PowerCtrlMode::Forced => 0x10,
                PowerCtrlMode::Normal => 0x30,
            },
        }
    }
}

impl vstd::std_specs::convert::FromSpecImpl<PowerCtrl> for u8 {
    open spec fn obeys_from_spec() -> bool {
        true
    }

    open spec fn from_spec(v: PowerCtrl) -> u8 {
        v.code()
    }
}

/// Combines two `PowerCtrl` settings into one PWR_CTRL value.
impl core::ops::BitOr<PowerCtrl> for PowerCtrl {
    type Output = u8;

    fn bitor(self, rhs: PowerCtrl) -> (r: u8)
        ensures
            r == self.code() | rhs.code(),
    {
        u8::from(self) | u8::from(rhs)
    }
}

impl vstd::std_specs::ops::BitOrSpecImpl<PowerCtrl> for PowerCtrl {
    open spec fn obeys_bitor_spec() -> bool {
        true
    }

    open spec fn bitor_req(self, rhs: PowerCtrl) -> bool {
        true
    }

    open spec fn bitor_spec(self, rhs: PowerCtrl) -> u8 {
        self.code() | rhs.code()
    }
}

/// Adds the `PowerCtrl` setting to a PWR_CTRL value.
impl core::ops::BitOr<PowerCtrl> for u8 {
    type Output = u8;

    fn bitor(self, rhs: PowerCtrl) -> (r: u8)
        ensures
            r == self | rhs.code(),
    {
        self | u8::from(rhs)
    }
}

impl vstd::std_specs::ops::BitOrSpecImpl<PowerCtrl> for u8 {
    open spec fn obeys_bitor_spec() -> bool {
        true
    }

    open spec fn bitor_req(self, rhs: PowerCtrl) -> bool {
        true
    }

    open spec fn bitor_spec(self, rhs: PowerCtrl) -> u8 {
        self | rhs.code()
    }
}

/// Intersects the bits of two `PowerCtrl` settings.
impl core::ops::BitAnd<PowerCtrl> for PowerCtrl {
    type Output = u8;

    fn bitand(self, rhs: PowerCtrl) -> (r: u8)
        ensures
            r == self.code() & rhs.code(),
    {
        u8::from(self) & u8::from(rhs)
    }
}

impl vstd::std_specs::ops::BitAndSpecImpl<PowerCtrl> for PowerCtrl {
    open spec fn obeys_bitand_spec() -> bool {
        true
    }

    open spec fn bitand_req(self, rhs: PowerCtrl) -> bool {
        true
    }

    open spec fn bitand_spec(self, rhs: PowerCtrl) -> u8 {
        self.code() & rhs.code()
    }
}

/// Masks a PWR_CTRL value with the `PowerCtrl` setting.
impl core::ops::BitAnd<PowerCtrl> for u8 {
    type Output = u8;

    fn bitand(self, rhs: PowerCtrl) -> (r: u8)
        ensures
            r == self & rhs.code(),
    {
        self & u8::from(rhs)
    }
}

impl vstd::std_specs::ops::BitAndSpecImpl<PowerCtrl> for u8 {
    open spec fn obeys_bitand_spec() -> bool {
        true
    }

    open spec fn bitand_req(self, rhs: PowerCtrl) -> bool {
        true
    }

    open spec fn bitand_spec(self, rhs: PowerCtrl) -> u8 {
        self & rhs.code()
    }
}

/// The complement of the `PowerCtrl` setting's bits.
impl core::ops::Not for PowerCtrl {
    type Output = u8;

    fn not(self) -> (r: u8)
        ensures
            r == !self.code(),
    {
        !u8::from(self)
    }
}

impl vstd::std_specs::ops::NotSpecImpl for PowerCtrl {
    open spec fn obeys_not_spec() -> bool {
        true
    }

    open spec fn not_req(self) -> bool {
        true
    }

    open spec fn not_spec(self) -> u8 {
        !self.code()
    }
}

/// Enabling both measurements and choosing a mode loses none of the three:
/// the enables sit in bits 0 and 1 and the mode in bits 4 and 5 of the value.
pub proof fn lemma_power_ctrl_fields_disjoint(mode: PowerCtrlMode)
    ensures
        ({
            let v = PowerCtrl::PressureEnable.code() | PowerCtrl::TemperatureEnable.code()
                | PowerCtrl::Mode(mode).code();
            &&& v & 0x01 == 0x01
            &&& v & 0x02 == 0x02
            &&& v & 0x30 == mode.code()
            &&& v & 0xcc == 0
        }),
{
    let m = mode.code();
    assert(m == 0x00 || m == 0x10 || m == 0x30);
    assert(((0x01u8 | 0x02u8 | m) & 0x01 == 0x01) && ((0x01u8 | 0x02u8 | m) & 0x02 == 0x02) && ((
    0x01u8 | 0x02u8 | m) & 0x30 == m) && ((0x01u8 | 0x02u8 | m) & 0xcc == 0)) by (bit_vector)
        requires
            m == 0x00 || m == 0x10 || m == 0x30,
    ;
}

} // verus!
