//! Tests on the bits of the internal indications of a response and of the
//! quality flags of a point.

use vstd::prelude::*;
use crate::points::{Flags, IIN1, IIN2};

verus! {

/// Whether `value` and `mask` share a bit.
pub open spec fn bit_set(value: u8, mask: u8) -> bool {
    value & mask != 0
}

/// Whether every bit of `mask` is a bit of `value`.
pub open spec fn bits_set(value: u8, mask: u8) -> bool {
    value & mask == mask
}

/// The indications of the first byte.
#[derive(Clone, Copy, Debug, PartialEq, Eq, Structural)]
pub enum IIN1Flag {
    Broadcast,
    Class1Events,
    Class2Events,
    Class3Events,
    NeedTime,
    LocalControl,
    DeviceTrouble,
    DeviceRestart,
}

impl IIN1Flag {
    /// The bit of the indication.
    pub open spec fn mask(self) -> u8 {
        match self {
            IIN1Flag::Broadcast => 0x01,
            IIN1Flag::Class1Events => 0x02,
            IIN1Flag::Class2Events => 0x04,
            IIN1Flag::Class3Events => 0x08,
            IIN1Flag::NeedTime => 0x10,
            IIN1Flag::LocalControl => 0x20,
            IIN1Flag::DeviceTrouble => 0x40,
            IIN1Flag::DeviceRestart => 0x80,
        }
    }
}

/// The indications of the second byte.
#[derive(Clone, Copy, Debug, PartialEq, Eq, Structural)]
pub enum IIN2Flag {
    NoFuncCodeSupport,
    ObjectUnknown,
    ParameterError,
    EventBufferOverflow,
    AlreadyExecuting,
    ConfigCorrupt,
}

impl IIN2Flag {
    /// The bit of the indication.
    pub open spec fn mask(self) -> u8 {
        match self {
            IIN2Flag::NoFuncCodeSupport => 0x01,
            IIN2Flag::ObjectUnknown => 0x02,
            IIN2Flag::ParameterError => 0x04,
            IIN2Flag::EventBufferOverflow => 0x08,
            IIN2Flag::AlreadyExecuting => 0x10,
            IIN2Flag::ConfigCorrupt => 0x20,
        }
    }
}

/// The quality flags of a point. Which of them a point can have depends on
/// its kind, so some share a bit.
#[derive(Clone, Copy, Debug, PartialEq, Eq, Structural)]
pub enum Flag {
    Online,
    Restart,
    CommLost,
    RemoteForced,
    LocalForced,
    ChatterFilter,
    Rollover,
    Discontinuity,
    OverRange,
    ReferenceErr,
}

impl Flag {
    /// The bit of the flag.
    pub open spec fn spec_mask(self) -> u8 {
        match self {
            Flag::Online => 0x01,
            Flag::Restart => 0x02,
            Flag::CommLost => 0x04,
            Flag::RemoteForced => 0x08,
            Flag::LocalForced => 0x10,
            Flag::ChatterFilter => 0x20,
            Flag::Rollover => 0x20,
            Flag::Discontinuity => 0x40,
            Flag::OverRange => 0x20,
            Flag::ReferenceErr => 0x40,
        }
    }

    /// The bit of the flag.
    #[verifier::when_used_as_spec(spec_mask)]
    pub fn mask(self) -> (m: u8)
        ensures
            m == self.spec_mask(),
    {
        match self {
            Flag::Online => 0x01,
            Flag::Restart => 0x02,
            Flag::CommLost => 0x04,
            Flag::RemoteForced => 0x08,
            Flag::LocalForced => 0x10,
            Flag::ChatterFilter => 0x20,
            Flag::Rollover => 0x20,
            Flag::Discontinuity => 0x40,
            Flag::OverRange => 0x20,
            Flag::ReferenceErr => 0x40,
        }
    }
}

/// Calls `dnp3::app::Iin1::get_broadcast` on the byte: whether bit 0x01 of it is set.
#[verifier::external_body]
fn iin1_broadcast(value: u8) -> (r: bool)
    ensures
        r == bit_set(value, 0x01),
{
    dnp3::app::Iin1::new(value).get_broadcast()
}

/// Calls `dnp3::app::Iin1::get_class_1_events` on the byte: whether bit 0x02 of it is set.
#[verifier::external_body]
fn iin1_class_1_events(value: u8) -> (r: bool)
    ensures
        r == bit_set(value, 0x02),
{
    dnp3::app::Iin1::new(value).get_class_1_events()
}

/// Calls `dnp3::app::Iin1::get_class_2_events` on the byte: whether bit 0x04 of it is set.
#[verifier::external_body]
fn iin1_class_2_events(value: u8) -> (r: bool)
    ensures
        r == bit_set(value, 0x04),
{
    dnp3::app::Iin1::new(value).get_class_2_events()
}

/// Calls `dnp3::app::Iin1::get_class_3_events` on the byte: whether bit 0x08 of it is set.
#[verifier::external_body]
fn iin1_class_3_events(value: u8) -> (r: bool)
    ensures
        r == bit_set(value, 0x08),
{
    dnp3::app::Iin1::new(value).get_class_3_events()
}

/// Calls `dnp3::app::Iin1::get_need_time` on the byte: whether bit 0x10 of it is set.
#[verifier::external_body]
fn iin1_need_time(value: u8) -> (r: bool)
    ensures
        r == bit_set(value, 0x10),
{
    dnp3::app::Iin1::new(value).get_need_time()
}

/// Calls `dnp3::app::Iin1::get_local_control` on the byte: whether bit 0x20 of it is set.
#[verifier::external_body]
fn iin1_local_control(value: u8) -> (r: bool)
    ensures
        r == bit_set(value, 0x20),
{
    dnp3::app::Iin1::new(value).get_local_control()
}

/// Calls `dnp3::app::Iin1::get_device_trouble` on the byte: whether bit 0x40 of it is set.
#[verifier::external_body]
fn iin1_device_trouble(value: u8) -> (r: bool)
    ensures
        r == bit_set(value, 0x40),
{
    dnp3::app::Iin1::new(value).get_device_trouble()
}

/// Calls `dnp3::app::Iin1::get_device_restart` on the byte: whether bit 0x80 of it is set.
#[verifier::external_body]
fn iin1_device_restart(value: u8) -> (r: bool)
    ensures
        r == bit_set(value, 0x80),
{
    dnp3::app::Iin1::new(value).get_device_restart()
}

/// Calls `dnp3::app::Iin2::get_no_func_code_support` on the byte: whether bit 0x01 of it is set.
#[verifier::external_body]
fn iin2_no_func_code_support(value: u8) -> (r: bool)
    ensures
        r == bit_set(value, 0x01),
{
    dnp3::app::Iin2::new(value).get_no_func_code_support()
}

/// Calls `dnp3::app::Iin2::get_object_unknown` on the byte: whether bit 0x02 of it is set.
#[verifier::external_body]
fn iin2_object_unknown(value: u8) -> (r: bool)
    ensures
        r == bit_set(value, 0x02),
{
    dnp3::app::Iin2::new(value).get_object_unknown()
}

/// Calls `dnp3::app::Iin2::get_parameter_error` on the byte: whether bit 0x04 of it is set.
#[verifier::external_body]
fn iin2_parameter_error(value: u8) -> (r: bool)
    ensures
        r == bit_set(value, 0x04),
{
    dnp3::app::Iin2::new(value).get_parameter_error()
}

/// Calls `dnp3::app::Iin2::get_event_buffer_overflow` on the byte: whether bit 0x08 of it is set.
#[verifier::external_body]
fn iin2_event_buffer_overflow(value: u8) -> (r: bool)
    ensures
        r == bit_set(value, 0x08),
{
    dnp3::app::Iin2::new(value).get_event_buffer_overflow()
}

/// Calls `dnp3::app::Iin2::get_already_executing` on the byte: whether bit 0x10 of it is set.
#[verifier::external_body]
fn iin2_already_executing(value: u8) -> (r: bool)
    ensures
        r == bit_set(value, 0x10),
{
    dnp3::app::Iin2::new(value).get_already_executing()
}

/// Calls `dnp3::app::Iin2::get_config_corrupt` on the byte: whether bit 0x20 of it is set.
#[verifier::external_body]
fn iin2_config_corrupt(value: u8) -> (r: bool)
    ensures
        r == bit_set(value, 0x20),
{
    dnp3::app::Iin2::new(value).get_config_corrupt()
}

/// Calls `dnp3::app::measurement::Flags::is_set` on the flags with the value
/// `value` and the flags with the value `mask`: whether every bit of `mask`
/// is set in `value`.
#[verifier::external_body]
fn flags_contain(value: u8, mask: u8) -> (r: bool)
    ensures
        r == bits_set(value, mask),
{
    dnp3::app::measurement::Flags::new(value).is_set(dnp3::app::measurement::Flags::new(mask))
}

/// Whether an indication of the first byte is set. Of no byte, none is.
pub fn iin1_is_set(iin1: Option<&IIN1>, flag: IIN1Flag) -> (r: bool)
    ensures
        r == match iin1 {
            Some(x) => bit_set(x.value, flag.mask()),
            None => false,
        },
{
    if let Some(iin1) = iin1 {
        match flag {
            IIN1Flag::Broadcast => iin1_broadcast(iin1.value),
            IIN1Flag::Class1Events => iin1_class_1_events(iin1.value),
            IIN1Flag::Class2Events => iin1_class_2_events(iin1.value),
            IIN1Flag::Class3Events => iin1_class_3_events(iin1.value),
            IIN1Flag::NeedTime => iin1_need_time(iin1.value),
            IIN1Flag::LocalControl => iin1_local_control(iin1.value),
            IIN1Flag::DeviceTrouble => iin1_device_trouble(iin1.value),
            IIN1Flag::DeviceRestart => iin1_device_restart(iin1.value),
        }
    } else {
        false
    }
}

/// Whether an indication of the second byte is set. Of no byte, none is.
pub fn iin2_is_set(iin2: Option<&IIN2>, flag: IIN2Flag) -> (r: bool)
    ensures
        r == match iin2 {
            Some(x) => bit_set(x.value, flag.mask()),
            None => false,
        },
{
    if let Some(iin2) = iin2 {
        match flag {
            IIN2Flag::NoFuncCodeSupport => iin2_no_func_code_support(iin2.value),
            IIN2Flag::ObjectUnknown => iin2_object_unknown(iin2.value),
            IIN2Flag::ParameterError => iin2_parameter_error(iin2.value),
            IIN2Flag::EventBufferOverflow => iin2_event_buffer_overflow(iin2.value),
            IIN2Flag::AlreadyExecuting => iin2_already_executing(iin2.value),
            IIN2Flag::ConfigCorrupt => iin2_config_corrupt(iin2.value),
        }
    } else {
        false
    }
}

/// Whether a quality flag is set. Of no flags, none is.
pub fn flags_is_set(flags: Option<&Flags>, flag: Flag) -> (r: bool)
    ensures
        r == match flags {
            Some(x) => bit_set(x.value, flag.spec_mask()),
            None => false,
        },
{
    if let Some(flags) = flags {
        let mask = flag.mask();
        let value = flags.value;
        assert((value & mask == mask) == (value & mask != 0)) by (bit_vector)
            requires
                mask == 0x01 || mask == 0x02 || mask == 0x04 || mask == 0x08 || mask == 0x10
                    || mask == 0x20 || mask == 0x40,
        ;
        flags_contain(value, mask)
    } else {
        false
    }
}

} // verus!
