//! The plain values that cross the native boundary of a DNP3 master: the
//! header of a response, and the points that a response reports.

use vstd::prelude::*;

verus! {

/// The control field of an application-layer header.
#[derive(Clone, Copy, Debug, PartialEq, Eq, Structural)]
pub struct Control {
    pub fir: bool,
    pub fin: bool,
    pub con: bool,
    pub uns: bool,
    pub seq: u8,
}

#[derive(Clone, Copy, Debug, PartialEq, Eq, Structural)]
pub enum ResponseFunction {
    Response,
    UnsolicitedResponse,
}

/// The first byte of the internal indications.
#[derive(Clone, Copy, Debug, PartialEq, Eq, Structural)]
pub struct IIN1 {
    pub value: u8,
}

/// The second byte of the internal indications.
#[derive(Clone, Copy, Debug, PartialEq, Eq, Structural)]
pub struct IIN2 {
    pub value: u8,
}

#[derive(Clone, Copy, Debug, PartialEq, Eq, Structural)]
pub struct IIN {
    pub iin1: IIN1,
    pub iin2: IIN2,
}

/// The header of a response.
#[derive(Clone, Copy, Debug, PartialEq, Eq, Structural)]
pub struct ResponseHeader {
    pub control: Control,
    pub func: ResponseFunction,
    pub iin: IIN,
}

impl ResponseHeader {
    /// A header from its parts: the control field, whether the response is
    /// unsolicited, and the two bytes of the internal indications.
    pub fn new(control: Control, unsolicited: bool, iin1: u8, iin2: u8) -> (h: ResponseHeader)
        ensures
            h.control == control,
            h.func == if unsolicited {
                ResponseFunction::UnsolicitedResponse
            } else {
                ResponseFunction::Response
            },
            h.iin.iin1.value == iin1,
            h.iin.iin2.value == iin2,
    {
        ResponseHeader {
            control,
            func: if unsolicited {
                ResponseFunction::UnsolicitedResponse
            } else {
                ResponseFunction::Response
            },
            iin: IIN { iin1: IIN1 { value: iin1 }, iin2: IIN2 { value: iin2 } },
        }
    }
}

#[derive(Clone, Copy, Debug, PartialEq, Eq, Structural)]
pub enum QualifierCode {
    Range8,
    Range16,
    AllObjects,
    Count8,
    Count16,
    CountAndPrefix8,
    CountAndPrefix16,
    FreeFormat16,
}

/// What a header of objects says of the objects that follow it.
#[derive(Clone, Copy, Debug, PartialEq, Eq, Structural)]
pub struct HeaderInfo {
    pub qualifier: QualifierCode,
    /// Whether the objects are events.
    pub is_event: bool,
    /// Whether the objects carry a byte of flags.
    pub has_flags: bool,
}

/// The quality flags of a point.
#[derive(Clone, Copy, Debug, PartialEq, Eq, Structural)]
pub struct Flags {
    pub value: u8,
}

impl Flags {
    pub fn from(value: u8) -> (f: Flags)
        ensures
            f.value == value,
    {
        Flags { value }
    }
}

/// The time of a point as the outstation reports it.
#[derive(Clone, Copy, Debug, PartialEq, Eq, Structural)]
pub enum Time {
    /// Milliseconds since the epoch, from a synchronized clock.
    Synchronized(u64),
    /// Milliseconds since the epoch, from a clock that may not be
    /// synchronized.
    NotSynchronized(u64),
    /// The point carries no time.
    Invalid,
}

#[derive(Clone, Copy, Debug, PartialEq, Eq, Structural)]
pub enum TimeQuality {
    Synchronized,
    NotSynchronized,
    Invalid,
}

/// A time as native code sees it: a count of milliseconds, and how far it
/// can be trusted.
#[derive(Clone, Copy, Debug, PartialEq, Eq, Structural)]
pub struct Timestamp {
    pub value: u64,
    pub quality: TimeQuality,
}

impl Timestamp {
    pub open spec fn spec_from(time: Time) -> Timestamp {
        match time {
            Time::Synchronized(value) => Timestamp { value, quality: TimeQuality::Synchronized },
            Time::NotSynchronized(value) => Timestamp {
                value,
                quality: TimeQuality::NotSynchronized,
            },
            Time::Invalid => Timestamp { value: 0, quality: TimeQuality::Invalid },
        }
    }

    /// The count and the quality of a time. A point without a time has the
    /// count zero.
    pub fn from(time: Time) -> (t: Timestamp)
        ensures
            t == Self::spec_from(time),
    {
        Timestamp {
            value: match time {
                Time::Synchronized(value) => value,
                Time::NotSynchronized(value) => value,
                Time::Invalid => 0,
            },
            quality: match time {
                Time::Synchronized(_) => TimeQuality::Synchronized,
                Time::NotSynchronized(_) => TimeQuality::NotSynchronized,
                Time::Invalid => TimeQuality::Invalid,
            },
        }
    }
}

#[derive(Clone, Copy, Debug, PartialEq, Eq, Structural)]
pub enum DoubleBit {
    Intermediate,
    DeterminedOff,
    DeterminedOn,
    Indeterminate,
}

#[derive(Clone, Copy, Debug, PartialEq, Eq, Structural)]
pub struct Binary {
    pub index: u16,
    pub value: bool,
    pub flags: Flags,
    pub time: Timestamp,
}

impl Binary {
    pub fn new(idx: u16, value: bool, flags: u8, time: Time) -> (p: Binary)
        ensures
            p == (Binary {
                index: idx,
                value,
                flags: Flags { value: flags },
                time: Timestamp::spec_from(time),
            }),
    {
        Binary { index: idx, value, flags: Flags::from(flags), time: Timestamp::from(time) }
    }
}

#[derive(Clone, Copy, Debug, PartialEq, Eq, Structural)]
pub struct DoubleBitBinary {
    pub index: u16,
    pub value: DoubleBit,
    pub flags: Flags,
    pub time: Timestamp,
}

impl DoubleBitBinary {
    pub fn new(idx: u16, value: DoubleBit, flags: u8, time: Time) -> (p: DoubleBitBinary)
        ensures
            p == (DoubleBitBinary {
                index: idx,
                value,
                flags: Flags { value: flags },
                time: Timestamp::spec_from(time),
            }),
    {
        DoubleBitBinary { index: idx, value, flags: Flags::from(flags), time: Timestamp::from(time) }
    }
}

#[derive(Clone, Copy, Debug, PartialEq, Eq, Structural)]
pub struct BinaryOutputStatus {
    pub index: u16,
    pub value: bool,
    pub flags: Flags,
    pub time: Timestamp,
}

impl BinaryOutputStatus {
    pub fn new(idx: u16, value: bool, flags: u8, time: Time) -> (p: BinaryOutputStatus)
        ensures
            p == (BinaryOutputStatus {
                index: idx,
                value,
                flags: Flags { value: flags },
                time: Timestamp::spec_from(time),
            }),
    {
        BinaryOutputStatus {
            index: idx,
            value,
            flags: Flags::from(flags),
            time: Timestamp::from(time),
        }
    }
}

#[derive(Clone, Copy, Debug, PartialEq, Eq, Structural)]
pub struct Counter {
    pub index: u16,
    pub value: u32,
    pub flags: Flags,
    pub time: Timestamp,
}

impl Counter {
    pub fn new(idx: u16, value: u32, flags: u8, time: Time) -> (p: Counter)
        ensures
            p == (Counter {
                index: idx,
                value,
                flags: Flags { value: flags },
                time: Timestamp::spec_from(time),
            }),
    {
        Counter { index: idx, value, flags: Flags::from(flags), time: Timestamp::from(time) }
    }
}

#[derive(Clone, Copy, Debug, PartialEq, Eq, Structural)]
pub struct FrozenCounter {
    pub index: u16,
    pub value: u32,
    pub flags: Flags,
    pub time: Timestamp,
}

impl FrozenCounter {
    pub fn new(idx: u16, value: u32, flags: u8, time: Time) -> (p: FrozenCounter)
        ensures
            p == (FrozenCounter {
                index: idx,
                value,
                flags: Flags { value: flags },
                time: Timestamp::spec_from(time),
            }),
    {
        FrozenCounter { index: idx, value, flags: Flags::from(flags), time: Timestamp::from(time) }
    }
}

/// A cursor over the points of one header, as native code drives it: each
/// call of `next` hands out the point after the last one, and nothing once
/// the points are used up.
pub struct PointIterator<T> {
    points: Vec<T>,
    position: usize,
}

impl<T> PointIterator<T> {
    /// The points not handed out yet.
    pub closed spec fn remaining(&self) -> Seq<T> {
        self.points@.subrange(self.position as int, self.points@.len() as int)
    }

    #[verifier::type_invariant]
    spec fn inv(&self) -> bool {
        self.position <= self.points@.len()
    }

    pub fn new(points: Vec<T>) -> (it: PointIterator<T>)
        ensures
            it.remaining() == points@,
    {
        let it = PointIterator { points, position: 0 };
        assert(it.remaining() =~= points@);
        it
    }

    /// Hands out the next point, if one is left. An iterator that is used up
    /// stays used up.
    pub fn next(&mut self) -> (r: Option<&T>)
        ensures
            old(self).remaining().len() == 0 ==> r is None && final(self).remaining()
                == old(self).remaining(),
            old(self).remaining().len() > 0 ==> r is Some && *r->0 == old(self).remaining()[0]
                && final(self).remaining() == old(self).remaining().drop_first(),
    {
        proof {
            use_type_invariant(&*self);
        }
        if self.position < self.points.len() {
            let i = self.position;
            self.position = i + 1;
            assert(self.remaining() =~= old(self).remaining().drop_first());
            Some(&self.points[i])
        } else {
            None
        }
    }
}

} // verus!
