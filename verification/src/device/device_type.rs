use vstd::prelude::*;

verus! {

/// Whether a particular device is an input device (e.g. a microphone), or an
/// output device (e.g. headphones).
#[derive(Copy, Clone, Debug, PartialEq, Eq, Hash, Structural)]
pub enum DeviceType {
    Unknown,
    Input,
    Output,
}

impl DeviceType {
    /// The device types in the order of the backend's C enumeration, which is the order
    /// of their values there: the value of each is its position in this sequence.
    pub open spec fn interface_order() -> Seq<DeviceType> {
        seq![
            DeviceType::Unknown,
            DeviceType::Input,
            DeviceType::Output,
        ]
    }

    /// The value that stands for this device type in the backend's interface.
    pub open spec fn raw(self) -> u32 {
        match self {
            DeviceType::Unknown => 0,
            DeviceType::Input => 1,
            DeviceType::Output => 2,
        }
    }

    /// Whether `raw` stands for a device type in the backend's interface.
    pub open spec fn is_raw(raw: u32) -> bool {
        raw < 3
    }

    /// The device type that a value of the backend's interface stands for.
    pub open spec fn of_raw(raw: u32) -> DeviceType
        recommends
            Self::is_raw(raw),
    {
        choose|x: DeviceType| x.raw() == raw
    }

    /// Converts a value of the backend's interface to the device type it stands for.
    pub fn from_raw(raw: u32) -> (r: DeviceType)
        requires
            Self::is_raw(raw),
        ensures
            r == Self::of_raw(raw),
            r.raw() == raw,
            r == Self::interface_order()[raw as int],
    {
        let r = if raw == 0 {
            DeviceType::Unknown
        } else if raw == 1 {
            DeviceType::Input
        } else {
            DeviceType::Output
        };
        proof {
            lemma_device_type_raw_round_trip(r, raw);
        }
        r
    }

    /// Converts this device type to the value that stands for it in the backend's interface.
    pub fn to_raw(self) -> (r: u32)
        ensures
            r == self.raw(),
            r < Self::interface_order().len(),
            Self::interface_order()[r as int] == self,
    {
        match self {
            DeviceType::Unknown => 0,
            DeviceType::Input => 1,
            DeviceType::Output => 2,
        }
    }
}

/// The value of each device type in the backend's interface is its position in the
/// C enumeration: the values are exactly the positions `0` up to the number of
/// device types, and the device type at position `i` has value `i`.
pub proof fn lemma_device_type_value_is_position(device_type: DeviceType, i: int)
    ensures
        DeviceType::interface_order().len() == 3,
        DeviceType::interface_order()[device_type.raw() as int] == device_type,
        0 <= i < 3 ==> DeviceType::interface_order()[i].raw() == i,
        0 <= i < 3 ==> DeviceType::is_raw(i as u32) && DeviceType::of_raw(i as u32) == DeviceType::interface_order()[i],
{
    if i == 0 {
        assert(DeviceType::interface_order()[i] == DeviceType::Unknown);
    } else if i == 1 {
        assert(DeviceType::interface_order()[i] == DeviceType::Input);
    } else if i == 2 {
        assert(DeviceType::interface_order()[i] == DeviceType::Output);
    }
    lemma_device_type_raw_round_trip(device_type, i as u32);
}

/// Converting a device type to its value in the backend's interface and back gives the
/// device type again, and every value of that interface comes from exactly one device type.
pub proof fn lemma_device_type_raw_round_trip(device_type: DeviceType, raw: u32)
    ensures
        DeviceType::is_raw(device_type.raw()),
        DeviceType::of_raw(device_type.raw()) == device_type,
        DeviceType::is_raw(raw) ==> DeviceType::of_raw(raw).raw() == raw,
{
    if DeviceType::is_raw(raw) {
        if raw == 0 {
            assert(DeviceType::Unknown.raw() == raw);
        } else if raw == 1 {
            assert(DeviceType::Input.raw() == raw);
        } else if raw == 2 {
            assert(DeviceType::Output.raw() == raw);
        }
    }
}

} // verus!
