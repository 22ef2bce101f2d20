use vstd::prelude::*;

verus! {

/// Whether a device is disabled, unplugged or enabled.
#[derive(Copy, Clone, Debug, PartialEq, Eq, Hash, Structural)]
pub enum DeviceState {
    Disabled,
    Unplugged,
    Enabled,
}

impl DeviceState {
    /// The states in the order of the backend's C enumeration, which is the order
    /// of their values there: the value of each is its position in this sequence.
    pub open spec fn interface_order() -> Seq<DeviceState> {
        seq![
            DeviceState::Disabled,
            DeviceState::Unplugged,
            DeviceState::Enabled,
        ]
    }

    /// The value that stands for this state in the backend's interface.
    pub open spec fn raw(self) -> u32 {
        match self {
            DeviceState::Disabled => 0,
            DeviceState::Unplugged => 1,
            DeviceState::Enabled => 2,
        }
    }

    /// Whether `raw` stands for a state in the backend's interface.
    pub open spec fn is_raw(raw: u32) -> bool {
        raw < 3
    }

    /// The state that a value of the backend's interface stands for.
    pub open spec fn of_raw(raw: u32) -> DeviceState
        recommends
            Self::is_raw(raw),
    {
        choose|x: DeviceState| x.raw() == raw
    }

    /// Converts a value of the backend's interface to the state it stands for.
    pub fn from_raw(raw: u32) -> (r: DeviceState)
        requires
            Self::is_raw(raw),
        ensures
            r == Self::of_raw(raw),
            r.raw() == raw,
            r == Self::interface_order()[raw as int],
    {
        let r = if raw == 0 {
            DeviceState::Disabled
        } else if raw == 1 {
            DeviceState::Unplugged
        } else {
            DeviceState::Enabled
        };
        proof {
            lemma_device_state_raw_round_trip(r, raw);
        }
        r
    }

    /// Converts this state to the value that stands for it in the backend's interface.
    pub fn to_raw(self) -> (r: u32)
        ensures
            r == self.raw(),
            r < Self::interface_order().len(),
            Self::interface_order()[r as int] == self,
    {
        match self {
            DeviceState::Disabled => 0,
            DeviceState::Unplugged => 1,
            DeviceState::Enabled => 2,
        }
    }
}

/// The value of each state in the backend's interface is its position in the
/// C enumeration: the values are exactly the positions `0` up to the number of
/// states, and the state at position `i` has value `i`.
pub proof fn lemma_device_state_value_is_position(state: DeviceState, i: int)
    ensures
        DeviceState::interface_order().len() == 3,
        DeviceState::interface_order()[state.raw() as int] == state,
        0 <= i < 3 ==> DeviceState::interface_order()[i].raw() == i,
        0 <= i < 3 ==> DeviceState::is_raw(i as u32) && DeviceState::of_raw(i as u32) == DeviceState::interface_order()[i],
{
    if i == 0 {
        assert(DeviceState::interface_order()[i] == DeviceState::Disabled);
    } else if i == 1 {
        assert(DeviceState::interface_order()[i] == DeviceState::Unplugged);
    } else if i == 2 {
        assert(DeviceState::interface_order()[i] == DeviceState::Enabled);
    }
    lemma_device_state_raw_round_trip(state, i as u32);
}

/// Converting a state to its value in the backend's interface and back gives the
/// state again, and every value of that interface comes from exactly one state.
pub proof fn lemma_device_state_raw_round_trip(state: DeviceState, raw: u32)
    ensures
        DeviceState::is_raw(state.raw()),
        DeviceState::of_raw(state.raw()) == state,
        DeviceState::is_raw(raw) ==> DeviceState::of_raw(raw).raw() == raw,
{
    if DeviceState::is_raw(raw) {
        if raw == 0 {
            assert(DeviceState::Disabled.raw() == raw);
        } else if raw == 1 {
            assert(DeviceState::Unplugged.raw() == raw);
        } else if raw == 2 {
            assert(DeviceState::Enabled.raw() == raw);
        }
    }
}

} // verus!
