use vstd::prelude::*;

verus! {

/// How much the backend logs.
#[derive(Copy, Clone, Debug, PartialEq, Eq, Hash, Structural)]
pub enum LogLevel {
    Disabled,
    Normal,
    Verbose,
}

impl LogLevel {
    /// The levels in the order of the backend's C enumeration, which is the order
    /// of their values there: the value of each is its position in this sequence.
    pub open spec fn interface_order() -> Seq<LogLevel> {
        seq![
            LogLevel::Disabled,
            LogLevel::Normal,
            LogLevel::Verbose,
        ]
    }

    /// The value that stands for this level in the backend's interface.
    pub open spec fn raw(self) -> u32 {
        match self {
            LogLevel::Disabled => 0,
            LogLevel::Normal => 1,
            LogLevel::Verbose => 2,
        }
    }

    /// Whether `raw` stands for a level in the backend's interface.
    pub open spec fn is_raw(raw: u32) -> bool {
        raw < 3
    }

    /// The level that a value of the backend's interface stands for.
    pub open spec fn of_raw(raw: u32) -> LogLevel
        recommends
            Self::is_raw(raw),
    {
        choose|x: LogLevel| x.raw() == raw
    }

    /// Converts a value of the backend's interface to the level it stands for.
    pub fn from_raw(raw: u32) -> (r: LogLevel)
        requires
            Self::is_raw(raw),
        ensures
            r == Self::of_raw(raw),
            r.raw() == raw,
            r == Self::interface_order()[raw as int],
    {
        let r = if raw == 0 {
            LogLevel::Disabled
        } else if raw == 1 {
            LogLevel::Normal
        } else {
            LogLevel::Verbose
        };
        proof {
            lemma_log_level_raw_round_trip(r, raw);
        }
        r
    }

    /// Converts this level to the value that stands for it in the backend's interface.
    pub fn to_raw(self) -> (r: u32)
        ensures
            r == self.raw(),
            r < Self::interface_order().len(),
            Self::interface_order()[r as int] == self,
    {
        match self {
            LogLevel::Disabled => 0,
            LogLevel::Normal => 1,
            LogLevel::Verbose => 2,
        }
    }
}

/// The value of each level in the backend's interface is its position in the
/// C enumeration: the values are exactly the positions `0` up to the number of
/// levels, and the level at position `i` has value `i`.
pub proof fn lemma_log_level_value_is_position(level: LogLevel, i: int)
    ensures
        LogLevel::interface_order().len() == 3,
        LogLevel::interface_order()[level.raw() as int] == level,
        0 <= i < 3 ==> LogLevel::interface_order()[i].raw() == i,
        0 <= i < 3 ==> LogLevel::is_raw(i as u32) && LogLevel::of_raw(i as u32) == LogLevel::interface_order()[i],
{
    if i == 0 {
        assert(LogLevel::interface_order()[i] == LogLevel::Disabled);
    } else if i == 1 {
        assert(LogLevel::interface_order()[i] == LogLevel::Normal);
    } else if i == 2 {
        assert(LogLevel::interface_order()[i] == LogLevel::Verbose);
    }
    lemma_log_level_raw_round_trip(level, i as u32);
}

/// Converting a level to its value in the backend's interface and back gives the
/// level again, and every value of that interface comes from exactly one level.
pub proof fn lemma_log_level_raw_round_trip(level: LogLevel, raw: u32)
    ensures
        LogLevel::is_raw(level.raw()),
        LogLevel::of_raw(level.raw()) == level,
        LogLevel::is_raw(raw) ==> LogLevel::of_raw(raw).raw() == raw,
{
    if LogLevel::is_raw(raw) {
        if raw == 0 {
            assert(LogLevel::Disabled.raw() == raw);
        } else if raw == 1 {
            assert(LogLevel::Normal.raw() == raw);
        } else if raw == 2 {
            assert(LogLevel::Verbose.raw() == raw);
        }
    }
}

} // verus!
