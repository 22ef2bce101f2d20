use vstd::prelude::*;

verus! {

/// Number of speaker layouts the backend's interface knows; their values are
/// `0` up to this number, excluded.
pub const CUBEB_LAYOUT_MAX: u32 = 19;

/// Speaker layout of a stream; the documentation of each variant lists its channels.
#[derive(Copy, Clone, Debug, PartialEq, Eq, Hash, Structural)]
pub enum Layout {
    /// Indicate the speaker's layout is undefined.
    Undefined,
    /// Left, Right
    DualMono,
    /// Left, Right, Low Frequency Effects
    DualMonoLFE,
    /// Mono
    Mono,
    /// Mono, Low Frequency Effects
    MonoLFE,
    /// Left, Right
    Stereo,
    /// Left, Right, Low Frequency Effects
    StereoLFE,
    /// Left, Right, Center
    Front3,
    /// Left, Right, Center, Low Frequency Effects
    Front3LFE,
    /// Left, Right, Surround
    Front2Surround1,
    /// Left, Right, Low Frequency Effects, Surround
    Front2Surround1LFE,
    /// Left, Right, Center, Surround
    Front3Surround1,
    /// Left, Right, Center, Low Frequency Effects, Surround
    Front3Surround1LFE,
    /// Left, Right, Left Surround, Right Surround
    Front2Surround2,
    /// Left, Right, Low Frequency Effects, Left Surround, Right Surround
    Front2Surround2LFE,
    /// Left, Right, Center, Left Surround, Right Surround
    Front3Surround2,
    /// Left, Right, Center, Low Frequency Effects, Left Surround, Right Surround
    Front3Surround2LFE,
    /// Left, Right, Center, Low Frequency Effects, Rear Center, Left Surround, Right Surround
    Front3Surround3LFE,
    /// Left, Right, Center, Low Frequency Effects, Rear Left Surround, Rear Right Surround, Left Surround, Right Surround
    Front3Surround4LFE,
}

impl Layout {
    /// The layouts in the order of the backend's C enumeration, which is the order
    /// of their values there: the value of each is its position in this sequence.
    pub open spec fn interface_order() -> Seq<Layout> {
        seq![
            Layout::Undefined,
            Layout::DualMono,
            Layout::DualMonoLFE,
            Layout::Mono,
            Layout::MonoLFE,
            Layout::Stereo,
            Layout::StereoLFE,
            Layout::Front3,
            Layout::Front3LFE,
            Layout::Front2Surround1,
            Layout::Front2Surround1LFE,
            Layout::Front3Surround1,
            Layout::Front3Surround1LFE,
            Layout::Front2Surround2,
            Layout::Front2Surround2LFE,
            Layout::Front3Surround2,
            Layout::Front3Surround2LFE,
            Layout::Front3Surround3LFE,
            Layout::Front3Surround4LFE,
        ]
    }

    /// The value that stands for this layout in the backend's interface.
    pub open spec fn raw(self) -> u32 {
        match self {
            Layout::Undefined => 0,
            Layout::DualMono => 1,
            Layout::DualMonoLFE => 2,
            Layout::Mono => 3,
            Layout::MonoLFE => 4,
            Layout::Stereo => 5,
            Layout::StereoLFE => 6,
            Layout::Front3 => 7,
            Layout::Front3LFE => 8,
            Layout::Front2Surround1 => 9,
            Layout::Front2Surround1LFE => 10,
            Layout::Front3Surround1 => 11,
            Layout::Front3Surround1LFE => 12,
            Layout::Front2Surround2 => 13,
            Layout::Front2Surround2LFE => 14,
            Layout::Front3Surround2 => 15,
            Layout::Front3Surround2LFE => 16,
            Layout::Front3Surround3LFE => 17,
            Layout::Front3Surround4LFE => 18,
        }
    }

    /// Whether `raw` stands for a layout in the backend's interface.
    pub open spec fn is_raw(raw: u32) -> bool {
        raw < CUBEB_LAYOUT_MAX
    }

    /// The layout that a value of the backend's interface stands for.
    pub open spec fn of_raw(raw: u32) -> Layout
        recommends
            Self::is_raw(raw),
    {
        choose|x: Layout| x.raw() == raw
    }

    /// Converts a value of the backend's interface to the layout it stands for.
    pub fn from_raw(raw: u32) -> (r: Layout)
        requires
            Self::is_raw(raw),
        ensures
            r == Self::of_raw(raw),
            r.raw() == raw,
            r == Self::interface_order()[raw as int],
    {
        let r = if raw == 0 {
            Layout::Undefined
        } else if raw == 1 {
            Layout::DualMono
        } else if raw == 2 {
            Layout::DualMonoLFE
        } else if raw == 3 {
            Layout::Mono
        } else if raw == 4 {
            Layout::MonoLFE
        } else if raw == 5 {
            Layout::Stereo
        } else if raw == 6 {
            Layout::StereoLFE
        } else if raw == 7 {
            Layout::Front3
        } else if raw == 8 {
            Layout::Front3LFE
        } else if raw == 9 {
            Layout::Front2Surround1
        } else if raw == 10 {
            Layout::Front2Surround1LFE
        } else if raw == 11 {
            Layout::Front3Surround1
        } else if raw == 12 {
            Layout::Front3Surround1LFE
        } else if raw == 13 {
            Layout::Front2Surround2
        } else if raw == 14 {
            Layout::Front2Surround2LFE
        } else if raw == 15 {
            Layout::Front3Surround2
        } else if raw == 16 {
            Layout::Front3Surround2LFE
        } else if raw == 17 {
            Layout::Front3Surround3LFE
        } else {
            Layout::Front3Surround4LFE
        };
        proof {
            lemma_layout_raw_round_trip(r, raw);
        }
        r
    }

    /// Converts this layout to the value that stands for it in the backend's interface.
    pub fn to_raw(self) -> (r: u32)
        ensures
            r == self.raw(),
            r < Self::interface_order().len(),
            Self::interface_order()[r as int] == self,
    {
        match self {
            Layout::Undefined => 0,
            Layout::DualMono => 1,
            Layout::DualMonoLFE => 2,
            Layout::Mono => 3,
            Layout::MonoLFE => 4,
            Layout::Stereo => 5,
            Layout::StereoLFE => 6,
            Layout::Front3 => 7,
            Layout::Front3LFE => 8,
            Layout::Front2Surround1 => 9,
            Layout::Front2Surround1LFE => 10,
            Layout::Front3Surround1 => 11,
            Layout::Front3Surround1LFE => 12,
            Layout::Front2Surround2 => 13,
            Layout::Front2Surround2LFE => 14,
            Layout::Front3Surround2 => 15,
            Layout::Front3Surround2LFE => 16,
            Layout::Front3Surround3LFE => 17,
            Layout::Front3Surround4LFE => 18,
        }
    }
}

/// The value of each layout in the backend's interface is its position in the
/// C enumeration: the values are exactly the positions `0` up to the number of
/// layouts, and the layout at position `i` has value `i`.
pub proof fn lemma_layout_value_is_position(layout: Layout, i: int)
    ensures
        Layout::interface_order().len() == 19,
        Layout::interface_order()[layout.raw() as int] == layout,
        0 <= i < 19 ==> Layout::interface_order()[i].raw() == i,
        0 <= i < 19 ==> Layout::is_raw(i as u32) && Layout::of_raw(i as u32) == Layout::interface_order()[i],
{
    if i == 0 {
        assert(Layout::interface_order()[i] == Layout::Undefined);
    } else if i == 1 {
        assert(Layout::interface_order()[i] == Layout::DualMono);
    } else if i == 2 {
        assert(Layout::interface_order()[i] == Layout::DualMonoLFE);
    } else if i == 3 {
        assert(Layout::interface_order()[i] == Layout::Mono);
    } else if i == 4 {
        assert(Layout::interface_order()[i] == Layout::MonoLFE);
    } else if i == 5 {
        assert(Layout::interface_order()[i] == Layout::Stereo);
    } else if i == 6 {
        assert(Layout::interface_order()[i] == Layout::StereoLFE);
    } else if i == 7 {
        assert(Layout::interface_order()[i] == Layout::Front3);
    } else if i == 8 {
        assert(Layout::interface_order()[i] == Layout::Front3LFE);
    } else if i == 9 {
        assert(Layout::interface_order()[i] == Layout::Front2Surround1);
    } else if i == 10 {
        assert(Layout::interface_order()[i] == Layout::Front2Surround1LFE);
    } else if i == 11 {
        assert(Layout::interface_order()[i] == Layout::Front3Surround1);
    } else if i == 12 {
        assert(Layout::interface_order()[i] == Layout::Front3Surround1LFE);
    } else if i == 13 {
        assert(Layout::interface_order()[i] == Layout::Front2Surround2);
    } else if i == 14 {
        assert(Layout::interface_order()[i] == Layout::Front2Surround2LFE);
    } else if i == 15 {
        assert(Layout::interface_order()[i] == Layout::Front3Surround2);
    } else if i == 16 {
        assert(Layout::interface_order()[i] == Layout::Front3Surround2LFE);
    } else if i == 17 {
        assert(Layout::interface_order()[i] == Layout::Front3Surround3LFE);
    } else if i == 18 {
        assert(Layout::interface_order()[i] == Layout::Front3Surround4LFE);
    }
    lemma_layout_raw_round_trip(layout, i as u32);
}

/// Converting a layout to its value in the backend's interface and back gives the
/// layout again, and every value of that interface comes from exactly one layout.
pub proof fn lemma_layout_raw_round_trip(layout: Layout, raw: u32)
    ensures
        Layout::is_raw(layout.raw()),
        Layout::of_raw(layout.raw()) == layout,
        Layout::is_raw(raw) ==> Layout::of_raw(raw).raw() == raw,
{
    if Layout::is_raw(raw) {
        if raw == 0 {
            assert(Layout::Undefined.raw() == raw);
        } else if raw == 1 {
            assert(Layout::DualMono.raw() == raw);
        } else if raw == 2 {
            assert(Layout::DualMonoLFE.raw() == raw);
        } else if raw == 3 {
            assert(Layout::Mono.raw() == raw);
        } else if raw == 4 {
            assert(Layout::MonoLFE.raw() == raw);
        } else if raw == 5 {
            assert(Layout::Stereo.raw() == raw);
        } else if raw == 6 {
            assert(Layout::StereoLFE.raw() == raw);
        } else if raw == 7 {
            assert(Layout::Front3.raw() == raw);
        } else if raw == 8 {
            assert(Layout::Front3LFE.raw() == raw);
        } else if raw == 9 {
            assert(Layout::Front2Surround1.raw() == raw);
        } else if raw == 10 {
            assert(Layout::Front2Surround1LFE.raw() == raw);
        } else if raw == 11 {
            assert(Layout::Front3Surround1.raw() == raw);
        } else if raw == 12 {
            assert(Layout::Front3Surround1LFE.raw() == raw);
        } else if raw == 13 {
            assert(Layout::Front2Surround2.raw() == raw);
        } else if raw == 14 {
            assert(Layout::Front2Surround2LFE.raw() == raw);
        } else if raw == 15 {
            assert(Layout::Front3Surround2.raw() == raw);
        } else if raw == 16 {
            assert(Layout::Front3Surround2LFE.raw() == raw);
        } else if raw == 17 {
            assert(Layout::Front3Surround3LFE.raw() == raw);
        } else if raw == 18 {
            assert(Layout::Front3Surround4LFE.raw() == raw);
        }
    }
}

} // verus!
