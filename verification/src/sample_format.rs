use vstd::endian::{endianness, Endian};
use vstd::prelude::*;

verus! {

/// Encoding of the samples of a stream.
#[derive(Copy, Clone, Debug, PartialEq, Eq, Hash, Structural)]
pub enum SampleFormat {
    Signed16LittleEndian,
    Signed16BigEndian,
    Float32LittleEndian,
    Float32BigEndian,
}

impl SampleFormat {
    /// The formats in the order of the backend's C enumeration, which is the order
    /// of their values there: the value of each is its position in this sequence.
    pub open spec fn interface_order() -> Seq<SampleFormat> {
        seq![
            SampleFormat::Signed16LittleEndian,
            SampleFormat::Signed16BigEndian,
            SampleFormat::Float32LittleEndian,
            SampleFormat::Float32BigEndian,
        ]
    }

    /// The value that stands for this format in the backend's interface.
    pub open spec fn raw(self) -> u32 {
        match self {
            SampleFormat::Signed16LittleEndian => 0,
            SampleFormat::Signed16BigEndian => 1,
            SampleFormat::Float32LittleEndian => 2,
            SampleFormat::Float32BigEndian => 3,
        }
    }

    /// Whether `raw` stands for a format in the backend's interface.
    pub open spec fn is_raw(raw: u32) -> bool {
        raw <= 3
    }

    /// The format that a value of the backend's interface stands for.
    pub open spec fn of_raw(raw: u32) -> SampleFormat
        recommends
            Self::is_raw(raw),
    {
        choose|x: SampleFormat| x.raw() == raw
    }

    /// Converts a value of the backend's interface to the format it stands for.
    pub fn from_raw(raw: u32) -> (r: SampleFormat)
        requires
            Self::is_raw(raw),
        ensures
            r == Self::of_raw(raw),
            r.raw() == raw,
            r == Self::interface_order()[raw as int],
    {
        let r = if raw == 0 {
            SampleFormat::Signed16LittleEndian
        } else if raw == 1 {
            SampleFormat::Signed16BigEndian
        } else if raw == 2 {
            SampleFormat::Float32LittleEndian
        } else {
            SampleFormat::Float32BigEndian
        };
        proof {
            lemma_sample_format_raw_round_trip(r, raw);
        }
        r
    }

    /// Converts this format to the value that stands for it in the backend's interface.
    pub fn to_raw(self) -> (r: u32)
        ensures
            r == self.raw(),
            r < Self::interface_order().len(),
            Self::interface_order()[r as int] == self,
    {
        match self {
            SampleFormat::Signed16LittleEndian => 0,
            SampleFormat::Signed16BigEndian => 1,
            SampleFormat::Float32LittleEndian => 2,
            SampleFormat::Float32BigEndian => 3,
        }
    }

    /// The signed 16 bit format in the given byte order.
    pub fn signed_16_with_byte_order(little_endian: bool) -> (r: SampleFormat)
        ensures
            r == (if little_endian {
                SampleFormat::Signed16LittleEndian
            } else {
                SampleFormat::Signed16BigEndian
            }),
    {
        if little_endian {
            SampleFormat::Signed16LittleEndian
        } else {
            SampleFormat::Signed16BigEndian
        }
    }

    /// The 32 bit float format in the given byte order.
    pub fn float_32_with_byte_order(little_endian: bool) -> (r: SampleFormat)
        ensures
            r == (if little_endian {
                SampleFormat::Float32LittleEndian
            } else {
                SampleFormat::Float32BigEndian
            }),
    {
        if little_endian {
            SampleFormat::Float32LittleEndian
        } else {
            SampleFormat::Float32BigEndian
        }
    }

    /// The signed 16 bit format in the byte order of the machine.
    pub fn signed_16_native_endian() -> (r: SampleFormat)
        ensures
            r == (if endianness() == Endian::Little {
                SampleFormat::Signed16LittleEndian
            } else {
                SampleFormat::Signed16BigEndian
            }),
    {
        Self::signed_16_with_byte_order(native_is_little_endian())
    }

    /// The 32 bit float format in the byte order of the machine.
    pub fn float_32_native_endian() -> (r: SampleFormat)
        ensures
            r == (if endianness() == Endian::Little {
                SampleFormat::Float32LittleEndian
            } else {
                SampleFormat::Float32BigEndian
            }),
    {
        Self::float_32_with_byte_order(native_is_little_endian())
    }
}

/// The value of each format in the backend's interface is its position in the
/// C enumeration: the values are exactly the positions `0` up to the number of
/// formats, and the format at position `i` has value `i`.
pub proof fn lemma_sample_format_value_is_position(format: SampleFormat, i: int)
    ensures
        SampleFormat::interface_order().len() == 4,
        SampleFormat::interface_order()[format.raw() as int] == format,
        0 <= i < 4 ==> SampleFormat::interface_order()[i].raw() == i,
        0 <= i < 4 ==> SampleFormat::is_raw(i as u32) && SampleFormat::of_raw(i as u32) == SampleFormat::interface_order()[i],
{
    if i == 0 {
        assert(SampleFormat::interface_order()[i] == SampleFormat::Signed16LittleEndian);
    } else if i == 1 {
        assert(SampleFormat::interface_order()[i] == SampleFormat::Signed16BigEndian);
    } else if i == 2 {
        assert(SampleFormat::interface_order()[i] == SampleFormat::Float32LittleEndian);
    } else if i == 3 {
        assert(SampleFormat::interface_order()[i] == SampleFormat::Float32BigEndian);
    }
    lemma_sample_format_raw_round_trip(format, i as u32);
}

/// Converting a format to its value in the backend's interface and back gives the
/// format again, and every value of that interface comes from exactly one format.
pub proof fn lemma_sample_format_raw_round_trip(format: SampleFormat, raw: u32)
    ensures
        SampleFormat::is_raw(format.raw()),
        SampleFormat::of_raw(format.raw()) == format,
        SampleFormat::is_raw(raw) ==> SampleFormat::of_raw(raw).raw() == raw,
{
    if SampleFormat::is_raw(raw) {
        if raw == 0 {
            assert(SampleFormat::Signed16LittleEndian.raw() == raw);
        } else if raw == 1 {
            assert(SampleFormat::Signed16BigEndian.raw() == raw);
        } else if raw == 2 {
            assert(SampleFormat::Float32LittleEndian.raw() == raw);
        } else if raw == 3 {
            assert(SampleFormat::Float32BigEndian.raw() == raw);
        }
    }
}

/// `u16::to_ne_bytes`: the two bytes of `x` in the byte order of the machine, the
/// least significant first on a little endian machine, the most significant first
/// on a big endian one.
#[verifier::external_body]
fn u16_to_ne_bytes(x: u16) -> (r: [u8; 2])
    ensures
        endianness() == Endian::Little ==> (r[0] == x % 256 && r[1] == x / 256),
        endianness() == Endian::Big ==> (r[0] == x / 256 && r[1] == x % 256),
{
    x.to_ne_bytes()
}

/// Whether `encoded_one`, the two bytes of the number one in some byte order, holds
/// the least significant byte first.
fn low_byte_first(encoded_one: [u8; 2]) -> (r: bool)
    requires
        (encoded_one[0] == 1 && encoded_one[1] == 0) || (encoded_one[0] == 0 && encoded_one[1] == 1),
    ensures
        r <==> (encoded_one[0] == 1 && encoded_one[1] == 0),
{
    encoded_one[0] == 1
}

/// Whether the machine stores the least significant byte first.
fn native_is_little_endian() -> (r: bool)
    ensures
        r <==> endianness() == Endian::Little,
{
    let bytes = u16_to_ne_bytes(1);
    low_byte_first(bytes)
}

} // verus!
