use vstd::prelude::*;

use crate::error::Error;
use crate::layout::Layout;
use crate::sample_format::SampleFormat;

verus! {

/// Stream parameters in the form the backend's interface takes them.
#[derive(Copy, Clone, Debug, PartialEq, Eq, Structural)]
pub struct RawStreamParams {
    pub format: u32,
    pub rate: u32,
    pub channels: u32,
    pub layout: u32,
}

/// Parameters of an audio stream: sample format, rate, channel count and layout.
#[derive(Copy, Clone, Debug)]
pub struct StreamParams {
    raw: RawStreamParams,
}

/// The raw parameters of a stream with the given format, rate, channels and layout.
pub open spec fn raw_params(format: SampleFormat, rate: u32, channels: u32, layout: Layout) -> RawStreamParams {
    RawStreamParams { format: format.raw(), rate, channels, layout: layout.raw() }
}

impl View for StreamParams {
    type V = RawStreamParams;

    closed spec fn view(&self) -> RawStreamParams {
        self.raw
    }
}

impl StreamParams {
    pub fn new(format: SampleFormat, rate: u32, channels: u32, layout: Layout) -> (r: Self)
        ensures
            r@ == raw_params(format, rate, channels, layout),
            r@.rate == rate,
            r@.channels == channels,
            r@.format == format.raw(),
            r@.layout == layout.raw(),
            SampleFormat::interface_order()[r@.format as int] == format,
            Layout::interface_order()[r@.layout as int] == layout,
    {
        StreamParams {
            raw: RawStreamParams {
                format: format.to_raw(),
                rate,
                channels,
                layout: layout.to_raw(),
            },
        }
    }

    /// The parameters a context prefers for streams of the given format, from the
    /// outcomes of its queries for the preferred sample rate, the maximum channel
    /// count and the preferred channel layout, in that order: the first of them
    /// that failed decides the error.
    pub fn default(
        format: SampleFormat,
        preferred_sample_rate: Result<u32, Error>,
        max_channel_count: Result<u32, Error>,
        preferred_channel_layout: Result<Layout, Error>,
    ) -> (r: Result<StreamParams, Error>)
        ensures
            match (preferred_sample_rate, max_channel_count, preferred_channel_layout) {
                (Err(e), _, _) => r == Err::<StreamParams, Error>(e),
                (Ok(_), Err(e), _) => r == Err::<StreamParams, Error>(e),
                (Ok(_), Ok(_), Err(e)) => r == Err::<StreamParams, Error>(e),
                (Ok(rate), Ok(channels), Ok(layout)) => r matches Ok(p) && p@ == raw_params(format, rate, channels, layout)
                    && p@.rate == rate && p@.channels == channels && p@.format == format.raw()
                    && p@.layout == layout.raw(),
            },
    {
        let rate = preferred_sample_rate?;
        let channels = max_channel_count?;
        let layout = preferred_channel_layout?;
        Ok(StreamParams::new(format, rate, channels, layout))
    }

    /// The parameters in the form the backend's interface takes them.
    pub fn raw(&self) -> (r: RawStreamParams)
        ensures
            r == self@,
    {
        self.raw
    }
}

/// Progress in gathering the parameters that a context prefers for streams of a
/// format. The context is asked for its preferred sample rate, its maximum channel
/// count and its preferred channel layout, in that order; the first failed query
/// ends the gathering, and no later query is made.
#[derive(Copy, Clone, Debug)]
pub enum DefaultParamsProgress {
    /// The preferred sample rate is to be queried next.
    NeedSampleRate,
    /// The maximum channel count is to be queried next.
    NeedMaxChannelCount { rate: u32 },
    /// The preferred channel layout is to be queried next.
    NeedChannelLayout { rate: u32, channels: u32 },
    /// No query is left to make; this is the outcome.
    Done(Result<StreamParams, Error>),
}

impl DefaultParamsProgress {
    /// Gathering starts with the query for the preferred sample rate.
    pub fn start() -> (r: Self)
        ensures
            r is NeedSampleRate,
    {
        DefaultParamsProgress::NeedSampleRate
    }

    /// Takes the answer to the query for the preferred sample rate: a failure ends
    /// the gathering with its error, a rate leads to the query for the maximum
    /// channel count.
    pub fn sample_rate_answered(self, answer: Result<u32, Error>) -> (r: Self)
        requires
            self is NeedSampleRate,
        ensures
            match answer {
                Ok(rate) => r == (DefaultParamsProgress::NeedMaxChannelCount { rate }),
                Err(e) => r == DefaultParamsProgress::Done(Err(e)),
            },
    {
        match answer {
            Ok(rate) => DefaultParamsProgress::NeedMaxChannelCount { rate },
            Err(e) => DefaultParamsProgress::Done(Err(e)),
        }
    }

    /// Takes the answer to the query for the maximum channel count: a failure ends
    /// the gathering with its error, a count leads to the query for the preferred
    /// channel layout.
    pub fn max_channel_count_answered(self, answer: Result<u32, Error>) -> (r: Self)
        requires
            self is NeedMaxChannelCount,
        ensures
            self matches DefaultParamsProgress::NeedMaxChannelCount { rate } && match answer {
                Ok(channels) => r == (DefaultParamsProgress::NeedChannelLayout { rate, channels }),
                Err(e) => r == DefaultParamsProgress::Done(Err(e)),
            },
    {
        match self {
            DefaultParamsProgress::NeedMaxChannelCount { rate } => match answer {
                Ok(channels) => DefaultParamsProgress::NeedChannelLayout { rate, channels },
                Err(e) => DefaultParamsProgress::Done(Err(e)),
            },
            _ => unreached(),
        }
    }

    /// Takes the answer to the query for the preferred channel layout, which ends
    /// the gathering: with its error on failure, otherwise with the parameters of
    /// the given format, the rate, the channel count and the layout.
    pub fn channel_layout_answered(self, format: SampleFormat, answer: Result<Layout, Error>) -> (r: Self)
        requires
            self is NeedChannelLayout,
        ensures
            self matches DefaultParamsProgress::NeedChannelLayout { rate, channels } && match answer {
                Ok(layout) => r matches DefaultParamsProgress::Done(Ok(p)) && p@ == raw_params(format, rate, channels, layout)
                    && p@.rate == rate && p@.channels == channels && p@.format == format.raw()
                    && p@.layout == layout.raw(),
                Err(e) => r == DefaultParamsProgress::Done(Err(e)),
            },
    {
        match self {
            DefaultParamsProgress::NeedChannelLayout { rate, channels } => match answer {
                Ok(layout) => DefaultParamsProgress::Done(Ok(StreamParams::new(format, rate, channels, layout))),
                Err(e) => DefaultParamsProgress::Done(Err(e)),
            },
            _ => unreached(),
        }
    }
}

} // verus!
