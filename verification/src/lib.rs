use vstd::prelude::*;

pub mod context;
pub mod device;
pub mod error;
pub mod layout;
pub mod log;
pub mod sample_format;
pub mod stream;

pub use context::{channel_layout_query_result, query_result};
pub use device::device_state::DeviceState;
pub use device::device_type::DeviceType;
pub use error::{
    Error, ErrorKind, CUBEB_ERROR, CUBEB_ERROR_DEVICE_UNAVAILABLE, CUBEB_ERROR_INVALID_FORMAT,
    CUBEB_ERROR_INVALID_PARAMETER, CUBEB_ERROR_NOT_SUPPORTED, CUBEB_OK,
};
pub use layout::{Layout, CUBEB_LAYOUT_MAX};
pub use log::LogLevel;
pub use sample_format::SampleFormat;
pub use stream::{DefaultParamsProgress, RawStreamParams, StreamParams};
