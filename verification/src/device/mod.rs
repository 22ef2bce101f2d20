pub mod device_state;
pub mod device_type;
