mod externs;

pub mod bytes;
pub mod futures_util_io_peek;
pub mod std_io_peek;
