pub mod bus;
pub mod iuemu;
pub mod mainwrc;
pub mod protocol;
pub mod subwrc;
