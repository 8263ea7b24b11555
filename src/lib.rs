//! Brightness control for the Waveshare WS170120 USB display: the command
//! that the display accepts, the choice of device, and the order in which the
//! ways of delivering the command are tried.

pub mod command;
pub mod device;
pub mod run;
pub mod text;
pub mod transport;
