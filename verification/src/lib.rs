//! Protocol types and client logic for driving an FTC robot from a desktop
//! driver station: the binary packet format spoken with the robot controller,
//! the hardware configuration document, match timing and the decisions the
//! user interface and network loop take.

pub mod ftc_proto;
pub mod ftc_dashboard;
pub mod match_timer;
pub mod app;
pub mod clock;
pub mod command;
pub mod hardware_configuration;
pub mod input;
pub mod network;
pub mod paths;
pub mod popup;
pub mod robot;
pub mod text;
