//! Types for the protocol between a driver station and an FTC robot controller.

pub mod traits;
pub mod packet;
pub mod heartbeat_packet;
pub mod gamepad_packet;
pub mod time_packet;
pub mod robot_command;
pub mod telemetry_packet;
pub mod hardware;
pub mod test_deserializer;
