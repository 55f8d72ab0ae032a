//! Domain entities: agents, conversations, digital twins, sensor data and
//! tools.

pub mod agent;
pub mod conversation;
pub mod digital_twin;
pub mod sensor_data;
pub mod tool;
