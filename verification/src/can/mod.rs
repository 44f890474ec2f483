pub mod baud_rate;
pub mod can_module;
pub mod can_node;
pub mod frame;
pub mod internals;
pub mod msg;
pub mod reg;

pub use frame::Frame;
pub use msg::MessageId;
