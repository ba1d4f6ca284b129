pub mod counter;
pub mod greeting;
pub mod manager;
pub mod messages;
pub mod proxy;
