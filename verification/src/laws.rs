//! What the operations give, said of their arguments and results alone.
pub mod keys;
pub mod messages;
pub mod pay;
pub mod request;
pub mod response;
pub mod signing;
