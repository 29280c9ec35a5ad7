pub mod arithmetic;
pub mod bitwise;
pub mod control_flow;
pub mod load_store;
pub mod misc;
pub mod stack;
