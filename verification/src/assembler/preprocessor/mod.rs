pub mod constant;
