pub mod digits;
pub mod moment;
pub mod duration;
pub mod select;
pub mod model;
pub mod store;
pub mod commands;
pub mod flow;
