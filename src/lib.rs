pub mod math;
pub mod view;
