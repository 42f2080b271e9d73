pub mod button;
pub mod led;
pub mod protocol;
