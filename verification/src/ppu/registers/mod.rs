pub mod addr;
pub mod control;
pub mod mask;
pub mod status;

pub use control::ControlRegister;
pub use mask::MaskRegister;
pub use status::StatusRegister;
