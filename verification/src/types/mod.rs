pub mod architecture;
pub mod guid;
pub mod installer_type;
