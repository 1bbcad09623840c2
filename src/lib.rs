pub mod address;
pub mod campaign;
pub mod registry;
pub mod uint;
