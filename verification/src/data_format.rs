//! Tables of images, machines and network addresses.
pub mod tables;

pub use tables::{create_images_table, create_machines_table, create_network_configs_table};
