//! Container images: the record, and the invocations that act on images.
pub mod images_ops;
pub mod structs;
pub mod usage;

pub use images_ops::{
    clone_image, import_remote_image, list_local_images, remove_image, rename_image,
    set_read_only, start_image,
};
pub use structs::{Image, Images, Listed, Moments, Offsets, Usage};
