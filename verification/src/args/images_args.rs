use vstd::prelude::*;

verus! {

/// A command on images.
pub struct ImagesArgs {
    pub commands: ImageCommands,
}

/// The commands on images.
pub enum ImageCommands {
    /// List local images
    List(List),
    /// Start images
    Start(Start),
    /// Remove images
    Remove(Remove),
    /// Set image properties
    SetMode(SetMode),
    /// Clone images
    Clone(Clone),
    /// Rename images
    Rename(Rename),
    /// Operate with remote images
    Remote(Remote),
}

/// `images list`
#[derive(Clone, Debug)]
pub struct List {
    /// List only read-only images.
    pub ro: bool,
    /// List images by type.
    pub type_field: Option<String>,
    /// List images by name pattern.
    pub pattern: Option<String>,
}

/// `images start`
#[derive(Clone, Debug)]
pub struct Start {
    /// Start all images.
    pub all: bool,
    /// Start images matching the pattern.
    pub pattern: Option<String>,
    /// Start an image by name.
    pub machine: Option<String>,
}

/// `images remove`
#[derive(Clone, Debug)]
pub struct Remove {
    /// Remove all images.
    pub all: bool,
    /// Remove images matching the pattern.
    pub pattern: Option<String>,
    /// Name of the image to remove.
    pub image: Option<String>,
}

/// `images set`
#[derive(Clone, Debug)]
pub struct SetMode {
    /// Set image to read-only.
    pub read_only: bool,
    /// Set image to read-write.
    pub read_write: bool,
    /// Name of the image to set properties for.
    pub image: String,
}

/// `images clone`
#[derive(Clone, Debug)]
pub struct Clone {
    /// Name of the image to clone.
    pub current_image: String,
    /// Name of the new image.
    pub new_image: String,
}

/// `images rename`
#[derive(Clone, Debug)]
pub struct Rename {
    /// Name of the image to rename.
    pub current_image: String,
    /// New name of the image.
    pub new_image: String,
}

/// `images remote`
#[derive(Clone, Debug)]
pub struct Remote {
    pub remote_ops: RemoteOps,
}

/// The commands on remote images.
#[derive(Clone, Debug)]
pub enum RemoteOps {
    /// List remote images
    List(RemoteList),
    /// Import remote images
    Import(RemoteImport),
}

/// `images remote list`
#[derive(Clone, Debug)]
pub struct RemoteList {
    /// List images by name pattern. Accepted, and not applied.
    pub pattern: Option<String>,
    /// Server to list images from; the default server where there is none.
    pub server: Option<String>,
}

/// `images remote import`
#[derive(Clone, Debug)]
pub struct RemoteImport {
    /// Remote name of the image to import, as the remote listing gives it.
    pub remote_name: String,
    /// Local name of the new image; made from the remote name where there
    /// is none.
    pub local_name: Option<String>,
    /// Server to import from; the default server where there is none.
    pub server: Option<String>,
}

} // verus!
