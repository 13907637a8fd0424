pub mod official;
pub mod video;
