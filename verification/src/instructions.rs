pub mod endorse_video;
pub mod register_official;
pub mod register_video;
