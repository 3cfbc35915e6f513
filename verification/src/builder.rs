pub use crate::metadata::MetadataBuilder;
pub use crate::player::PlayerBuilder;
