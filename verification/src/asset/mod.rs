//! Bookkeeping of the game's own asset formats: model hierarchies, meshes,
//! animations, textures and texture atlases.

pub mod model;
pub mod mesh;
pub mod pairing;
pub mod texture;
pub mod spawner;
