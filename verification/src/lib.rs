pub mod game;
pub mod geom;
