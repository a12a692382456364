pub mod command;
pub mod direction;
pub mod game;
pub mod point;
pub mod random;
pub mod render;
pub mod snake;
