//! What lives on the grid: the snake and its food.

pub mod food;
pub mod snake;
