pub mod d1;
pub mod board;
