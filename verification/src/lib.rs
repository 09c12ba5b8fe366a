pub mod grid;
pub mod tally;
pub mod sim;
