pub mod text;
pub mod validation;
pub mod git;
pub mod output;
pub mod traits;
pub mod rank;
pub mod tally;
pub mod interactive;
pub mod safety;
