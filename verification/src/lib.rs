//! Fetching one Advent of Code puzzle and rendering it as markdown: the rules
//! that decide which puzzle is meant, what is asked of the server and how the
//! rendered articles are put together, each with a proved contract.

pub mod articles;
pub mod clock;
pub mod day;
pub mod decimal;
pub mod error;
pub mod markdown;
pub mod request;
