pub mod governor;
pub mod proposal;
