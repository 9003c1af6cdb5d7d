//! Fixed yearly fractal rotation: calendar normalisation onto a 366-slot year,
//! a forward-only decoder for the schedule text, and the rating rules that
//! score each day's instabilities for a boss or a fractal.

pub mod color;
pub mod date;
pub mod fractal;
pub mod instab;
pub mod opt;
pub mod parse;
pub mod rating;
pub mod set;
pub mod text;

pub use date::Date;
pub use fractal::Fractal;
pub use instab::Instability;
pub use opt::Opts;
pub use parse::{Parsable, Schedule};
pub use rating::{Boss, Rateable, Rater, Rating};
pub use set::{HasInstabs, RotationSet, Searchable};
