//! Staging, validation and batch commit of draft inventory records.
//!
//! A draft record is four texts typed into an entry form. Drafts wait in a
//! staging list until the whole batch is committed: each draft is converted
//! into a typed record, every record is written on its own, and the batch ends
//! with one summary of what failed.

pub mod buttons;
pub mod callbacks;
pub mod commit;
pub mod date;
pub mod food_item;
pub mod item;
pub mod number;
pub mod quit;
pub mod staging;
pub mod text;
