//! What the library is for, said of its operations in terms of what they are given and
//! what they give back.
pub mod details;
pub mod dispatch;
pub mod figures;
pub mod hub;
pub mod offers;
pub mod pads;
pub mod prompts;
pub mod questions;
pub mod reconcile;
pub mod retry;
pub mod running;
pub mod sights;
pub mod texts;
pub mod tools;
pub mod turns;
pub mod words;
pub mod work;
