//! The decisions of a low-noise review gate: what is asked, what is read out of the answers, and
//! what is done with a review.
pub mod chars;
pub mod config;
pub mod github;
pub mod ignore;
pub mod json;
pub mod local;
pub mod openrouter;
pub mod review;
pub mod run;
pub mod text;
