//! Verified core of a personal relationship tracker's AI-assisted
//! interaction-ingestion pipeline: audio sample conditioning, prompt
//! construction, defensive decoding of model replies, an interactive
//! review state machine, fuzzy entity resolution, and the correction
//! feedback records that are replayed as few-shot context.

use vstd::prelude::*;

pub mod audio;
pub mod command;
pub mod dates;
pub mod interaction;
pub mod jsonread;
pub mod jsonwrite;
pub mod medium;
pub mod parser;
pub mod person;
pub mod pipeline;
pub mod prompt;
pub mod resolver;
pub mod review;
pub mod strutil;
pub mod validation;

pub use medium::InteractionMedium;

verus! {

} // verus!
