//! Archiving of a single post of a federated posting service: the rules that
//! decide what is requested, what is written and where, as a state machine
//! that a driver feeds with the outcome of each outside action.

pub mod errors;
pub mod layout;
pub mod media;
pub mod pipeline;
pub mod plan;
pub mod post_information;
pub mod reference;
pub mod session;
pub mod thread;

pub use crate::errors::Errors;
pub use crate::media::MediaType;
pub use crate::pipeline::{Action, Event, Pipeline, Stage};
pub use crate::post_information::{Post, PostInformation};
pub use crate::reference::{extract_post_reference, PostReference};
