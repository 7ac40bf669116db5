//! A harvester for OAI-PMH repositories.
//!
//! The library holds the logic of a harvest: how request URLs are built,
//! how continuation state is read out of a response, and the harvest
//! engine, a state machine that decides after each response what to fetch,
//! persist or report next. Performing the requests and writing files is left
//! to the caller, which feeds the outcome of each action back as an event.
pub mod request;
pub mod extract;
pub mod naming;
pub mod engine;
