//! Core logic of a chat-bot command dispatcher, centred on an
//! adaptive-termination paginated history scanner: it pages backward through
//! a channel's message history, extracts media links from each message, and
//! decides per page and per message when to stop.
//!
//! The scanner lives in [`request`], [`history`], [`state`] and [`scan`],
//! with its laws proved in [`laws`] and its user-facing rendering in
//! [`report`].  The remaining modules hold the exact parts of the other
//! commands: language codes for translation ([`lang`], [`translate`]),
//! unit recognition and conversion planning ([`units`]), gallery identifier
//! parsing and tag layout ([`gallery`]), page lookup ([`tldr`]), weather
//! and uptime rendering ([`weather`], [`system`]), and reply paging
//! ([`pagination`]), all on the shared text building blocks of [`text`].

pub mod error;
pub mod gallery;
pub mod history;
pub mod lang;
pub mod laws;
pub mod pagination;
pub mod report;
pub mod request;
pub mod scan;
pub mod state;
pub mod system;
pub mod text;
pub mod tldr;
pub mod translate;
pub mod units;
pub mod weather;
