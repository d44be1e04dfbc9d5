//! Replays a browser's saved session cookies against a search service:
//! cookie selection, per-identity request campaigns, the multi-profile run,
//! the once-a-day run gate and the outcome message.

pub mod campaign;
pub mod cookies;
pub mod gate;
pub mod report;
pub mod run;
