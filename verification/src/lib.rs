//! Screen recording to animated GIF: the decisions of the portal negotiation,
//! the recording session, the GIF conversion and the tool server, with their
//! contracts.
pub mod mcp;
pub mod portal;
pub mod recorder;
pub mod text;
pub mod ui;
pub mod variant;
