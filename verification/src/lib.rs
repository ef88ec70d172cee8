//! A verified core for a Pixelflut server: a shared raster canvas with
//! dirty-pixel tracking, a triple-buffered frame handoff between the
//! network writers and the presentation reader, per-worker state, and the
//! line-oriented wire protocol (parsing, command semantics, execution).
//!
//! Process bootstrap, sockets and the presentation frontends live outside
//! this crate; they drive the types defined here through plain values.

pub mod canvas;
pub mod config;
pub mod dirty;
pub mod framing;
pub mod game;
pub mod linebuf;
pub mod pixel;
pub mod protocol;
pub mod state;
pub mod triple_buffer;

pub use canvas::Coord;
pub use canvas::PixelflutImage;
pub use config::Config;
pub use game::PixelflutGame;
pub use pixel::parse_hex1;
pub use pixel::parse_hex2;
pub use pixel::parse_rgba;
pub use pixel::RGBAPixel;
pub use protocol::PixelflutClient;
pub use protocol::PixelflutCommand;
pub use state::PixelflutGlobalConfig;
pub use state::PixelflutIOWorkerState;
pub use triple_buffer::PixelflutTripleBuffer;
