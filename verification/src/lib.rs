//! Safe, verified core of the ViZDoom bindings.
//!
//! The engine itself lives behind the ViZDoom C ABI. This crate holds what the
//! bindings decide on their own: the typed mirrors of the engine's enums and
//! their integer encodings, the mapping from C status codes onto typed errors,
//! the encoding of string arguments as C strings, and the interpretation of
//! every answer the C ABI gives. Each operation of [`DoomGame`] and
//! [`GameState`] receives the raw C call as a closure over the handle it
//! owns, so the contracts say exactly which arguments go to the engine and how
//! each possible answer becomes the returned value.

mod enums;
mod error;
mod game;
mod state;
mod status;
mod text;

pub use enums::{AutomapMode, Button, GameVariable, Mode, SamplingRate, ScreenFormat, ScreenResolution};
pub use error::{check, Error, ErrorView};
pub use game::DoomGame;
pub use state::GameState;
pub use status::{Reply, VzdStatus};
pub use text::{bytes_to_cstring, to_cstring};
