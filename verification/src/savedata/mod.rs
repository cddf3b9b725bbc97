//! Save data of the game client: gear sets, character presets and chat logs.

/// Reading and writing character data (`FFXIV_CHARA_XX.DAT`) files which are used in the
/// character creator to save presets.
pub mod chardat;

/// The header of dat-based files.
pub mod dat;

/// Reading and writing the content of gear set (`GEARSET.DAT`) files which are used to store
/// a character's gear sets.
pub mod gearsets;

/// Reading chat log (`.LOG`) files.
pub mod log;
