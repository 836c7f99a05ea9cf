//! A codec for the fixed-layout binary game scheme format: a typed model of
//! every field of a scheme file, and functions that turn a byte buffer into
//! that model and back, each with a contract that says which bytes give
//! which value.
//!
//! `Scheme::from_bytes` decodes and `Scheme::to_bytes` encodes. The laws that
//! tie the two together are proof functions of `Scheme`.

pub mod error;
pub mod extended;
pub mod fixed;
pub mod flag;
pub mod header;
pub mod options;
pub mod rubberworm;
pub mod scheme;
pub mod tags;
pub mod weapons;
pub mod wire;

pub use crate::error::{DecodeError, Field};
pub use crate::extended::ExtendedOptions;
pub use crate::fixed::FixedPoint;
pub use crate::flag::Flag;
pub use crate::header::Header;
pub use crate::options::Options;
pub use crate::rubberworm::RubberwormOptions;
pub use crate::scheme::Scheme;
pub use crate::tags::WireEnum;
pub use crate::weapons::{SuperWeapons, Weapon, Weapons};
