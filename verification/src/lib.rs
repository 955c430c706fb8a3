//! Weather gateway core: a time-bounded response cache, a deterministic
//! wire-format encoder for weather snapshots, an icon classifier, and a
//! coordinate parser.

pub mod errors;
pub mod textfmt;
pub mod timefmt;
pub mod model;
pub mod icons;
pub mod encoder;
pub mod cache;
pub mod coords;
pub mod provider;
