//! Per-scheme primitives.
//!
//! Each submodule exposes four functions for one scheme: `encrypt`,
//! `encrypt_into`, `decrypt` and `decrypt_into`. The `_into` forms append
//! to a caller's buffer and leave it unchanged on error.

pub mod dsiv;
pub mod dgcmsiv;
mod gcmsiv;
pub mod psiv;
pub mod pgcmsiv;
pub mod mock1;
pub mod mock2;
