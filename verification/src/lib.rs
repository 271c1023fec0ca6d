//! Verified core of the CachyOS Hello "tweaks" and "DNS connections" pages:
//! the bookkeeping of enabled systemd units, the decisions taken when a
//! tweak is toggled, and the table of public DNS servers with the lookups
//! that the DNS page makes in it.
use vstd::prelude::*;

pub mod dns;
pub mod text;
pub mod toggle;
pub mod tweaks;
pub mod units;
