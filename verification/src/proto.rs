//! Types of the local daemon API shared by the daemon and its clients.

pub mod v1;
