//! Guards for state that is set up once.

pub mod init;
