//! The operations on a pool, one module each.

pub mod init_pool;
pub mod liquidity;
pub mod swap;
