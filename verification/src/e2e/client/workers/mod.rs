//! The decisions of the client's workers
//!
//! The workers of the asynchronous client read from and write to the server; what they
//! decide on the way stands here, and the caller runs their loops.

pub mod receive;
