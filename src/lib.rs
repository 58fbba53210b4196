//! Keeps the lockfiles of local project checkouts up to date: decides per
//! repository whether it is safe to touch, whether the refresh changed
//! anything, and which credential to offer when pushing the result.

pub mod credentials;
pub mod methods;
pub mod status;
pub mod workflow;
