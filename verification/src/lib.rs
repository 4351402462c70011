//! Staking of Metaplex Core assets: users lock an asset of one collection,
//! earn reward points per second while it is locked, and claim the points as
//! tokens. The library holds the program's state, the rules of every
//! instruction as functions from account state to new account state, and the
//! byte layout of the cross-program calls it makes to the Core program.
pub mod error;
pub mod instructions;
pub mod mpl_core;
pub mod state;
pub mod steps;
pub mod calls;
pub mod lifecycle;
