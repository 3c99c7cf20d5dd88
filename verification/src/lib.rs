//! Task and template bookkeeping with an urgency ranking.
//!
//! The crate keeps tasks and reusable templates in memory, applies the
//! lifecycle commands to them, and ranks pending work by how soon it is due
//! and how large it is.  Reading and writing the collections is left to the
//! caller, who hands a [`store::Store`] to each command.
//!
//! Effort is counted in whole hundredths of an hour and days are counted
//! from 0001-01-01, so that every quantity is an integer and the urgency of a
//! task is an exact fraction.
//!
//! The functions carry contracts that Verus proves.  The calls into `chrono`
//! and the few operations of std on strings that Verus does not read stand in
//! [`dates`] and [`text`], each with what is taken of it on trust.

pub mod text;
pub mod models;
pub mod store;
pub mod dates;
pub mod templates;
pub mod commands;
pub mod urgency;
pub mod ranking;
pub mod storage;
pub mod dashboard;
pub mod grouping;
pub mod listing;
pub mod keys;
pub mod laws;
