//! Scheduling of the weekly Elite Atomic tournament: when the next one starts,
//! which time control it is played with, and what the creation request and the
//! platform's answer to it mean.

pub mod api;
pub mod date;
pub mod decimal;
pub mod tournament;
