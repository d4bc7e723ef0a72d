//! Scripts on the server: their records, and the faults that running or
//! checking one reports.

pub mod crud;
pub mod exec;
