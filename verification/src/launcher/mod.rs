//! The launcher's configuration file and its mapping onto the cluster
//! configuration that the `ray` command line tool reads.

pub mod commands;
pub mod convert;
pub mod instances;
pub mod ssh;
pub mod load;
