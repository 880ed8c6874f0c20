//! What is particular to single services: which of several resources of one
//! name is meant, and where URL segments and resource names part ways.

pub mod core_flavors;
pub mod desc_flavors;
pub mod update_flavors;
