//! Resource trees of Google Cloud services, from their discovery documents.
//!
//! A discovery document describes a service as a set of methods with URL
//! templates, grouped into resources that are nested in one another, or,
//! for some services, all declared at the top level. This crate turns such
//! a document into a tree of resources in which every resource has a
//! canonical dotted path ([`update`]), and resolves a dotted path that a
//! user gives, in full or only by its end, to one resource of the tree
//! ([`api`]). Around this core it has what a command-line tool needs to
//! list ([`list`]), describe ([`desc`]) and call ([`exec`]) the methods of
//! a service.
//!
//! Every function states what it returns over a mathematical model of its
//! arguments, and is proved to meet that statement. What holds of several
//! functions together is stated and proved in [`laws`]. What is taken on
//! trust of other crates is gathered in [`outside`].

pub mod api;
pub mod desc;
pub mod discovery;
pub mod exec;
pub mod flavors;
pub mod json;
pub mod laws;
pub mod list;
pub mod outside;
pub mod sorting;
pub mod supported_apis;
pub mod text;
pub mod update;
