//! Typed extraction of Notion pages and the decisions of their synchronisation
//! into a blog's relational store.

pub mod entity;
pub mod error;
pub mod json;
pub mod notion;
pub mod text;
