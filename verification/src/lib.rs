//! The model of Erydian, a designer for relational database schemas: schema
//! documents and their tables and columns, what each database dialect
//! offers, and the decisions behind the editing views.

pub mod actions;
pub mod dialect;
pub mod model;
pub mod settings;
pub mod text;
pub mod view;
