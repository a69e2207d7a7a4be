//! A small task store over an embedded SQLite database: a schema manager
//! that creates the `todos` table and adds its nullable due-date column to
//! tables from before that column existed, and a repository with the four
//! operations the UI shell calls: create, list, update a completion flag,
//! delete.  Every operation's effect is stated against a mathematical view
//! of the table's columns and rows.

pub mod db;
pub mod laws;
pub mod repo;
pub mod schema;
pub mod table;
pub mod todo;
