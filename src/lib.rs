//! Finds, across a set of git repositories, the most recent commit by a given
//! author that introduced a `.php` file.
pub mod aggregate;
pub mod backend;
pub mod classify;
pub mod locate;
pub mod locator;
pub mod report;
pub mod scan;
pub mod text;
