//! The verified core of a personal book catalogue.
//!
//! The heart of it is the acquisition of a book's metadata from outside
//! providers: a local command-line tool and an online bibliographic service.
//! Nothing here touches the outside world. A fetch is a value that names the
//! next piece of outside work and takes what came of it; whoever drives it
//! runs the program, sends the requests and reads the files.
//!
//! - [`config`]: which providers are enabled, and the validation at startup.
//! - [`metadata`]: the common record, the providers and the facade over them.
//! - [`series`]: the report on ongoing series and their missing volumes.
//! - [`pages`]: the pages of the navigation bar.

pub mod config;
pub mod metadata;
pub mod pages;
pub mod series;
