//! Search for the open issues that carry a label in a language: the request
//! for each page of the search, the reading of the page that comes back, the
//! issues as they are shown, and the run over the pages.
//!
//! The library sends and prints nothing. Its contracts are stated over the
//! characters of strings and over views of its records, and are proved.

pub mod driver;
pub mod http;
pub mod json;
pub mod model;
pub mod text;
pub mod timestamp;
