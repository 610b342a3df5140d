//! A recipe service's logic: requests to add a recipe from a web page, a
//! picture or a text are resolved to a text, structured by a language
//! model, given a picture, stored and reported on. What the service does
//! outside itself is left to whoever drives it; what it decides is here.

pub mod batch;
pub mod chars;
pub mod extract;
pub mod imaging;
pub mod lists;
pub mod model;
pub mod ocr;
pub mod pipeline;
pub mod scrape;
pub mod service;
pub mod settings;
pub mod store;
pub mod update;
pub mod vision;
