//! Text recognition over batches of images, in the order of the images.
//!
//! The library decides; it does not run the recognition engine, read an
//! image or write a file. Whoever drives the engine asks it what the library
//! needs to know and hands the answers over:
//!
//! - [`tess_lib::TesseractApi::new`] makes the handle of an engine from its
//!   tuning parameters, and [`tess_lib::TesseractApi::confirm_init`] takes the
//!   engine's answer to the request to initialise.
//! - [`tess_lib::TesseractApi::iter_through_img`] turns the engine's answers
//!   for a batch of images into one outcome for each image, at the position
//!   of the image. An image that fails does not stop the others.
//! - [`outcome::successful_texts`] keeps the texts of the images that were
//!   read, and [`tess_lib::TesseractApi::save_doc`] prepares the document
//!   that holds them.
//! - [`tess_lib::TesseractApi::recognize_doc`] does all of this in one call.
//!
//! What each function returns is stated in its contract and proved. What is
//! taken on trust about other crates is the queue of futures in [`queue`] and
//! the lenient reading of bytes in [`utils`].

pub mod constanst;
pub mod document;
pub mod engine;
pub mod errors;
pub mod file_types;
pub mod outcome;
pub mod queue;
pub mod tess_lib;
pub mod utils;
