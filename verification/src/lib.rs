//! Turns the chapters of a book into Word documents.
//!
//! A book is a root directory and a sequence of chapters. Each document of a
//! list names glob patterns; the chapters whose paths they match are
//! selected ([`document`], [`pattern`]), their text is joined, and the
//! result is handed to a converter together with the options that the
//! document's fields stand for ([`pandoc`], [`path`], [`convert`]). Files
//! to prepend and to append are merged around the converted chapters in a
//! second job. The converter itself runs outside this library: [`run`]
//! names one job at a time and takes the converter's outcome back, and it
//! stops at the first failure ([`error`]). [`laws`] states what holds of
//! all of this for every book and every list. [`style`] holds the styles
//! that sections of a document can be set in.

pub mod book;
pub mod convert;
pub mod document;
pub mod error;
pub mod laws;
pub mod pandoc;
pub mod path;
pub mod pattern;
pub mod run;
pub mod style;
