//! Detects the programming language of an untitled editor buffer from its
//! content, by scoring how well each candidate grammar explains a sample of
//! the text, and decides when such a detection should run.

pub mod content_type;
pub mod coverage;
pub mod scoring;
pub mod syntax;
pub mod detector;
pub mod magika_detector;
