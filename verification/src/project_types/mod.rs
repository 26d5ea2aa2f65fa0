//! What is known of each kind of project: where its version is written and
//! how it is rewritten.

pub mod rust;
