//! Panic messages for humans.
//!
//! Intercepts unrecoverable process failures and turns them into two
//! artifacts: a durable, machine-greppable crash log block and a concise,
//! friendly message for the terminal. The formatting pipeline is pure and
//! carries contracts that pin the rendered text down exactly.

use vstd::prelude::*;

pub mod hook;
pub mod message;
pub mod report;
pub mod text;
pub mod walker;

verus! {

/// A convenient metadata struct that describes a crate.
///
/// Created once at interceptor-installation time from build-time
/// configuration; read-only thereafter. Authors and homepage may be empty,
/// in which case the user-facing message omits their lines.
pub struct Metadata {
    /// The crate version
    pub version: String,
    /// The crate name
    pub name: String,
    /// The list of authors of the crate
    pub authors: String,
    /// The URL of the crate's website
    pub homepage: String,
}

/// The mathematical view of [`Metadata`]: each text field as a character
/// sequence.
pub ghost struct MetadataView {
    pub version: Seq<char>,
    pub name: Seq<char>,
    pub authors: Seq<char>,
    pub homepage: Seq<char>,
}

impl View for Metadata {
    type V = MetadataView;

    open spec fn view(&self) -> MetadataView {
        MetadataView {
            version: self.version@,
            name: self.name@,
            authors: self.authors@,
            homepage: self.homepage@,
        }
    }
}

} // verus!
