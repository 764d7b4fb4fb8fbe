//! Generation of package control files for binary and source packages.
use vstd::prelude::*;

pub mod binary;
pub mod relation;
pub mod source;
pub mod text;

pub use binary::{
    BinaryDebControl, BinaryDebControlBuilder, BinaryEdit, BinaryFields, BinaryOptional, BinaryText,
};
pub use relation::Relation;
pub use source::{
    SourceDebControl, SourceDebControlBuilder, SourceEdit, SourceFields, SourceOptional, SourceText,
};

verus! {

/// How a record is laid out as text.
#[derive(Clone, Copy, Debug, PartialEq, Eq)]
pub enum RenderPolicy {
    /// Every field keeps a fixed place: an absent optional field leaves a blank line,
    /// and each list is a blank line followed by one `Label: entry` line per entry.
    FixedSlots,
    /// Only what is there: optional fields appear when present, and each non-empty
    /// list is one line of entries joined by `", "`.
    Compact,
}

/// A failure to produce a control file's text. Both layouts of this library are
/// total, so no render here returns it; callers match on it in results.
#[derive(Debug)]
pub enum DebControlError {
    /// The text could not be laid out; the payload says why.
    TemplateRenderError(String),
}

/// Entry points that start a builder from a record's identifying name.
pub struct DebControlBuilder {}

impl DebControlBuilder {
    /// A source record builder with the source name set.
    pub fn source_package_builder(name: &str) -> (r: SourceDebControlBuilder)
        ensures
            r@ == SourceFields::empty().apply(SourceEdit::Text(SourceText::Source, name@)),
    {
        SourceDebControl::builder().source(name)
    }

    /// A binary record builder with the package name set.
    pub fn binary_package_builder(name: &str) -> (r: BinaryDebControlBuilder)
        ensures
            r@ == BinaryFields::empty().apply(BinaryEdit::Text(BinaryText::Package, name@)),
    {
        BinaryDebControl::builder().package(name)
    }
}

} // verus!
