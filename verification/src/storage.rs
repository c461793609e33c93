use vstd::prelude::*;

verus! {

/// One entry of the generic key-value storage format: a self-describing,
/// variable-length union with a kind discriminant.
///
/// The hash type claims only the `Buf` variant; the scalar variants stand in
/// for the rest of the union so that a caller can hand any entry kind to a
/// decoder and get a typed rejection back.
#[derive(Debug, Clone, PartialEq, Eq)]
pub enum StorageEntry {
    /// An unsigned scalar entry.
    U64(u64),
    /// A boolean entry.
    Bool(bool),
    /// A buffer of bytes of arbitrary length.
    Buf(Vec<u8>),
}

/// Spec-level shape of a storage entry.
pub enum EntryView {
    U64(u64),
    Bool(bool),
    Buf(Seq<u8>),
}

impl View for StorageEntry {
    type V = EntryView;

    open spec fn view(&self) -> EntryView {
        match self {
            StorageEntry::U64(v) => EntryView::U64(*v),
            StorageEntry::Bool(v) => EntryView::Bool(*v),
            StorageEntry::Buf(v) => EntryView::Buf(v@),
        }
    }
}

} // verus!
