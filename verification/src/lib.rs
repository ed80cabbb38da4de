//! A locale-resolving skeleton-pattern extractor.
//!
//! Given a locale-data source, a locale code such as `en_US`, and a date
//! skeleton key such as `dMy`, the library resolves the locale's pattern for
//! that skeleton and reduces it to a compact letter string: one `d`, `M` or
//! `y` per date field, other fields dropped, literal separators kept verbatim.

use vstd::prelude::*;

mod provider;
mod reduce;
mod resolve;
mod tag;

pub use provider::{
    DataSource, ICU4XLocale, LengthsPayload, SkeletonCatalog, SkeletonEntry, SkeletonLookup,
    SkeletonPayload, blob_entry, blob_has_schema, builtin_has_lengths, builtin_lengths,
    blob_has_locale, blob_parses, builtin_entry, builtin_has_locale, canon_tag, entry_of,
    lengths_data,
    fallback_rules_present, key_accepted, load_skeleton_catalog, load_skeleton_catalog_builtin,
    locale_wf, matches_entry, payload_entry,
};
pub use reduce::{
    FieldKind, PatternPiece, dmy_letters, field_letters, is_dmy_letter, kind_count,
    lemma_dmy_letters_concat, lemma_letter_count, lemma_letter_order, lemma_literals_preserved,
    lemma_occurrences_concat, lemma_one_of_each_letter, lemma_reduce_concat, lemma_reduce_push,
    lemma_unknown_fields_dropped, letter_of, no_dmy_literals, occurrences, piece_chars,
    reduce_pattern, reduce_spec, without_other_fields,
};
pub use resolve::{
    builtin_resolve_spec, get_date_skeleton_for_key, lemma_output_letter_order,
    lemma_output_one_of_each_letter, lemma_resolver_deterministic,
    lemma_same_pattern_same_output, lookup_resolve, resolve_matches, resolve_spec,
};
pub use tag::{hyphenate, gregorian_suffix, gregorian_tag, gregorian_tag_bytes};

verus! {

/// The failures the resolver surfaces instead of panicking.
///
/// Only `MissingLocale` is expected in normal operation: it reports that
/// neither the requested locale nor any fallback ancestor is present in the
/// data. The other variants report misuse or malformed data and correspond
/// to conditions a caller should treat as fatal.
#[derive(Clone, Copy, Debug, PartialEq, Eq, Structural)]
pub enum MyError {
    /// The locale is absent from the data, even after fallback.
    MissingLocale,
    /// The locale code does not parse as a locale identifier.
    ParseFailure,
    /// The key is not accepted as a skeleton: it holds an unknown field
    /// symbol, repeats a field symbol, uses a symbol run too long to
    /// represent, or exceeds the length the resolver accepts.
    InvalidKey,
    /// The catalog loaded but holds no entry for the skeleton key.
    MissingSkeletonEntry,
    /// The catalog entry is a set of plural-keyed patterns, which date
    /// skeletons never use.
    PluralVariantPattern,
    /// The blob does not carry the datetime-skeletons data category.
    SchemaMismatch,
}

/// The failures of building a data source from blob bytes. The harness
/// treats both as fatal; the library reports them so that it never panics.
#[derive(Clone, Copy, Debug, PartialEq, Eq, Structural)]
pub enum LoadError {
    /// The bytes do not deserialize as a locale-data blob.
    BlobMalformed,
    /// The blob carries no locale-fallback rules.
    MissingFallbackRules,
}

} // verus!
