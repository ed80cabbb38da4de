//! The orchestrator: compose locale parsing, catalog loading, key lookup
//! and pattern reduction into the locale-resolving skeleton-pattern
//! extractor, with one exact contract over the trusted names.

use vstd::prelude::*;
use crate::MyError;
use crate::provider::{
    DataSource, ICU4XLocale, SkeletonEntry, blob_entry, blob_has_locale, blob_has_schema,
    builtin_has_locale, canon_tag, entry_of, key_accepted, load_skeleton_catalog,
    load_skeleton_catalog_builtin, locale_wf,
};
use crate::reduce::{
    FieldKind, dmy_letters, field_letters, kind_count, lemma_letter_order,
    lemma_one_of_each_letter, no_dmy_literals, occurrences, reduce_spec,
};
use crate::tag::gregorian_tag;

verus! {

/// What looking `key` up in the catalog identified by `origin` and `tag`
/// yields: the reduced pattern, or the failure owed for that key. A key of
/// 256 characters or more is rejected outright: no skeleton is that long,
/// and the underlying key parser counts a symbol run in one byte.
pub open spec fn lookup_resolve(origin: Option<Seq<u8>>, tag: Seq<u8>, key: Seq<char>) -> Result<
    Seq<char>,
    MyError,
> {
    if key.len() >= 256 || !key_accepted(key) {
        Result::Err(MyError::InvalidKey)
    } else {
        match entry_of(origin, tag, key) {
            SkeletonEntry::Absent => Result::Err(MyError::MissingSkeletonEntry),
            SkeletonEntry::Plural => Result::Err(MyError::PluralVariantPattern),
            SkeletonEntry::Single(items) => Result::Ok(reduce_spec(items)),
        }
    }
}

/// What resolving `code` and `key` against a blob-backed source yields: the
/// reduced pattern, or the failure owed for those inputs.
pub open spec fn resolve_spec(blob: Seq<u8>, code: Seq<u8>, key: Seq<char>) -> Result<
    Seq<char>,
    MyError,
> {
    let tag = gregorian_tag(code);
    if !locale_wf(tag) {
        Result::Err(MyError::ParseFailure)
    } else if !blob_has_schema(blob) {
        Result::Err(MyError::SchemaMismatch)
    } else if !blob_has_locale(blob, canon_tag(tag)) {
        Result::Err(MyError::MissingLocale)
    } else {
        lookup_resolve(Some(blob), canon_tag(tag), key)
    }
}

/// What resolving `key` against the compiled-in data yields for the locale
/// whose canonical tag is `tag`.
pub open spec fn builtin_resolve_spec(tag: Seq<u8>, key: Seq<char>) -> Result<Seq<char>, MyError> {
    if !builtin_has_locale(tag) {
        Result::Err(MyError::MissingLocale)
    } else {
        lookup_resolve(None, tag, key)
    }
}

/// How an executable result reports a specified one: same case, same error,
/// and the same characters on success.
pub open spec fn resolve_matches(s: Result<Seq<char>, MyError>, r: Result<String, MyError>) -> bool {
    &&& (r is Ok <==> s is Ok)
    &&& (r is Ok ==> r->Ok_0@ == s->Ok_0)
    &&& (r is Err ==> r->Err_0 == s->Err_0)
}

/// Resolve a locale code and skeleton key against a blob-backed data
/// source: parse the code with the Gregorian calendar pinned, load the
/// locale's skeleton catalog (with fallback), look the key up, and reduce
/// the pattern found to its compact letter string.
pub fn get_date_skeleton_for_key(source: &DataSource, locale_code: &Vec<u8>, key: &str) -> (r:
    Result<String, MyError>)
    ensures
        resolve_matches(resolve_spec(source@, locale_code@, key@), r),
{
    let loc = match ICU4XLocale::parse_gregorian(locale_code) {
        Ok(l) => l,
        Err(e) => {
            return Err(e);
        },
    };
    let cat = match load_skeleton_catalog(source, &loc) {
        Ok(c) => c,
        Err(e) => {
            return Err(e);
        },
    };
    cat.skeleton_for_key(key)
}

impl ICU4XLocale {
    /// Resolve a date skeleton key against the compiled-in data for this
    /// locale, and reduce the pattern found.
    pub fn get_date_skeleton_for_key(&self, key: &str) -> (r: Result<String, MyError>)
        ensures
            resolve_matches(builtin_resolve_spec(self@, key@), r),
    {
        let cat = match load_skeleton_catalog_builtin(self) {
            Ok(c) => c,
            Err(e) => {
                return Err(e);
            },
        };
        cat.skeleton_for_key(key)
    }

    /// Resolve a time skeleton key the same way: the catalog keys date and
    /// time skeletons alike.
    pub fn get_time_skeleton_for_key(&self, key: &str) -> (r: Result<String, MyError>)
        ensures
            resolve_matches(builtin_resolve_spec(self@, key@), r),
    {
        let cat = match load_skeleton_catalog_builtin(self) {
            Ok(c) => c,
            Err(e) => {
                return Err(e);
            },
        };
        cat.skeleton_for_key(key)
    }
}

/// The resolver is a pure function of blob contents, locale code and
/// skeleton key: any two results its contract admits for the same inputs
/// agree, case for case and character for character.
pub proof fn lemma_resolver_deterministic(
    blob: Seq<u8>,
    code: Seq<u8>,
    key: Seq<char>,
    r1: Result<String, MyError>,
    r2: Result<String, MyError>,
)
    requires
        resolve_matches(resolve_spec(blob, code, key), r1),
        resolve_matches(resolve_spec(blob, code, key), r2),
    ensures
        r1 is Ok <==> r2 is Ok,
        r1 is Ok ==> r1->Ok_0@ == r2->Ok_0@,
        r1 is Err ==> r1->Err_0 == r2->Err_0,
{
}

/// Field width is not observable: two accepted skeleton keys that the
/// catalog maps to the same pattern — such as keys differing only in how
/// often a field symbol repeats — produce the same reduced output.
pub proof fn lemma_same_pattern_same_output(blob: Seq<u8>, code: Seq<u8>, k1: Seq<char>, k2: Seq<
    char,
>)
    requires
        k1.len() < 256,
        k2.len() < 256,
        key_accepted(k1),
        key_accepted(k2),
        blob_entry(blob, canon_tag(gregorian_tag(code)), k1) == blob_entry(
            blob,
            canon_tag(gregorian_tag(code)),
            k2,
        ),
    ensures
        resolve_spec(blob, code, k1) == resolve_spec(blob, code, k2),
{
}

/// When the pattern a skeleton key resolves to holds exactly one day
/// field, one month field and one year field, and no literal spells `d`,
/// `M` or `y`, the resolver succeeds with exactly one of each of those
/// letters in its output — as the day+month+year skeleton's data does.
pub proof fn lemma_output_one_of_each_letter(blob: Seq<u8>, code: Seq<u8>, key: Seq<char>)
    requires
        locale_wf(gregorian_tag(code)),
        blob_has_schema(blob),
        blob_has_locale(blob, canon_tag(gregorian_tag(code))),
        key.len() < 256,
        key_accepted(key),
        blob_entry(blob, canon_tag(gregorian_tag(code)), key) is Single,
        no_dmy_literals(blob_entry(blob, canon_tag(gregorian_tag(code)), key)->Single_0),
        kind_count(
            blob_entry(blob, canon_tag(gregorian_tag(code)), key)->Single_0,
            FieldKind::Day,
        ) == 1,
        kind_count(
            blob_entry(blob, canon_tag(gregorian_tag(code)), key)->Single_0,
            FieldKind::Month,
        ) == 1,
        kind_count(
            blob_entry(blob, canon_tag(gregorian_tag(code)), key)->Single_0,
            FieldKind::Year,
        ) == 1,
    ensures
        resolve_spec(blob, code, key) is Ok,
        occurrences(resolve_spec(blob, code, key)->Ok_0, 'd') == 1,
        occurrences(resolve_spec(blob, code, key)->Ok_0, 'M') == 1,
        occurrences(resolve_spec(blob, code, key)->Ok_0, 'y') == 1,
{
    let items = blob_entry(blob, canon_tag(gregorian_tag(code)), key)->Single_0;
    lemma_one_of_each_letter(items);
}

/// The `d`, `M`, `y` letters of a successful output appear exactly in the
/// order of the day, month and year fields of the locale's pattern — the
/// order the locale's data prescribes — provided no literal spells one of
/// those letters.
pub proof fn lemma_output_letter_order(blob: Seq<u8>, code: Seq<u8>, key: Seq<char>)
    requires
        locale_wf(gregorian_tag(code)),
        blob_has_schema(blob),
        blob_has_locale(blob, canon_tag(gregorian_tag(code))),
        key.len() < 256,
        key_accepted(key),
        blob_entry(blob, canon_tag(gregorian_tag(code)), key) is Single,
        no_dmy_literals(blob_entry(blob, canon_tag(gregorian_tag(code)), key)->Single_0),
    ensures
        resolve_spec(blob, code, key) is Ok,
        dmy_letters(resolve_spec(blob, code, key)->Ok_0) == field_letters(
            blob_entry(blob, canon_tag(gregorian_tag(code)), key)->Single_0,
        ),
{
    let items = blob_entry(blob, canon_tag(gregorian_tag(code)), key)->Single_0;
    lemma_letter_order(items);
}

} // verus!
