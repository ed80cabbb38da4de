//! The data-source adapter: typed handles over the icu locale-data machinery
//! and the trusted boundary through which the resolver queries it.
//!
//! Everything the resolver learns from icu is pinned by uninterpreted spec
//! functions: the bytes a provider serves (`provider_blob`, `source_blob`),
//! the identity of a parsed locale (`locale_ident`, `canon_tag`), and what a
//! skeleton catalog holds at a key (`payload_entry`, `blob_entry`,
//! `builtin_entry`). Each trusted wrapper states its outcome over those
//! names, so every result is a function of blob bytes, locale tag and key.

use vstd::prelude::*;
use icu_provider::AsDeserializingBufferProvider;
use crate::{LoadError, MyError};
use crate::reduce::{FieldKind, PatternPiece, reduce_pattern};
use crate::resolve::{lookup_resolve, resolve_matches};
use crate::tag::{gregorian_tag, gregorian_tag_bytes};

verus! {

#[verifier::external_type_specification]
#[verifier::external_body]
pub struct ExLocale(icu::locid::Locale);

#[verifier::external_type_specification]
#[verifier::external_body]
pub struct ExBlobDataProvider(icu_provider_blob::BlobDataProvider);

#[verifier::external_type_specification]
#[verifier::external_body]
#[verifier::reject_recursive_types(P)]
pub struct ExLocaleFallbackProvider<P>(icu_provider_adapters::fallback::LocaleFallbackProvider<P>);

#[verifier::external_type_specification]
#[verifier::external_body]
pub struct ExPatternItem(icu_datetime::pattern::PatternItem);

/// A loaded skeleton payload. The payload type carries a marker-trait bound
/// the verifier cannot declare, so this handle hides it; what it holds at
/// each key is named by `payload_entry`.
#[verifier::external_body]
pub struct SkeletonPayload {
    payload: icu_provider::DataPayload<
        icu_datetime::provider::calendar::DateSkeletonPatternsV1Marker,
    >,
}

/// A loaded Gregorian date-lengths payload, kept as an opaque diagnostic
/// handle: the resolver never reads it, it only reports whether the data
/// is there.
#[verifier::external_body]
pub struct LengthsPayload {
    payload: icu_provider::DataPayload<
        icu_datetime::provider::calendar::GregorianDateLengthsV1Marker,
    >,
}

/// What a skeleton catalog holds at one key, as plain values: nothing, a
/// set of plural-keyed patterns, or a single pattern's items.
pub ghost enum SkeletonEntry {
    Absent,
    Plural,
    Single(Seq<PatternPiece>),
}

/// The blob bytes a `BlobDataProvider` serves from: what the provider holds.
pub uninterp spec fn provider_blob(p: icu_provider_blob::BlobDataProvider) -> Seq<u8>;

/// The blob bytes behind a fallback-wrapped blob provider: what it holds.
pub uninterp spec fn source_blob(
    p: icu_provider_adapters::fallback::LocaleFallbackProvider<
        icu_provider_blob::BlobDataProvider,
    >,
) -> Seq<u8>;

/// The identity of a parsed `Locale` value: its canonical tag.
pub uninterp spec fn locale_ident(l: icu::locid::Locale) -> Seq<u8>;

/// The canonical form `Locale::try_from_bytes` gives to a well-formed tag.
pub uninterp spec fn canon_tag(tag: Seq<u8>) -> Seq<u8>;

/// Whether `BlobDataProvider::try_new_from_blob` accepts the bytes as a
/// locale-data blob.
pub uninterp spec fn blob_parses(blob: Seq<u8>) -> bool;

/// Whether `LocaleFallbackProvider::try_new_with_buffer_provider` finds the
/// locale-fallback rules inside the blob.
pub uninterp spec fn fallback_rules_present(blob: Seq<u8>) -> bool;

/// Whether `Locale::try_from_bytes` accepts the bytes as a locale
/// identifier.
pub uninterp spec fn locale_wf(tag: Seq<u8>) -> bool;

/// Whether the blob carries the datetime-skeletons data category at all:
/// `DataProvider::load` reports its absence as a missing data key, before
/// any locale is considered.
pub uninterp spec fn blob_has_schema(blob: Seq<u8>) -> bool;

/// Whether the blob yields a skeleton catalog for the locale, either
/// directly or through a fallback ancestor.
pub uninterp spec fn blob_has_locale(blob: Seq<u8>, tag: Seq<u8>) -> bool;

/// Whether the compiled-in data yields a skeleton catalog for the locale,
/// either directly or through a fallback ancestor.
pub uninterp spec fn builtin_has_locale(tag: Seq<u8>) -> bool;

/// Whether the compiled-in data yields Gregorian date-lengths for the
/// locale, either directly or through a fallback ancestor.
pub uninterp spec fn builtin_has_lengths(tag: Seq<u8>) -> bool;

/// What a loaded Gregorian date-lengths payload holds, abstracted to its
/// canonical serialized bytes. The resolver never reads the contents; the
/// name only ties a payload handed back to the data it was loaded from.
pub uninterp spec fn lengths_data(p: LengthsPayload) -> Seq<u8>;

/// What the compiled-in Gregorian date-lengths data holds for the locale
/// (directly or through a fallback ancestor), in the same serialized form.
pub uninterp spec fn builtin_lengths(tag: Seq<u8>) -> Seq<u8>;

/// Whether `SkeletonV1::try_from` accepts the key as a skeleton: every
/// symbol is a known field symbol, no field symbol is duplicated, and each
/// symbol run has a representable length.
pub uninterp spec fn key_accepted(key: Seq<char>) -> bool;

/// What the blob's catalog for the locale holds at the key.
pub uninterp spec fn blob_entry(blob: Seq<u8>, tag: Seq<u8>, key: Seq<char>) -> SkeletonEntry;

/// What the compiled-in catalog for the locale holds at the key.
pub uninterp spec fn builtin_entry(tag: Seq<u8>, key: Seq<char>) -> SkeletonEntry;

/// What a loaded skeleton payload holds at the key.
pub uninterp spec fn payload_entry(p: SkeletonPayload, key: Seq<char>) -> SkeletonEntry;

/// What the catalog identified by `origin` (blob bytes, or the compiled-in
/// data when absent) holds for `tag` at `key`.
pub open spec fn entry_of(origin: Option<Seq<u8>>, tag: Seq<u8>, key: Seq<char>) -> SkeletonEntry {
    match origin {
        Some(blob) => blob_entry(blob, tag, key),
        None => builtin_entry(tag, key),
    }
}

/// How a lookup outcome reports a catalog entry.
pub open spec fn matches_entry(r: SkeletonLookup, e: SkeletonEntry) -> bool {
    &&& (r is Absent <==> e is Absent)
    &&& (r is Plural <==> e is Plural)
    &&& (r is Found <==> e is Single)
    &&& (r is Found ==> (r->Found_0)@ == e->Single_0)
}

/// A parsed locale. Its view is the canonical tag the locale stands for.
pub struct ICU4XLocale {
    pub(crate) locale: icu::locid::Locale,
}

impl View for ICU4XLocale {
    type V = Seq<u8>;

    closed spec fn view(&self) -> Seq<u8> {
        locale_ident(self.locale)
    }
}

/// A loaded data source: a deserializing blob provider wrapped in the
/// locale-fallback layer. Its view is the blob it was built from; once
/// built it answers queries as a pure function of those bytes.
pub struct DataSource {
    pub(crate) provider: icu_provider_adapters::fallback::LocaleFallbackProvider<
        icu_provider_blob::BlobDataProvider,
    >,
}

impl View for DataSource {
    type V = Seq<u8>;

    closed spec fn view(&self) -> Seq<u8> {
        source_blob(self.provider)
    }
}

/// A skeleton catalog for one locale and the Gregorian calendar. `origin`
/// tells which data it came from: `Some(blob)` for a blob-backed source,
/// `None` for the compiled-in data.
pub struct SkeletonCatalog {
    pub(crate) payload: SkeletonPayload,
    pub(crate) origin_g: Ghost<Option<Seq<u8>>>,
    pub(crate) tag_g: Ghost<Seq<u8>>,
}

impl SkeletonCatalog {
    pub closed spec fn origin(&self) -> Option<Seq<u8>> {
        self.origin_g@
    }

    pub closed spec fn tag(&self) -> Seq<u8> {
        self.tag_g@
    }

    /// The catalog's payload answers every key as the data it came from
    /// does. Established by the loaders, needed by `skeleton_for_key`.
    pub closed spec fn wf(&self) -> bool {
        forall|k: Seq<char>|
            #[trigger] payload_entry(self.payload, k) == entry_of(self.origin(), self.tag(), k)
    }
}

/// The outcome of looking a key up in a catalog.
pub enum SkeletonLookup {
    InvalidKey,
    Absent,
    Plural,
    Found(Vec<PatternPiece>),
}

/// Relies on `BlobDataProvider::try_new_from_blob`: it deserializes the
/// blob's index and succeeds exactly when the bytes form a valid
/// locale-data blob; the provider then serves from those bytes.
#[verifier::external_body]
pub(crate) fn raw_blob_provider(blob: &Vec<u8>) -> (r: Option<icu_provider_blob::BlobDataProvider>)
    ensures
        r is Some <==> blob_parses(blob@),
        r is Some ==> provider_blob(r->Some_0) == blob@,
{
    icu_provider_blob::BlobDataProvider::try_new_from_blob(blob.clone().into_boxed_slice()).ok()
}

/// Relies on `LocaleFallbackProvider::try_new_with_buffer_provider`: it
/// loads the fallback rules from the wrapped provider and succeeds exactly
/// when the blob carries them; the result serves from the same bytes.
#[verifier::external_body]
pub(crate) fn wrap_fallback(p: icu_provider_blob::BlobDataProvider) -> (r: Option<
    icu_provider_adapters::fallback::LocaleFallbackProvider<icu_provider_blob::BlobDataProvider>,
>)
    ensures
        r is Some <==> fallback_rules_present(provider_blob(p)),
        r is Some ==> source_blob(r->Some_0) == provider_blob(p),
{
    icu_provider_adapters::fallback::LocaleFallbackProvider::try_new_with_buffer_provider(p).ok()
}

/// Relies on `Locale::try_from_bytes`: it parses a locale identifier,
/// succeeding exactly when the bytes form one, and the parse is a pure
/// function of the bytes.
#[verifier::external_body]
pub(crate) fn locale_from_tag(tag: &Vec<u8>) -> (r: Option<icu::locid::Locale>)
    ensures
        r is Some <==> locale_wf(tag@),
        r is Some ==> locale_ident(r->Some_0) == canon_tag(tag@),
{
    icu::locid::Locale::try_from_bytes(tag.as_slice()).ok()
}

/// Relies on `DataProvider::load` of the fallback layer over the
/// deserializing blob provider, and on `DataResponse::take_payload`: the
/// query walks the fallback chain and yields the locale's skeleton payload
/// exactly when one is present; payload and outcome are functions of the
/// blob bytes and the locale alone. A blob without the datetime-skeletons
/// category fails with a missing data key before any locale is tried, and
/// is reported apart; every other failure is reported as the locale
/// missing.
#[verifier::external_body]
pub(crate) fn load_payload_blob(src: &DataSource, loc: &ICU4XLocale) -> (r: Result<
    SkeletonPayload,
    MyError,
>)
    ensures
        !blob_has_schema(src@) ==> r is Err && r->Err_0 == MyError::SchemaMismatch,
        blob_has_schema(src@) ==> (r is Ok <==> blob_has_locale(src@, loc@)),
        blob_has_schema(src@) && r is Err ==> r->Err_0 == MyError::MissingLocale,
        r is Ok ==> forall|k: Seq<char>|
            #[trigger] payload_entry(r->Ok_0, k) == blob_entry(src@, loc@, k),
{
    let req = icu_provider::DataRequest {
        locale: &icu_provider::DataLocale::from(&loc.locale),
        metadata: Default::default(),
    };
    let provider = src.provider.as_deserializing();
    let resp: Result<
        icu_provider::DataResponse<icu_datetime::provider::calendar::DateSkeletonPatternsV1Marker>,
        icu_provider::DataError,
    > = icu_provider::DataProvider::load(&provider, req);
    match resp.and_then(|p| p.take_payload()) {
        Ok(p) => Ok(SkeletonPayload { payload: p }),
        Err(e) if e.kind == icu_provider::DataErrorKind::MissingDataKey => Err(MyError::SchemaMismatch),
        Err(_) => Err(MyError::MissingLocale),
    }
}

/// Relies on `DataProvider::load` of the compiled-in provider
/// (`icu_datetime::provider::Baked`), which walks the compiled fallback
/// chain itself, and on `DataResponse::take_payload`: the query yields the
/// locale's skeleton payload exactly when the compiled data covers the
/// locale or an ancestor; payload and outcome are functions of the locale
/// alone.
#[verifier::external_body]
pub(crate) fn load_payload_builtin(loc: &ICU4XLocale) -> (r: Option<
    SkeletonPayload,
>)
    ensures
        r is Some <==> builtin_has_locale(loc@),
        r is Some ==> forall|k: Seq<char>|
            #[trigger] payload_entry(r->Some_0, k) == builtin_entry(loc@, k),
{
    let req = icu_provider::DataRequest {
        locale: &icu_provider::DataLocale::from(&loc.locale),
        metadata: Default::default(),
    };
    let resp: Result<
        icu_provider::DataResponse<icu_datetime::provider::calendar::DateSkeletonPatternsV1Marker>,
        icu_provider::DataError,
    > = icu_provider::DataProvider::load(&icu_datetime::provider::Baked, req);
    resp.and_then(|p| p.take_payload()).ok().map(|p| SkeletonPayload { payload: p })
}

/// Relies on `DataProvider::load` of the compiled-in provider for the
/// Gregorian date-lengths data, which walks the compiled fallback chain
/// itself, and on `DataResponse::take_payload`: it succeeds exactly when
/// the compiled data covers the locale or an ancestor.
#[verifier::external_body]
pub(crate) fn load_lengths_builtin(loc: &ICU4XLocale) -> (r: Option<LengthsPayload>)
    ensures
        r is Some <==> builtin_has_lengths(loc@),
        r is Some ==> lengths_data(r->Some_0) == builtin_lengths(loc@),
{
    let req = icu_provider::DataRequest {
        locale: &icu_provider::DataLocale::from(&loc.locale),
        metadata: Default::default(),
    };
    let resp: Result<
        icu_provider::DataResponse<
            icu_datetime::provider::calendar::GregorianDateLengthsV1Marker,
        >,
        icu_provider::DataError,
    > = icu_provider::DataProvider::load(&icu_datetime::provider::Baked, req);
    resp.and_then(|p| p.take_payload()).ok().map(|p| LengthsPayload { payload: p })
}

/// Converts one icu pattern item into the library's form: a field symbol is
/// collapsed to its day/month/year head, any other symbol to the catch-all
/// kind; a literal keeps its character. Called only by `payload_lookup`,
/// whose contract speaks for the converted items.
#[verifier::external_body]
fn piece_of_item(item: icu_datetime::pattern::PatternItem) -> PatternPiece {
    match item {
        icu_datetime::pattern::PatternItem::Literal(c) => PatternPiece::Literal(c),
        icu_datetime::pattern::PatternItem::Field(f) => PatternPiece::Field(match f.symbol {
            icu_datetime::fields::FieldSymbol::Day(_) => FieldKind::Day,
            icu_datetime::fields::FieldSymbol::Month(_) => FieldKind::Month,
            icu_datetime::fields::FieldSymbol::Year(_) => FieldKind::Year,
            _ => FieldKind::Other,
        }),
    }
}

/// Relies on `SkeletonV1::try_from`, which accepts the key exactly when it
/// forms a skeleton, and on the payload's keyed lookup (`LiteMap::get`),
/// which finds the entry and tells a single pattern from a plural-keyed
/// set; `piece_of_item` converts the pattern's items. The key parser
/// counts a symbol run in one byte, so a run of 256 equal symbols
/// overflows it: keys that long are left out here and rejected by the
/// caller before the call.
#[verifier::external_body]
pub(crate) fn payload_lookup(p: &SkeletonPayload, key: &str) -> (r: SkeletonLookup)
    requires
        key@.len() < 256,
    ensures
        r is InvalidKey <==> !key_accepted(key@),
        key_accepted(key@) ==> matches_entry(r, payload_entry(*p, key@)),
{
    let sk = match icu_datetime::provider::calendar::SkeletonV1::try_from(key) {
        Ok(k) => k,
        Err(_) => return SkeletonLookup::InvalidKey,
    };
    match p.payload.get().0.get(&sk) {
        None => SkeletonLookup::Absent,
        Some(icu_datetime::pattern::runtime::PatternPlurals::MultipleVariants(_)) => {
            SkeletonLookup::Plural
        },
        Some(icu_datetime::pattern::runtime::PatternPlurals::SinglePattern(pat)) => {
            SkeletonLookup::Found(pat.items.iter().map(piece_of_item).collect())
        },
    }
}


// ---------------------------------------------------------------------------
// Verified composition over the trusted boundary.
// ---------------------------------------------------------------------------

impl DataSource {
    /// Build a data source from blob bytes: deserialize the blob, then wrap
    /// the provider in the locale-fallback layer, reading the fallback
    /// rules from the blob itself.
    pub fn load(blob: &Vec<u8>) -> (r: Result<DataSource, LoadError>)
        ensures
            r is Ok <==> blob_parses(blob@) && fallback_rules_present(blob@),
            r is Ok ==> r->Ok_0@ == blob@,
            r is Err ==> (r->Err_0 == LoadError::BlobMalformed <==> !blob_parses(blob@)),
            r is Err ==> (r->Err_0 == LoadError::MissingFallbackRules <==> blob_parses(blob@)
                && !fallback_rules_present(blob@)),
    {
        let raw = match raw_blob_provider(blob) {
            Some(p) => p,
            None => {
                return Err(LoadError::BlobMalformed);
            },
        };
        match wrap_fallback(raw) {
            Some(p) => Ok(DataSource { provider: p }),
            None => Err(LoadError::MissingFallbackRules),
        }
    }
}

impl ICU4XLocale {
    /// Parse a locale code, canonicalizing underscores and pinning the
    /// calendar to Gregorian before the parse.
    pub fn parse_gregorian(code: &Vec<u8>) -> (r: Result<ICU4XLocale, MyError>)
        ensures
            r is Ok <==> locale_wf(gregorian_tag(code@)),
            r is Ok ==> r->Ok_0@ == canon_tag(gregorian_tag(code@)),
            r is Err ==> r->Err_0 == MyError::ParseFailure,
    {
        let tag = gregorian_tag_bytes(code);
        match locale_from_tag(&tag) {
            Some(l) => Ok(ICU4XLocale { locale: l }),
            None => Err(MyError::ParseFailure),
        }
    }
}

/// Load the skeleton catalog of a blob-backed source for a locale.
pub fn load_skeleton_catalog(source: &DataSource, loc: &ICU4XLocale) -> (r: Result<
    SkeletonCatalog,
    MyError,
>)
    ensures
        !blob_has_schema(source@) ==> r is Err && r->Err_0 == MyError::SchemaMismatch,
        blob_has_schema(source@) ==> (r is Ok <==> blob_has_locale(source@, loc@)),
        blob_has_schema(source@) && r is Err ==> r->Err_0 == MyError::MissingLocale,
        r is Ok ==> r->Ok_0.wf() && r->Ok_0.origin() == Some(source@) && r->Ok_0.tag() == loc@,
{
    match load_payload_blob(source, loc) {
        Ok(p) => Ok(
            SkeletonCatalog { payload: p, origin_g: Ghost(Some(source@)), tag_g: Ghost(loc@) },
        ),
        Err(e) => Err(e),
    }
}

/// Load the skeleton catalog of the compiled-in data for a locale.
pub fn load_skeleton_catalog_builtin(loc: &ICU4XLocale) -> (r: Result<SkeletonCatalog, MyError>)
    ensures
        r is Ok <==> builtin_has_locale(loc@),
        r is Ok ==> r->Ok_0.wf() && r->Ok_0.origin() is None && r->Ok_0.tag() == loc@,
        r is Err ==> r->Err_0 == MyError::MissingLocale,
{
    match load_payload_builtin(loc) {
        Some(p) => Ok(SkeletonCatalog { payload: p, origin_g: Ghost(None), tag_g: Ghost(loc@) }),
        None => Err(MyError::MissingLocale),
    }
}

impl SkeletonCatalog {
    /// Look a skeleton key up in the catalog and reduce the pattern found.
    pub fn skeleton_for_key(&self, key: &str) -> (r: Result<String, MyError>)
        requires
            self.wf(),
        ensures
            resolve_matches(lookup_resolve(self.origin(), self.tag(), key@), r),
    {
        if key.unicode_len() >= 256 {
            return Err(MyError::InvalidKey);
        }
        match payload_lookup(&self.payload, key) {
            SkeletonLookup::InvalidKey => Err(MyError::InvalidKey),
            SkeletonLookup::Absent => Err(MyError::MissingSkeletonEntry),
            SkeletonLookup::Plural => Err(MyError::PluralVariantPattern),
            SkeletonLookup::Found(items) => Ok(reduce_pattern(&items)),
        }
    }
}

impl ICU4XLocale {
    /// Fetch the raw Gregorian date-lengths payload and the skeleton
    /// payload for this locale from the compiled-in data, as opaque
    /// handles for a caller that wants to inspect them.
    pub fn get_data_payload(&self) -> (r: Result<(LengthsPayload, SkeletonPayload), MyError>)
        ensures
            r is Ok <==> builtin_has_lengths(self@) && builtin_has_locale(self@),
            r is Ok ==> lengths_data(r->Ok_0.0) == builtin_lengths(self@),
            r is Ok ==> forall|k: Seq<char>|
                #[trigger] payload_entry(r->Ok_0.1, k) == builtin_entry(self@, k),
            r is Err ==> r->Err_0 == MyError::MissingLocale,
    {
        let lengths = match load_lengths_builtin(self) {
            Some(p) => p,
            None => {
                return Err(MyError::MissingLocale);
            },
        };
        match load_payload_builtin(self) {
            Some(p) => Ok((lengths, p)),
            None => Err(MyError::MissingLocale),
        }
    }
}

} // verus!

