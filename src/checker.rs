//! The handle the host holds for one opened archive.
use vstd::prelude::*;
use crate::metadata::{ArchiveInfo, locale_of, locale_name_of, locale_spec, locale_name_spec, opt_chars};
use crate::task::{PendingResponse, Query, SuggestConfig, DEFAULT_SUGGESTION_COUNT};

verus! {

/// What the library keeps of an opened archive: its metadata block, read once
/// at open time and never changed, and the settings of its suggestion queries.
/// The engine resource itself is shared with the background work beside it.
pub struct SpellChecker {
    info: Option<ArchiveInfo>,
    config: SuggestConfig,
}

impl SpellChecker {
    /// The archive's metadata block, if it has one.
    pub closed spec fn info_spec(&self) -> Option<ArchiveInfo> {
        self.info
    }

    /// The settings every suggestion query of this handle carries.
    pub closed spec fn config_spec(&self) -> SuggestConfig {
        self.config
    }

    /// A handle over an archive with the given metadata and the default
    /// suggestion settings (ten best, capitalization-aware).
    pub fn new(info: Option<ArchiveInfo>) -> (r: SpellChecker)
        ensures
            r.info_spec() == info,
            r.config_spec().n_best == DEFAULT_SUGGESTION_COUNT,
            r.config_spec().recase,
    {
        SpellChecker { info, config: SuggestConfig::standard() }
    }

    /// A handle over an archive with the given metadata and suggestion settings.
    pub fn with_config(info: Option<ArchiveInfo>, config: SuggestConfig) -> (r: SpellChecker)
        ensures
            r.info_spec() == info,
            r.config_spec() == config,
    {
        SpellChecker { info, config }
    }

    /// The settings every suggestion query of this handle carries.
    pub fn config(&self) -> (r: SuggestConfig)
        ensures
            r == self.config_spec(),
    {
        self.config
    }

    /// The archive's locale code, or `None` where it has no metadata block.
    pub fn locale(&self) -> (r: Option<String>)
        ensures
            opt_chars(r) == locale_spec(self.info_spec()),
    {
        locale_of(&self.info)
    }

    /// The archive's display title for its own locale: the first title tagged
    /// with the locale code, else the first title; `None` where the archive has
    /// no metadata block or the block lists no title.
    pub fn locale_name(&self) -> (r: Option<String>)
        ensures
            opt_chars(r) == locale_name_spec(self.info_spec()),
    {
        locale_name_of(&self.info)
    }

    /// A pending correctness check of `word`, to be performed in the background.
    pub fn is_correct(&self, word: String) -> (r: PendingResponse)
        ensures
            r.query_spec() == Query::Check(word),
            !r.is_resolved(),
    {
        PendingResponse::new(Query::Check(word))
    }

    /// A pending suggestion query for `word` with this handle's settings, to be
    /// performed in the background.
    pub fn suggest(&self, word: String) -> (r: PendingResponse)
        ensures
            r.query_spec() == Query::Suggest(word, self.config_spec()),
            !r.is_resolved(),
    {
        PendingResponse::new(Query::Suggest(word, self.config))
    }
}

} // verus!
