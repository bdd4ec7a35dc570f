//! The metadata block of a dictionary archive and the reads the host makes of it.
use vstd::prelude::*;

verus! {

/// One localized display title of an archive, tagged with an optional language code.
#[derive(Clone, Debug)]
pub struct Title {
    pub lang: Option<String>,
    pub value: String,
}

/// The metadata block of an archive: its locale code and its display titles, in order.
#[derive(Clone, Debug)]
pub struct ArchiveInfo {
    pub locale: String,
    pub titles: Vec<Title>,
}

/// Whether a title is tagged with exactly the given language code.
pub open spec fn tagged_with(t: Title, code: Seq<char>) -> bool {
    match t.lang {
        Some(l) => l@ == code,
        None => false,
    }
}

/// The value of the first title at index `i` or later that is tagged with `code`.
pub open spec fn first_tagged_from(titles: Seq<Title>, code: Seq<char>, i: int) -> Option<Seq<char>>
    decreases titles.len() - i,
{
    if i < 0 || i >= titles.len() {
        None
    } else if tagged_with(titles[i], code) {
        Some(titles[i].value@)
    } else {
        first_tagged_from(titles, code, i + 1)
    }
}

/// The display title chosen for a locale: the first title tagged with the locale
/// code, else the first title of the list, else nothing (an empty list).
pub open spec fn display_title(titles: Seq<Title>, code: Seq<char>) -> Option<Seq<char>> {
    match first_tagged_from(titles, code, 0) {
        Some(v) => Some(v),
        None => if titles.len() > 0 {
            Some(titles[0].value@)
        } else {
            None
        },
    }
}

/// The locale code of an optional metadata block.
pub open spec fn locale_spec(info: Option<ArchiveInfo>) -> Option<Seq<char>> {
    match info {
        Some(m) => Some(m.locale@),
        None => None,
    }
}

/// The display title of an optional metadata block, chosen for its own locale.
pub open spec fn locale_name_spec(info: Option<ArchiveInfo>) -> Option<Seq<char>> {
    match info {
        Some(m) => display_title(m.titles@, m.locale@),
        None => None,
    }
}

/// The character sequence held by an optional string.
pub open spec fn opt_chars(s: Option<String>) -> Option<Seq<char>> {
    match s {
        Some(v) => Some(v@),
        None => None,
    }
}

/// Picks the display title for the locale `code` among `titles`.
pub fn select_title(code: &String, titles: &Vec<Title>) -> (r: Option<String>)
    ensures
        opt_chars(r) == display_title(titles@, code@),
{
    let mut i: usize = 0;
    while i < titles.len()
        invariant
            i <= titles.len(),
            first_tagged_from(titles@, code@, 0) == first_tagged_from(titles@, code@, i as int),
        decreases titles.len() - i,
    {
        let t = &titles[i];
        let hit = match &t.lang {
            Some(l) => l.eq(code),
            None => false,
        };
        if hit {
            return Some(t.value.clone());
        }
        i = i + 1;
    }
    if titles.len() > 0 {
        Some(titles[0].value.clone())
    } else {
        None
    }
}

/// The locale code of an archive's metadata, or `None` where the archive has no
/// metadata block.
pub fn locale_of(info: &Option<ArchiveInfo>) -> (r: Option<String>)
    ensures
        opt_chars(r) == locale_spec(*info),
{
    match info {
        Some(m) => Some(m.locale.clone()),
        None => None,
    }
}

/// The display title of an archive's metadata for its own locale, or `None`
/// where the archive has no metadata block or the block lists no title.
pub fn locale_name_of(info: &Option<ArchiveInfo>) -> (r: Option<String>)
    ensures
        opt_chars(r) == locale_name_spec(*info),
{
    match info {
        Some(m) => select_title(&m.locale, &m.titles),
        None => None,
    }
}

proof fn lemma_first_tagged_at(titles: Seq<Title>, code: Seq<char>, i: int, k: int)
    requires
        0 <= i <= k < titles.len(),
        tagged_with(titles[k], code),
        forall|j: int| i <= j < k ==> !tagged_with(#[trigger] titles[j], code),
    ensures
        first_tagged_from(titles, code, i) == Some(titles[k].value@),
    decreases k - i,
{
    if i < k {
        lemma_first_tagged_at(titles, code, i + 1, k);
    }
}

proof fn lemma_none_tagged_from(titles: Seq<Title>, code: Seq<char>, i: int)
    requires
        0 <= i,
        forall|j: int| i <= j < titles.len() ==> !tagged_with(#[trigger] titles[j], code),
    ensures
        first_tagged_from(titles, code, i) is None,
    decreases titles.len() - i,
{
    if i < titles.len() {
        lemma_none_tagged_from(titles, code, i + 1);
    }
}

/// The display title of a locale is the value of the first title tagged with
/// the locale code; where no title carries that tag, it is the first title.
pub proof fn lemma_display_title_rule(titles: Seq<Title>, code: Seq<char>)
    ensures
        forall|k: int|
            0 <= k < titles.len() && tagged_with(titles[k], code) && (forall|j: int|
                0 <= j < k ==> !tagged_with(#[trigger] titles[j], code)) ==> display_title(titles, code)
                == Some(#[trigger] titles[k].value@),
        (forall|j: int| 0 <= j < titles.len() ==> !tagged_with(#[trigger] titles[j], code))
            && titles.len() > 0 ==> display_title(titles, code) == Some(titles[0].value@),
{
    assert forall|k: int|
        0 <= k < titles.len() && tagged_with(titles[k], code) && (forall|j: int|
            0 <= j < k ==> !tagged_with(#[trigger] titles[j], code)) implies display_title(titles, code)
        == Some(#[trigger] titles[k].value@) by {
        lemma_first_tagged_at(titles, code, 0, k);
    }
    if forall|j: int| 0 <= j < titles.len() ==> !tagged_with(#[trigger] titles[j], code) {
        lemma_none_tagged_from(titles, code, 0);
    }
}

/// An archive without a metadata block has neither a locale code nor a display
/// title: both reads yield the explicit "no metadata" outcome.
pub proof fn lemma_no_metadata()
    ensures
        locale_spec(None) is None,
        locale_name_spec(None) is None,
{
}

/// The locale code and the display title depend on the metadata block alone:
/// the same archive always gives the same answers.
pub proof fn lemma_metadata_reads_deterministic(a: Option<ArchiveInfo>, b: Option<ArchiveInfo>)
    requires
        a == b,
    ensures
        locale_spec(a) == locale_spec(b),
        locale_name_spec(a) == locale_name_spec(b),
{
}

} // verus!
