//! The bibliography of an edition, written in hayagriva's YAML format.

use vstd::prelude::*;
use std::str::FromStr;
use crate::feed::opt_text;
use crate::press::{BiblioEntry, BiblioEntryView, EntryKind, biblio_views};

verus! {

/// Whether hayagriva reads `text` as a formattable string (it refuses, for
/// one, a closing brace without an opening one).
pub uninterp spec fn format_string_accepted(text: Seq<char>) -> bool;

/// Whether hayagriva reads `text` as an absolute URL.
pub uninterp spec fn qualified_url_accepted(text: Seq<char>) -> bool;

/// The YAML text that hayagriva writes for a library made of these entries,
/// each a web page with its key, title and URL, pushed in order; `None`
/// where its serializer reports an error.
pub uninterp spec fn bibliography_yaml(entries: Seq<BiblioEntryView>) -> Option<Seq<char>>;

/// Tests a title with `<hayagriva::types::FormatString as FromStr>::from_str`.
/// Trusted: the result is whether that function returns `Ok` for the text.
#[verifier::external_body]
fn title_accepted(title: &str) -> (ok: bool)
    ensures
        ok == format_string_accepted(title@),
{
    hayagriva::types::FormatString::from_str(title).is_ok()
}

/// Tests a URL with `<hayagriva::types::QualifiedUrl as FromStr>::from_str`.
/// Trusted: the result is whether that function returns `Ok` for the text.
#[verifier::external_body]
fn url_accepted(url: &str) -> (ok: bool)
    ensures
        ok == qualified_url_accepted(url@),
{
    hayagriva::types::QualifiedUrl::from_str(url).is_ok()
}

/// Builds a `hayagriva::Library` of one web entry per bibliography entry
/// (`Entry::new` with the key, `set_title`, `set_url`, `Library::push`) and
/// writes it with `hayagriva::io::to_yaml_str`.
/// Trusted: the result is what [`bibliography_yaml`] names for the entries:
/// the serialized text, or `None` where the serializer returns an error. The
/// titles and URLs are read as the two tests above accept them.
#[verifier::external_body]
fn hayagriva_yaml(entries: &Vec<BiblioEntry>) -> (yaml: Option<String>)
    requires
        forall|i: int| 0 <= i < entries@.len() ==> readable(#[trigger] biblio_views(entries@)[i]),
    ensures
        opt_text(yaml) == bibliography_yaml(biblio_views(entries@)),
{
    let mut library = hayagriva::Library::new();
    for b in entries.iter() {
        let kind = match b.entry_type { EntryKind::Web => hayagriva::types::EntryType::Web };
        let mut entry = hayagriva::Entry::new(&b.key, kind);
        entry.set_title(hayagriva::types::FormatString::from_str(&b.title).expect("accepted"));
        entry.set_url(hayagriva::types::QualifiedUrl::from_str(&b.url).expect("accepted"));
        library.push(&entry);
    }
    hayagriva::io::to_yaml_str(&library).ok()
}

/// Why a bibliography could not be written.
#[derive(Clone, Copy, Debug, PartialEq, Eq, Structural)]
pub enum BibliographyError {
    /// The title of entry `i` is not a readable formattable string.
    UnreadableTitle(usize),
    /// The URL of entry `i` is not an absolute URL.
    UnreadableUrl(usize),
    /// The serializer failed.
    Serialization,
}

/// Whether hayagriva can take an entry's title and URL.
pub open spec fn readable(e: BiblioEntryView) -> bool {
    format_string_accepted(e.title) && qualified_url_accepted(e.url)
}

/// The first entry, from `i` on, that hayagriva cannot take: its title is
/// looked at before its URL.
pub open spec fn first_unreadable(entries: Seq<BiblioEntryView>, i: nat) -> Option<BibliographyError>
    decreases entries.len() - i,
{
    if i >= entries.len() {
        None
    } else if !format_string_accepted(entries[i as int].title) {
        Some(BibliographyError::UnreadableTitle(i as usize))
    } else if !qualified_url_accepted(entries[i as int].url) {
        Some(BibliographyError::UnreadableUrl(i as usize))
    } else {
        first_unreadable(entries, i + 1)
    }
}

/// Writes the bibliography of entries that hayagriva can all read: the YAML
/// text of a hayagriva library holding one web entry per bibliography entry,
/// in order; `None` where the serializer fails.
pub fn write_bibliography(entries: &Vec<BiblioEntry>) -> (yaml: Option<String>)
    requires
        forall|i: int| 0 <= i < entries@.len() ==> readable(#[trigger] biblio_views(entries@)[i]),
    ensures
        opt_text(yaml) == bibliography_yaml(biblio_views(entries@)),
{
    hayagriva_yaml(entries)
}

/// Writes the bibliography of an edition: fails at the first entry whose
/// title or URL hayagriva cannot read, and otherwise gives the text
/// [`write_bibliography`] writes, or the serializer's failure.
pub fn render_bibliography(entries: &Vec<BiblioEntry>) -> (yaml: Result<String, BibliographyError>)
    ensures
        match first_unreadable(biblio_views(entries@), 0) {
            Some(e) => yaml == Err::<String, BibliographyError>(e),
            None => match bibliography_yaml(biblio_views(entries@)) {
                Some(text) => yaml matches Ok(y) && y@ == text,
                None => yaml == Err::<String, BibliographyError>(BibliographyError::Serialization),
            },
        },
{
    let ghost views = biblio_views(entries@);
    let n = entries.len();
    let mut i: usize = 0;
    while i < n
        invariant
            n == entries@.len(),
            views == biblio_views(entries@),
            i <= n,
            forall|j: int| 0 <= j < i ==> readable(#[trigger] views[j]),
            first_unreadable(views, 0) == first_unreadable(views, i as nat),
        decreases n - i,
    {
        assert(views[i as int] == entries@[i as int]@);
        if !title_accepted(entries[i].title.as_str()) {
            return Err(BibliographyError::UnreadableTitle(i));
        }
        if !url_accepted(entries[i].url.as_str()) {
            return Err(BibliographyError::UnreadableUrl(i));
        }
        assert(readable(views[i as int]));
        i = i + 1;
    }
    match write_bibliography(entries) {
        Some(y) => Ok(y),
        None => Err(BibliographyError::Serialization),
    }
}

} // verus!
