//! Printed editions: listing them, naming their files, removing them.

use vstd::prelude::*;
use crate::clock::{Moment, datable, format_utc_timestamp, utc_timestamp_text};
use crate::seqs::{lemma_filter_membership, lemma_filter_push, lemma_filter_twice};
use crate::text::{decimal, ends_with, has_suffix, push_decimal};

verus! {

/// One printed edition: its file, when it was made, its size, its page
/// count and its thumbnail image.
pub struct EditionEntry {
    pub name: String,
    pub date: String,
    pub size: String,
    pub pages: usize,
    pub img: String,
}

/// All editions found.
pub struct Editions {
    pub editions: Vec<EditionEntry>,
}

/// The mathematical value of an [`EditionEntry`].
pub struct EditionEntryView {
    pub name: Seq<char>,
    pub date: Seq<char>,
    pub size: Seq<char>,
    pub pages: usize,
    pub img: Seq<char>,
}

impl View for EditionEntry {
    type V = EditionEntryView;

    open spec fn view(&self) -> EditionEntryView {
        EditionEntryView {
            name: self.name@,
            date: self.date@,
            size: self.size@,
            pages: self.pages,
            img: self.img@,
        }
    }
}

/// The views of a list of edition entries.
pub open spec fn edition_views(entries: Seq<EditionEntry>) -> Seq<EditionEntryView> {
    entries.map_values(|e: EditionEntry| e@)
}

/// An edition file is one whose name ends in "pdf".
pub open spec fn is_edition_file(e: EditionEntryView) -> bool {
    has_suffix(e.name, "pdf"@)
}

/// The folder editions are written to.
pub open spec fn output_dir() -> Seq<char> {
    "../output/"@
}

/// The list of editions among the files of the output folder: the files
/// whose name ends in "pdf", in the order given.
pub fn list_editions(files: Vec<EditionEntry>) -> (listed: Editions)
    ensures
        edition_views(listed.editions@) == edition_views(files@).filter(
            |e: EditionEntryView| is_edition_file(e),
        ),
{
    let ghost all = edition_views(files@);
    let ghost pred = |e: EditionEntryView| is_edition_file(e);
    let n = files.len();
    let mut rest = files;
    let mut kept: Vec<EditionEntry> = Vec::new();
    let mut taken: usize = 0;
    while taken < n
        invariant
            n == all.len(),
            taken <= n,
            rest@.len() == n - taken,
            forall|j: int| 0 <= j < rest@.len() ==> #[trigger] rest@[j]@ == all[taken + j],
            edition_views(kept@) == all.take(taken as int).filter(pred),
            pred == (|e: EditionEntryView| is_edition_file(e)),
        decreases n - taken,
    {
        let ghost before_rest = rest@;
        let e = rest.remove(0);
        proof {
            assert(e@ == all[taken as int]);
            assert forall|j: int| 0 <= j < rest@.len() implies #[trigger] rest@[j]@ == all[taken + 1 + j] by {
                assert(rest@[j] == before_rest[j + 1]);
            }
            lemma_filter_push(all.take(taken as int), pred, e@);
            assert(all.take(taken as int).push(e@) =~= all.take(taken + 1));
        }
        if ends_with(e.name.as_str(), "pdf") {
            let ghost before = edition_views(kept@);
            kept.push(e);
            assert(edition_views(kept@) =~= before.push(e@));
        }
        taken = taken + 1;
    }
    assert(all.take(n as int) =~= all);
    Editions { editions: kept }
}

/// The position of the last '.' in `s` before position `k`, or -1.
pub open spec fn last_dot_before(s: Seq<char>, k: int) -> int
    decreases k,
{
    if k <= 0 {
        -1
    } else if s[k - 1] == '.' {
        k - 1
    } else {
        last_dot_before(s, k - 1)
    }
}

/// The stem of a file name, as `std::path::Path::file_stem` reads it: the
/// name before its last '.', unless that '.' is the first character (or the
/// name is ".."), in which case the whole name.
pub open spec fn file_stem(name: Seq<char>) -> Seq<char> {
    let dot = last_dot_before(name, name.len() as int);
    if name == seq!['.', '.'] || dot <= 0 {
        name
    } else {
        name.subrange(0, dot)
    }
}

/// The stem of a file name.
pub fn stem_of(name: &str) -> (stem: String)
    ensures
        stem@ == file_stem(name@),
{
    let n = name.unicode_len();
    let mut k: usize = n;
    while k > 0 && name.get_char(k - 1) != '.'
        invariant
            n == name@.len(),
            k <= n,
            last_dot_before(name@, n as int) == last_dot_before(name@, k as int),
        decreases k,
    {
        k = k - 1;
    }
    let dot: usize = if k == 0 {
        0
    } else {
        k - 1
    };
    assert(dot == 0 ==> last_dot_before(name@, n as int) <= 0);
    assert(dot > 0 ==> last_dot_before(name@, n as int) == dot);
    let is_parent = n == 2 && name.get_char(0) == '.' && name.get_char(1) == '.';
    assert(is_parent == (name@ == seq!['.', '.'])) by {
        if name@ == seq!['.', '.'] {
            assert(name@[0] == '.' && name@[1] == '.');
        }
        if is_parent {
            assert(name@ =~= seq!['.', '.']);
        }
    }
    if is_parent || dot == 0 {
        name.to_owned()
    } else {
        name.substring_char(0, dot).to_owned()
    }
}

/// The thumbnail image of an edition file: the file's stem with the
/// extension "png".
pub open spec fn image_name_of(name: Seq<char>) -> Seq<char> {
    file_stem(name) + ".png"@
}

/// The name of the thumbnail image that belongs to an edition file.
pub fn get_img_name(name: &str) -> (img: String)
    ensures
        img@ == image_name_of(name@),
{
    let mut img = stem_of(name);
    img.append(".png");
    img
}

/// The size shown for a file of `len` bytes: whole thousands followed by
/// "k"; "0kb" when the size could not be read.
pub open spec fn size_label_of(len: Option<u64>) -> Seq<char> {
    match len {
        Some(n) => decimal((n / 1000) as nat) + seq!['k'],
        None => "0kb"@,
    }
}

/// The size shown for a file whose length is `len` bytes (`None` where its
/// metadata could not be read).
pub fn get_file_size(len: Option<u64>) -> (label: String)
    ensures
        label@ == size_label_of(len),
{
    match len {
        Some(n) => {
            let mut label = String::new();
            push_decimal(&mut label, n / 1000);
            let k = "k";
            proof {
                reveal_strlit("k");
            }
            label.append(k);
            assert(label@ =~= size_label_of(len));
            label
        },
        None => "0kb".to_owned(),
    }
}

/// The name shown for a file: its name, or "null" where it has none that
/// reads as text.
pub fn get_file_name(name: Option<&str>) -> (shown: String)
    ensures
        shown@ == (match name {
            Some(n) => n@,
            None => "null"@,
        }),
{
    match name {
        Some(n) => n.to_owned(),
        None => "null".to_owned(),
    }
}

/// The creation date shown for a file: the instant it was created, written
/// in UTC, or "01011900" where the file system does not tell.
pub fn get_file_create(created: Option<Moment>) -> (shown: String)
    requires
        created matches Some(m) ==> datable(m),
    ensures
        shown@ == (match created {
            Some(m) => utc_timestamp_text(m),
            None => "01011900"@,
        }),
{
    match created {
        Some(m) => format_utc_timestamp(m),
        None => "01011900".to_owned(),
    }
}

/// The page count shown for a file: the number of pages of the PDF, or 0
/// where it could not be loaded.
pub fn get_file_pages(pages: Option<usize>) -> (shown: usize)
    ensures
        shown == (match pages {
            Some(n) => n,
            None => 0,
        }),
{
    match pages {
        Some(n) => n,
        None => 0,
    }
}

/// The files that removing an edition deletes: the edition itself and its
/// thumbnail, both in the output folder; only names ending in ".pdf" are
/// removed.
pub open spec fn removal_paths_of(name: Seq<char>) -> Option<(Seq<char>, Seq<char>)> {
    if has_suffix(name, ".pdf"@) {
        Some((output_dir() + name, output_dir() + name.subrange(0, name.len() - 4) + ".png"@))
    } else {
        None
    }
}

/// The paths of the PDF and of the thumbnail that removing the edition
/// `name` deletes; `None` for a name that does not end in ".pdf".
pub fn removal_paths(name: &str) -> (paths: Option<(String, String)>)
    ensures
        match removal_paths_of(name@) {
            Some((pdf, png)) => paths matches Some((p, q)) && p@ == pdf && q@ == png,
            None => paths is None,
        },
{
    proof {
        reveal_strlit(".pdf");
    }
    if !ends_with(name, ".pdf") {
        return None;
    }
    let n = name.unicode_len();
    let mut pdf = "../output/".to_owned();
    pdf.append(name);
    let mut png = "../output/".to_owned();
    png.append(name.substring_char(0, n - 4));
    png.append(".png");
    Some((pdf, png))
}

/// The files an edition is pressed to.
pub struct EditionPaths {
    /// The PDF of the edition.
    pub pdf: String,
    /// The thumbnail of its first page.
    pub png: String,
    /// The thumbnail's path without extension, as the page renderer takes it.
    pub png_base: String,
}

/// The files of the edition named `stem`: "../output/<stem>.pdf" and
/// "../output/<stem>.png", and the thumbnail's path with its extension
/// taken off.
pub open spec fn edition_paths_of(stem: Seq<char>) -> (Seq<char>, Seq<char>, Seq<char>) {
    (
        output_dir() + stem + ".pdf"@,
        output_dir() + stem + ".png"@,
        output_dir() + file_stem(stem + ".png"@),
    )
}

/// The files of the edition named `stem` (the pressing date).
pub fn edition_paths(stem: &str) -> (paths: EditionPaths)
    ensures
        paths.pdf@ == edition_paths_of(stem@).0,
        paths.png@ == edition_paths_of(stem@).1,
        paths.png_base@ == edition_paths_of(stem@).2,
{
    let mut pdf = "../output/".to_owned();
    pdf.append(stem);
    pdf.append(".pdf");
    let mut png_name = stem.to_owned();
    png_name.append(".png");
    let mut png = "../output/".to_owned();
    png.append(png_name.as_str());
    let mut png_base = "../output/".to_owned();
    let base = stem_of(png_name.as_str());
    png_base.append(base.as_str());
    proof {
        assert(png@ =~= output_dir() + stem@ + ".png"@);
    }
    EditionPaths { pdf, png, png_base }
}

/// The shell command that typesets an edition into `pdf_path`.
pub open spec fn typeset_command_of(pdf_path: Seq<char>) -> Seq<char> {
    "typst compile ../templates/feedpress.typ "@ + pdf_path + " --root ../"@
}

/// The shell command that typesets an edition into `pdf_path`.
pub fn typeset_command(pdf_path: &str) -> (command: String)
    ensures
        command@ == typeset_command_of(pdf_path@),
{
    let mut command = "typst compile ../templates/feedpress.typ ".to_owned();
    command.append(pdf_path);
    command.append(" --root ../");
    command
}


/// Every listed edition is a file whose name ends in "pdf", every such file
/// is listed, and listing a listing changes nothing.
pub proof fn law_listing_keeps_exactly_pdfs(files: Seq<EditionEntryView>, e: EditionEntryView)
    ensures
        files.filter(|f: EditionEntryView| is_edition_file(f)).contains(e) <==> (files.contains(e)
            && is_edition_file(e)),
        files.filter(|f: EditionEntryView| is_edition_file(f)).filter(
            |f: EditionEntryView| is_edition_file(f),
        ) == files.filter(|f: EditionEntryView| is_edition_file(f)),
{
    lemma_filter_membership(files, |f: EditionEntryView| is_edition_file(f), e);
    lemma_filter_twice(files, |f: EditionEntryView| is_edition_file(f));
}

/// Removing the edition pressed as `stem` deletes exactly the PDF and the
/// thumbnail that pressing it wrote.
pub proof fn law_removal_deletes_pressed_files(stem: Seq<char>)
    ensures
        removal_paths_of(stem + ".pdf"@) == Some((edition_paths_of(stem).0, edition_paths_of(stem).1)),
{
    reveal_strlit(".pdf");
    let name = stem + ".pdf"@;
    assert(name.subrange(name.len() - 4, name.len() as int) =~= ".pdf"@);
    assert(name.subrange(0, name.len() - 4) =~= stem);
    assert(output_dir() + name =~= output_dir() + stem + ".pdf"@);
}

/// The thumbnail listed for the edition pressed as `stem` is the image
/// pressed with it, and the thumbnail's path without extension is the
/// edition's path without extension.
pub proof fn law_listed_thumbnail_is_pressed_image(stem: Seq<char>)
    requires
        stem.len() > 0,
    ensures
        output_dir() + image_name_of(stem + ".pdf"@) == edition_paths_of(stem).1,
        output_dir() + file_stem(stem + ".png"@) == output_dir() + stem,
{
    reveal_strlit(".pdf");
    reveal_strlit(".png");
    let pdf = stem + ".pdf"@;
    let png = stem + ".png"@;
    assert(pdf[stem.len() as int] == '.');
    assert(png[stem.len() as int] == '.');
    assert(last_dot_before(pdf, pdf.len() as int) == stem.len()) by {
        assert(last_dot_before(pdf, stem.len() as int + 4) == last_dot_before(pdf, stem.len() as int + 3));
        assert(last_dot_before(pdf, stem.len() as int + 3) == last_dot_before(pdf, stem.len() as int + 2));
        assert(last_dot_before(pdf, stem.len() as int + 2) == last_dot_before(pdf, stem.len() as int + 1));
    }
    assert(last_dot_before(png, png.len() as int) == stem.len()) by {
        assert(last_dot_before(png, stem.len() as int + 4) == last_dot_before(png, stem.len() as int + 3));
        assert(last_dot_before(png, stem.len() as int + 3) == last_dot_before(png, stem.len() as int + 2));
        assert(last_dot_before(png, stem.len() as int + 2) == last_dot_before(png, stem.len() as int + 1));
    }
    assert(pdf != seq!['.', '.']) by {
        if pdf == seq!['.', '.'] {
            assert(pdf.len() == 2);
        }
    }
    assert(png != seq!['.', '.']) by {
        if png == seq!['.', '.'] {
            assert(png.len() == 2);
        }
    }
    assert(pdf.subrange(0, stem.len() as int) =~= stem);
    assert(png.subrange(0, stem.len() as int) =~= stem);
    assert(output_dir() + (stem + ".png"@) =~= output_dir() + stem + ".png"@);
}

} // verus!
