//! The PDF import dialog: the summary of the document it shows, the pages it
//! offers, and what it does when it closes.

use vstd::prelude::*;
use crate::text::{append_signed_decimal, signed_decimal};

verus! {

/// How the pages of a PDF are imported.
#[derive(Clone, Copy, Debug, PartialEq, Eq, Structural)]
pub enum PdfImportPagesType {
    Bitmap,
    Vector,
}

/// What the dialog knows of the PDF: each text where the document has it.
pub struct PdfInfo {
    pub file_name: Option<String>,
    pub title: Option<String>,
    pub author: Option<String>,
    pub mod_date: Option<String>,
    pub n_pages: i32,
}

/// The captions of the summary and the texts shown where the document lacks
/// a value, in the user's language.
pub struct PdfInfoCaptions {
    pub file_name: String,
    pub title: String,
    pub author: String,
    pub mod_date: String,
    pub pages: String,
    pub no_file_name: String,
    pub no_title: String,
    pub no_author: String,
    pub no_date: String,
}

/// A value, or the fallback text where there is none.
pub open spec fn value_or(value: Option<String>, fallback: Seq<char>) -> Seq<char> {
    match value {
        Some(v) => v@,
        None => fallback,
    }
}

/// One line of the summary: the caption in bold, two spaces, the value.
pub open spec fn info_line(caption: Seq<char>, value: Seq<char>) -> Seq<char> {
    "<b>"@ + caption + "  </b>"@ + value + "\n"@
}

/// The summary of the PDF as markup: its file name, title, author,
/// modification date and number of pages, one per line.
pub open spec fn spec_pdf_info_markup(c: PdfInfoCaptions, i: PdfInfo) -> Seq<char> {
    info_line(c.file_name@, value_or(i.file_name, c.no_file_name@)) + info_line(
        c.title@,
        value_or(i.title, c.no_title@),
    ) + info_line(c.author@, value_or(i.author, c.no_author@)) + info_line(
        c.mod_date@,
        value_or(i.mod_date, c.no_date@),
    ) + info_line(c.pages@, signed_decimal(i.n_pages as int))
}

/// Appends one line of the summary.
fn append_info_line(s: &mut String, caption: &str, value: &str)
    ensures
        final(s)@ == old(s)@ + info_line(caption@, value@),
{
    s.append("<b>");
    s.append(caption);
    s.append("  </b>");
    s.append(value);
    s.append("\n");
    proof {
        assert(s@ =~= old(s)@ + info_line(caption@, value@));
    }
}

/// The text of an optional value, or the fallback.
fn value_or_str<'a>(value: &'a Option<String>, fallback: &'a String) -> (r: &'a str)
    ensures
        r@ == value_or(*value, fallback@),
{
    match value {
        Some(v) => v.as_str(),
        None => fallback.as_str(),
    }
}

/// Writes the summary of the PDF.
pub fn pdf_info_markup(c: &PdfInfoCaptions, i: &PdfInfo) -> (m: String)
    ensures
        m@ == spec_pdf_info_markup(*c, *i),
{
    let mut s = String::new();
    append_info_line(&mut s, c.file_name.as_str(), value_or_str(&i.file_name, &c.no_file_name));
    append_info_line(&mut s, c.title.as_str(), value_or_str(&i.title, &c.no_title));
    append_info_line(&mut s, c.author.as_str(), value_or_str(&i.author, &c.no_author));
    append_info_line(&mut s, c.mod_date.as_str(), value_or_str(&i.mod_date, &c.no_date));
    s.append("<b>");
    s.append(c.pages.as_str());
    s.append("  </b>");
    append_signed_decimal(&mut s, i.n_pages);
    s.append("\n");
    proof {
        assert(s@ =~= spec_pdf_info_markup(*c, *i));
    }
    s
}

/// The spin buttons that choose the first and the last page: both range
/// over the document's pages, and they start at its first and last page.
#[derive(Clone, Copy, Debug, PartialEq, Eq, Structural)]
pub struct PageSpinners {
    pub lower: i32,
    pub upper: i32,
    pub first_page: i32,
    pub last_page: i32,
}

/// Returns the page spinners for a document with `n_pages` pages.
pub fn page_spinners(n_pages: i32) -> (p: PageSpinners)
    ensures
        p == (PageSpinners { lower: 1, upper: n_pages, first_page: 1, last_page: n_pages }),
{
    PageSpinners { lower: 1, upper: n_pages, first_page: 1, last_page: n_pages }
}

/// What the dialog does when it closes.
#[derive(Clone, Copy, Debug, PartialEq, Eq, Structural)]
pub enum PdfImportResponse {
    /// Import the pages from index `start` (counted from 0) up to, not
    /// including, `end`, in the given way.
    Import { start: u32, end: u32, pages_type: PdfImportPagesType },
    /// Close, and forget the file that was to be imported.
    Dismiss,
}

/// The response of the dialog: on apply it imports the chosen pages, the
/// first one (counted from 1) becoming the range's start counted from 0, as
/// bitmaps when the bitmap toggle is active and as vectors otherwise; on any
/// other response it dismisses the file.
pub open spec fn spec_pdf_import_response(
    apply: bool,
    first_page: u32,
    last_page: u32,
    bitmap_active: bool,
) -> PdfImportResponse {
    if apply {
        PdfImportResponse::Import {
            start: (first_page - 1) as u32,
            end: last_page,
            pages_type: if bitmap_active {
                PdfImportPagesType::Bitmap
            } else {
                PdfImportPagesType::Vector
            },
        }
    } else {
        PdfImportResponse::Dismiss
    }
}

/// Returns what the dialog does when it closes. The first page spinner never
/// goes below 1.
pub fn pdf_import_response(apply: bool, first_page: u32, last_page: u32, bitmap_active: bool) -> (r:
    PdfImportResponse)
    requires
        apply ==> first_page >= 1,
    ensures
        r == spec_pdf_import_response(apply, first_page, last_page, bitmap_active),
{
    if apply {
        let pages_type = if bitmap_active {
            PdfImportPagesType::Bitmap
        } else {
            PdfImportPagesType::Vector
        };
        PdfImportResponse::Import { start: first_page - 1, end: last_page, pages_type }
    } else {
        PdfImportResponse::Dismiss
    }
}

/// Which of the two toggles is active for the imported pages' type.
pub fn pages_type_toggles(pages_type: PdfImportPagesType) -> (t: (bool, bool))
    ensures
        t == (pages_type == PdfImportPagesType::Bitmap, pages_type == PdfImportPagesType::Vector),
{
    match pages_type {
        PdfImportPagesType::Bitmap => (true, false),
        PdfImportPagesType::Vector => (false, true),
    }
}

/// Applying the dialog as it opens imports every page of the document, in
/// the way the toggles were set from the preferences.
pub proof fn lemma_untouched_dialog_imports_all_pages(
    n_pages: i32,
    pages_type: PdfImportPagesType,
)
    requires
        n_pages >= 1,
    ensures
        spec_pdf_import_response(
            true,
            1,
            n_pages as u32,
            pages_type == PdfImportPagesType::Bitmap,
        ) == (PdfImportResponse::Import { start: 0, end: n_pages as u32, pages_type }),
{
}

/// An applied import of the pages from `first_page` to `last_page` covers
/// `last_page - first_page + 1` pages.
pub proof fn lemma_import_range_length(first_page: u32, last_page: u32, bitmap_active: bool)
    requires
        1 <= first_page <= last_page,
    ensures
        spec_pdf_import_response(true, first_page, last_page, bitmap_active) matches
            PdfImportResponse::Import { start, end, .. } ==> end - start == last_page
            - first_page + 1,
{
}

} // verus!
