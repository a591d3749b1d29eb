use rnote_ui::import::{
    page_spinners, pages_type_toggles, pdf_import_response, pdf_info_markup, PageSpinners,
    PdfImportPagesType, PdfImportResponse, PdfInfo, PdfInfoCaptions,
};

fn captions() -> PdfInfoCaptions {
    PdfInfoCaptions {
        file_name: String::from("File name:"),
        title: String::from("Title:"),
        author: String::from("Author:"),
        mod_date: String::from("Modification date:"),
        pages: String::from("Pages:"),
        no_file_name: String::from("- no file name -"),
        no_title: String::from("- no title -"),
        no_author: String::from("- no author -"),
        no_date: String::from("- no date -"),
    }
}

#[test]
fn pdf_info_markup_full() {
    let info = PdfInfo {
        file_name: Some(String::from("paper.pdf")),
        title: Some(String::from("A Paper")),
        author: Some(String::from("Ann")),
        mod_date: Some(String::from("2022-05-01")),
        n_pages: 12,
    };
    assert_eq!(
        pdf_info_markup(&captions(), &info),
        "<b>File name:  </b>paper.pdf\n<b>Title:  </b>A Paper\n<b>Author:  </b>Ann\n\
         <b>Modification date:  </b>2022-05-01\n<b>Pages:  </b>12\n"
    );
}

#[test]
fn pdf_info_markup_fallbacks() {
    let info = PdfInfo { file_name: None, title: None, author: None, mod_date: None, n_pages: 0 };
    assert_eq!(
        pdf_info_markup(&captions(), &info),
        "<b>File name:  </b>- no file name -\n<b>Title:  </b>- no title -\n\
         <b>Author:  </b>- no author -\n<b>Modification date:  </b>- no date -\n<b>Pages:  </b>0\n"
    );
}

#[test]
fn page_spinners_cover_document() {
    assert_eq!(page_spinners(5), PageSpinners { lower: 1, upper: 5, first_page: 1, last_page: 5 });
}

#[test]
fn import_response_on_apply() {
    assert_eq!(
        pdf_import_response(true, 1, 5, true),
        PdfImportResponse::Import { start: 0, end: 5, pages_type: PdfImportPagesType::Bitmap }
    );
    assert_eq!(
        pdf_import_response(true, 3, 4, false),
        PdfImportResponse::Import { start: 2, end: 4, pages_type: PdfImportPagesType::Vector }
    );
}

#[test]
fn import_response_otherwise_dismisses() {
    assert_eq!(pdf_import_response(false, 0, 0, true), PdfImportResponse::Dismiss);
    assert_eq!(pdf_import_response(false, 2, 9, false), PdfImportResponse::Dismiss);
}

#[test]
fn untouched_dialog_imports_all_pages() {
    let s = page_spinners(7);
    let (bitmap, _) = pages_type_toggles(PdfImportPagesType::Vector);
    assert_eq!(
        pdf_import_response(true, s.first_page as u32, s.last_page as u32, bitmap),
        PdfImportResponse::Import { start: 0, end: 7, pages_type: PdfImportPagesType::Vector }
    );
}

#[test]
fn toggles_from_pages_type() {
    assert_eq!(pages_type_toggles(PdfImportPagesType::Bitmap), (true, false));
    assert_eq!(pages_type_toggles(PdfImportPagesType::Vector), (false, true));
}
