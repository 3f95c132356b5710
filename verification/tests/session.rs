use vector_lowering::doc::{Document, Frame, Introspector};
use vector_lowering::geom::Size;
use vector_lowering::scalar::Scalar;
use vector_lowering::session::{
    PageInfo, PagesInfo, RenderSession, RenderSessionOptions, SessionError,
};

fn page(width: i32, height: i32) -> Frame {
    Frame { size: Size { x: Scalar::from_int(width), y: Scalar::from_int(height) }, items: vec![] }
}

fn document(pages: Vec<Frame>) -> Document {
    Document { pages, introspector: Introspector { positions: vec![] } }
}

fn info(width: i32, height: i32) -> PageInfo {
    PageInfo { width: Scalar::from_int(width), height: Scalar::from_int(height) }
}

#[test]
fn options_start_empty_and_keep_what_is_set() {
    let mut options = RenderSessionOptions::new();
    assert_eq!(options.pixel_per_pt(), None);
    assert_eq!(options.background_color(), None);
    options.set_pixel_per_pt(Scalar::from_int(3));
    assert_eq!(options.pixel_per_pt(), Some(Scalar::from_int(3)));
    assert_eq!(options.background_color(), None);
    options.set_background_color("000000".to_string());
    assert_eq!(options.pixel_per_pt(), Some(Scalar::from_int(3)));
    assert_eq!(options.background_color(), Some("000000".to_string()));
}

#[test]
fn pages_info_has_the_size_of_every_page() {
    let pages = PagesInfo::of(&document(vec![page(595, 842), page(842, 595)]));
    assert_eq!(pages.page_count(), 2);
    assert_eq!(pages.page(0), info(595, 842));
    assert_eq!(pages.page(1), info(842, 595));
    assert_eq!(pages.page(1).width_pt(), Scalar::from_int(842));
    assert_eq!(pages.page(1).height_pt(), Scalar::from_int(595));
    assert_eq!(pages.duplicate(), pages);
    assert_eq!(PagesInfo::of(&document(vec![])).page_count(), 0);
}

#[test]
fn a_session_starts_with_nothing_set() {
    let session = RenderSession::from_doc(document(vec![page(10, 20)]));
    assert_eq!(session.pixel_per_pt(), Scalar::zero());
    assert_eq!(session.background_color(), "");
    assert_eq!(session.pages_info(), PagesInfo { pages: vec![info(10, 20)] });
    assert_eq!(session.doc, document(vec![page(10, 20)]));
}

#[test]
fn a_document_without_pages_gives_no_session() {
    assert_eq!(RenderSession::from_decoded(document(vec![])), Err(SessionError::NoPages));
    assert_eq!(SessionError::NoPages.message(), "no pages in artifact");
    let session = RenderSession::from_decoded(document(vec![page(1, 2)])).unwrap();
    assert_eq!(session.pages_info().page_count(), 1);
}

#[test]
fn a_session_takes_the_defaults_where_the_options_say_nothing() {
    let mut session = RenderSession::from_doc(document(vec![page(10, 20)]));
    session.configure(&None);
    assert_eq!(session.pixel_per_pt(), Scalar::from_int(2));
    assert_eq!(session.background_color(), "ffffff");
    session.configure(&Some(RenderSessionOptions::new()));
    assert_eq!(session.pixel_per_pt(), Scalar::from_int(2));
    assert_eq!(session.background_color(), "ffffff");
}

#[test]
fn a_session_takes_what_the_options_say() {
    let mut session = RenderSession::from_doc(document(vec![page(10, 20)]));
    let mut options = RenderSessionOptions::new();
    options.set_pixel_per_pt(Scalar { micros: 1_500_000 });
    session.configure(&Some(options.clone()));
    assert_eq!(session.pixel_per_pt(), Scalar { micros: 1_500_000 });
    assert_eq!(session.background_color(), "ffffff");
    options.set_background_color("102030".to_string());
    session.configure(&Some(options));
    assert_eq!(session.pixel_per_pt(), Scalar { micros: 1_500_000 });
    assert_eq!(session.background_color(), "102030");
    assert_eq!(session.pages_info().page(0), info(10, 20));
}
