//! Render sessions: a document with the settings under which it is shown.

use vstd::prelude::*;
use vstd::string::*;
use crate::doc::{Document, Frame};
use crate::scalar::Scalar;

verus! {

/// The settings that a caller may give for a session. What is left out
/// takes its default.
#[derive(Clone, Debug, PartialEq, Eq)]
pub struct RenderSessionOptions {
    pub pixel_per_pt: Option<Scalar>,
    pub background_color: Option<String>,
}

impl RenderSessionOptions {
    /// Options that leave everything to the defaults.
    pub fn new() -> (r: RenderSessionOptions)
        ensures
            r.pixel_per_pt is None,
            r.background_color is None,
    {
        Self { pixel_per_pt: None, background_color: None }
    }

    /// The number of pixels for one point, if it is set.
    pub fn pixel_per_pt(&self) -> (r: Option<Scalar>)
        ensures
            r == self.pixel_per_pt,
    {
        self.pixel_per_pt
    }

    /// Sets the number of pixels for one point.
    pub fn set_pixel_per_pt(&mut self, pixel_per_pt: Scalar)
        ensures
            final(self).pixel_per_pt == Some(pixel_per_pt),
            final(self).background_color == old(self).background_color,
    {
        self.pixel_per_pt = Some(pixel_per_pt);
    }

    /// The background color, if it is set.
    pub fn background_color(&self) -> (r: Option<String>)
        ensures
            r == self.background_color,
    {
        match &self.background_color {
            Some(color) => Some(color.clone()),
            None => None,
        }
    }

    /// Sets the background color.
    pub fn set_background_color(&mut self, background_color: String)
        ensures
            final(self).background_color == Some(background_color),
            final(self).pixel_per_pt == old(self).pixel_per_pt,
    {
        self.background_color = Some(background_color);
    }
}

/// The size of a page, in points.
#[derive(Clone, Copy, Debug, PartialEq, Eq, Structural)]
pub struct PageInfo {
    pub width: Scalar,
    pub height: Scalar,
}

impl PageInfo {
    /// The width of the page in points.
    pub fn width_pt(&self) -> (r: Scalar)
        ensures
            r == self.width,
    {
        self.width
    }

    /// The height of the page in points.
    pub fn height_pt(&self) -> (r: Scalar)
        ensures
            r == self.height,
    {
        self.height
    }
}

/// The sizes of the pages of a document, in the order of the pages.
#[derive(Debug, PartialEq, Eq)]
pub struct PagesInfo {
    pub pages: Vec<PageInfo>,
}

/// The size of a page with the given frame.
pub open spec fn page_info_of(frame: Frame) -> PageInfo {
    PageInfo { width: frame.size.x, height: frame.size.y }
}

/// The sizes of the pages with the given frames.
pub open spec fn pages_info_of(pages: Seq<Frame>) -> Seq<PageInfo> {
    pages.map_values(|frame: Frame| page_info_of(frame))
}

impl PagesInfo {
    /// The number of pages.
    pub fn page_count(&self) -> (r: usize)
        ensures
            r == self.pages@.len(),
    {
        self.pages.len()
    }

    /// The size of the page with the index `i`, counted from zero.
    pub fn page(&self, i: usize) -> (r: PageInfo)
        requires
            i < self.pages@.len(),
        ensures
            r == self.pages@[i as int],
    {
        self.pages[i]
    }

    /// The sizes of the pages of a document.
    pub fn of(doc: &Document) -> (r: PagesInfo)
        ensures
            r.pages@ == pages_info_of(doc.pages@),
    {
        let mut pages: Vec<PageInfo> = Vec::new();
        let mut i: usize = 0;
        while i < doc.pages.len()
            invariant
                i <= doc.pages.len(),
                pages@ == pages_info_of(doc.pages@.take(i as int)),
            decreases doc.pages.len() - i,
        {
            let page = &doc.pages[i];
            pages.push(PageInfo { width: page.size.x, height: page.size.y });
            proof {
                assert(doc.pages@.take(i + 1) =~= doc.pages@.take(i as int).push(*page));
                assert(pages@ =~= pages_info_of(doc.pages@.take(i + 1)));
            }
            i += 1;
        }
        proof {
            assert(doc.pages@.take(i as int) =~= doc.pages@);
        }
        PagesInfo { pages }
    }

    /// A copy of the sizes.
    pub fn duplicate(&self) -> (r: PagesInfo)
        ensures
            r.pages@ == self.pages@,
    {
        let mut pages: Vec<PageInfo> = Vec::new();
        let mut i: usize = 0;
        while i < self.pages.len()
            invariant
                i <= self.pages.len(),
                pages@ == self.pages@.take(i as int),
            decreases self.pages.len() - i,
        {
            pages.push(self.pages[i]);
            proof {
                assert(pages@ =~= self.pages@.take(i + 1));
            }
            i += 1;
        }
        proof {
            assert(self.pages@.take(i as int) =~= self.pages@);
        }
        PagesInfo { pages }
    }
}

/// Why a session could not be made.
#[derive(Clone, Copy, Debug, PartialEq, Eq, Structural)]
pub enum SessionError {
    /// The document has no page.
    NoPages,
}

impl SessionError {
    /// The message of the error.
    pub fn message(&self) -> (r: String)
        ensures
            r@ == "no pages in artifact"@,
    {
        match self {
            SessionError::NoPages => "no pages in artifact".to_owned(),
        }
    }
}

/// A document that is shown, with the settings under which it is shown.
#[derive(Debug, PartialEq, Eq)]
pub struct RenderSession {
    pub pixel_per_pt: Scalar,
    pub background_color: String,
    pub doc: Document,
    pub pages_info: PagesInfo,
}

impl RenderSession {
    /// The number of pixels for one point.
    pub fn pixel_per_pt(&self) -> (r: Scalar)
        ensures
            r == self.pixel_per_pt,
    {
        self.pixel_per_pt
    }

    /// The background color.
    pub fn background_color(&self) -> (r: String)
        ensures
            r == self.background_color,
    {
        self.background_color.clone()
    }

    /// The sizes of the pages.
    pub fn pages_info(&self) -> (r: PagesInfo)
        ensures
            r.pages@ == self.pages_info.pages@,
    {
        self.pages_info.duplicate()
    }

    /// A session for a document, with nothing set: no pixel for a point, and
    /// an empty background color.
    pub fn from_doc(doc: Document) -> (r: Self)
        ensures
            r.pixel_per_pt == (Scalar { micros: 0 }),
            r.background_color@ == Seq::<char>::empty(),
            r.doc == doc,
            r.pages_info.pages@ == pages_info_of(doc.pages@),
    {
        let pages_info = PagesInfo::of(&doc);
        Self { pixel_per_pt: Scalar::zero(), background_color: String::new(), doc, pages_info }
    }

    /// A session for a decoded document. A document without pages gives no
    /// session.
    pub fn from_decoded(doc: Document) -> (r: Result<Self, SessionError>)
        ensures
            doc.pages@.len() == 0 <==> r is Err,
            r matches Err(e) ==> e == SessionError::NoPages,
            r matches Ok(session) ==> {
                &&& session.pixel_per_pt == (Scalar { micros: 0 })
                &&& session.background_color@ == Seq::<char>::empty()
                &&& session.doc == doc
                &&& session.pages_info.pages@ == pages_info_of(doc.pages@)
            },
    {
        if doc.pages.len() == 0 {
            return Err(SessionError::NoPages);
        }
        Ok(Self::from_doc(doc))
    }

    /// Applies the options of the caller: two pixels for a point and a white
    /// background where the options do not say otherwise.
    pub fn configure(&mut self, options: &Option<RenderSessionOptions>)
        ensures
            final(self).pixel_per_pt == match options {
                Some(RenderSessionOptions { pixel_per_pt: Some(v), .. }) => *v,
                _ => (Scalar { micros: 2_000_000 }),
            },
            final(self).background_color@ == match options {
                Some(RenderSessionOptions { background_color: Some(c), .. }) => c@,
                _ => "ffffff"@,
            },
            final(self).doc == old(self).doc,
            final(self).pages_info == old(self).pages_info,
    {
        let pixel_per_pt = match options {
            Some(RenderSessionOptions { pixel_per_pt: Some(v), .. }) => *v,
            _ => Scalar::from_int(2),
        };
        let background_color = match options {
            Some(RenderSessionOptions { background_color: Some(c), .. }) => c.clone(),
            _ => "ffffff".to_owned(),
        };
        self.pixel_per_pt = pixel_per_pt;
        self.background_color = background_color;
    }
}

} // verus!
