//! The state of a viewer front end: the image it shows, where it came
//! from, and which part of it is on screen.
use crate::data_source::{modelled, DataSource};
use crate::pe::{PeFile, PeView};
use vstd::prelude::*;

verus! {

/// Which part of a PE image a viewer shows.
#[derive(Debug, Clone, Copy, PartialEq, Eq)]
pub enum Page {
    DosHeader,
    NtHeaders,
    Sections,
    Imports,
    Exports,
}

impl Page {
    /// The heading of the part.
    pub open spec fn spec_label(self) -> Seq<char> {
        match self {
            Page::DosHeader => "DOS Header"@,
            Page::NtHeaders => "NT Headers"@,
            Page::Sections => "Sections"@,
            Page::Imports => "Imports"@,
            Page::Exports => "Exports"@,
        }
    }

    /// The heading of the part.
    pub fn label(self) -> (r: &'static str)
        ensures
            r@ == self.spec_label(),
    {
        match self {
            Page::DosHeader => "DOS Header",
            Page::NtHeaders => "NT Headers",
            Page::Sections => "Sections",
            Page::Imports => "Imports",
            Page::Exports => "Exports",
        }
    }
}

impl Default for Page {
    /// A viewer starts on the DOS header.
    fn default() -> (r: Self)
        ensures
            r == Page::DosHeader,
    {
        Page::DosHeader
    }
}

/// The image a viewer shows, and the URL of its source.
pub struct AppContext {
    current_url: Option<String>,
    pe_file: Option<PeFile>,
}

/// An [`AppContext`] taken by the views of its parts.
pub struct AppContextView {
    pub current_url: Option<Seq<char>>,
    pub pe_file: Option<PeView>,
    /// The image shown comes from a source its spec functions describe.
    pub source_modelled: bool,
}

impl View for AppContext {
    type V = AppContextView;

    closed spec fn view(&self) -> AppContextView {
        AppContextView {
            current_url: match &self.current_url {
                Some(u) => Some(u@),
                None => None,
            },
            pe_file: match &self.pe_file {
                Some(p) => Some(p@),
                None => None,
            },
            source_modelled: match &self.pe_file {
                Some(p) => modelled(p.source().read_model()),
                None => false,
            },
        }
    }
}

/// There is a URL exactly when there is an image, and for an image from a
/// described source it is the image's URL, that of the source.
pub open spec fn url_follows_image(v: AppContextView) -> bool {
    &&& (v.current_url is Some <==> v.pe_file is Some)
    &&& v.source_modelled ==> v.current_url == match v.pe_file {
        Some(p) => Some(p.url),
        None => None,
    }
}

impl AppContext {
    #[verifier::type_invariant]
    spec fn url_matches_image(self) -> bool {
        url_follows_image(self@)
    }

    /// The URL of the image shown, if any: that of the image's source.
    pub fn current_url(&self) -> (r: &Option<String>)
        ensures
            match r {
                Some(u) => self@.current_url == Some(u@),
                None => self@.current_url is None,
            },
            url_follows_image(self@),
    {
        proof {
            use_type_invariant(self);
        }
        &self.current_url
    }

    /// Show `pe`; the current URL becomes that of its data source.
    pub fn set_current_pe(&mut self, pe: PeFile)
        ensures
            final(self)@.pe_file == Some(pe@),
            final(self)@.current_url is Some,
            final(self)@.source_modelled == modelled(pe.source().read_model()),
            modelled(pe.source().read_model()) ==> final(self)@.current_url == Some(
                pe.source().location(),
            ) && pe@.url == pe.source().location(),
    {
        let url = pe.data_source().url();
        *self = AppContext { current_url: Some(url), pe_file: Some(pe) };
    }

    /// Show nothing.
    pub fn clear_current_pe(&mut self)
        ensures
            final(self)@ == (AppContextView {
                current_url: None,
                pe_file: None,
                source_modelled: false,
            }),
    {
        *self = AppContext { current_url: None, pe_file: None };
    }

    pub fn current_main_pe(&self) -> (r: &Option<PeFile>)
        ensures
            match r {
                Some(p) => self@.pe_file == Some(p@) && self@.source_modelled == modelled(
                    p.source().read_model(),
                ),
                None => self@.pe_file is None,
            },
            url_follows_image(self@),
    {
        proof {
            use_type_invariant(self);
        }
        &self.pe_file
    }
}

impl Default for AppContext {
    /// A viewer starts with nothing to show.
    fn default() -> (r: Self)
        ensures
            r@ == (AppContextView { current_url: None, pe_file: None, source_modelled: false }),
    {
        Self { current_url: None, pe_file: None }
    }
}

} // verus!
