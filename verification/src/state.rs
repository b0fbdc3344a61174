//! The state every request handler reads: configuration, error pages, the
//! template registry and the directory that assets are served from.

use vstd::prelude::*;
use crate::templates::registered_templates;
use crate::views::text_of;

verus! {

/// Where the server listens.
#[derive(Clone, Debug)]
pub struct Config {
    listen_ip: String,
    listen_port: u16,
}

/// What a `Config` holds.
pub struct ConfigView {
    pub listen_ip: Seq<char>,
    pub listen_port: u16,
}

impl View for Config {
    type V = ConfigView;

    closed spec fn view(&self) -> ConfigView {
        ConfigView { listen_ip: self.listen_ip@, listen_port: self.listen_port }
    }
}

impl Config {
    /// A configuration that binds `listen_ip` at `listen_port`. The address
    /// is kept as text, as it was given.
    pub fn new(listen_ip: String, listen_port: u16) -> (config: Config)
        ensures
            config@ == (ConfigView { listen_ip: listen_ip@, listen_port }),
    {
        Config { listen_ip, listen_port }
    }

    /// The address to bind, as text.
    pub fn listen_ip(&self) -> (ip: &String)
        ensures
            ip@ == self@.listen_ip,
    {
        &self.listen_ip
    }

    /// The port to bind.
    pub fn listen_port(&self) -> (port: u16)
        ensures
            port == self@.listen_port,
    {
        self.listen_port
    }
}

/// Why the state could not be built. The server must not start then.
#[derive(Clone, Copy, Debug, PartialEq, Eq, Structural)]
pub enum StartupFailure {
    /// The not-found page could not be read, or is empty.
    NotFoundPage,
    /// The server-error page could not be read, or is empty.
    ServerErrorPage,
}

/// The two pages that stand in for every failed request.
#[derive(Debug)]
pub struct ErrorPages {
    not_found: String,
    server_error: String,
}

/// What an `ErrorPages` holds.
pub struct ErrorPagesView {
    pub not_found: Seq<char>,
    pub server_error: Seq<char>,
}

/// A page that was read and has content.
pub open spec fn usable_page(page: Option<Seq<char>>) -> bool {
    page matches Some(text) && text.len() > 0
}

impl View for ErrorPages {
    type V = ErrorPagesView;

    closed spec fn view(&self) -> ErrorPagesView {
        ErrorPagesView { not_found: self.not_found@, server_error: self.server_error@ }
    }
}

impl ErrorPages {
    #[verifier::type_invariant]
    spec fn both_have_content(&self) -> bool {
        self.not_found@.len() > 0 && self.server_error@.len() > 0
    }

    /// Takes what reading the two page files gave, `None` for a file that
    /// could not be read. There are error pages only if both were read and
    /// neither is empty; otherwise the first page at fault is named.
    pub fn load(not_found: Option<String>, server_error: Option<String>) -> (loaded: Result<
        ErrorPages,
        StartupFailure,
    >)
        ensures
            loaded is Ok <==> usable_page(text_of(not_found)) && usable_page(text_of(server_error)),
            loaded matches Ok(pages) ==> {
                &&& Some(pages@.not_found) == text_of(not_found)
                &&& Some(pages@.server_error) == text_of(server_error)
            },
            loaded matches Err(failure) ==> {
                failure == StartupFailure::NotFoundPage <==> !usable_page(text_of(not_found))
            },
    {
        let not_found = match not_found {
            Some(text) => text,
            None => { return Err(StartupFailure::NotFoundPage); },
        };
        if not_found.as_str().is_empty() {
            return Err(StartupFailure::NotFoundPage);
        }
        let server_error = match server_error {
            Some(text) => text,
            None => { return Err(StartupFailure::ServerErrorPage); },
        };
        if server_error.as_str().is_empty() {
            return Err(StartupFailure::ServerErrorPage);
        }
        Ok(ErrorPages { not_found, server_error })
    }

    /// The body sent when a page is not found. Never empty.
    pub fn not_found(&self) -> (page: &String)
        ensures
            page@ == self@.not_found,
            page@.len() > 0,
    {
        proof {
            use_type_invariant(self);
        }
        &self.not_found
    }

    /// The body sent when the server fails. Never empty.
    pub fn server_error(&self) -> (page: &String)
        ensures
            page@ == self@.server_error,
            page@.len() > 0,
    {
        proof {
            use_type_invariant(self);
        }
        &self.server_error
    }
}

/// Everything a request handler reads. Built once, before the server
/// listens, and only read from then on.
#[derive(Debug)]
pub struct CommonData {
    config: Config,
    hb: handlebars::Handlebars<'static>,
    error_pages: ErrorPages,
    content_dir: String,
}

/// What a `CommonData` holds. Of the template registry it shows the names of
/// the templates registered in it.
pub struct CommonDataView {
    pub config: ConfigView,
    pub templates: Set<Seq<char>>,
    pub error_pages: ErrorPagesView,
    pub content_dir: Seq<char>,
}

impl View for CommonData {
    type V = CommonDataView;

    closed spec fn view(&self) -> CommonDataView {
        CommonDataView {
            config: self.config@,
            templates: registered_templates(self.hb),
            error_pages: self.error_pages@,
            content_dir: self.content_dir@,
        }
    }
}

impl CommonData {
    /// Puts the state together. That there are error pages at all says that
    /// both were read: without them there is no state, and no server.
    pub fn new(
        config: Config,
        hb: handlebars::Handlebars<'static>,
        error_pages: ErrorPages,
        content_dir: String,
    ) -> (data: CommonData)
        ensures
            data@ == (CommonDataView {
                config: config@,
                templates: registered_templates(hb),
                error_pages: error_pages@,
                content_dir: content_dir@,
            }),
    {
        CommonData { config, hb, error_pages, content_dir }
    }

    /// Where the server listens.
    pub fn config(&self) -> (config: &Config)
        ensures
            config@ == self@.config,
    {
        &self.config
    }

    /// The template registry.
    pub fn hb(&self) -> (hb: &handlebars::Handlebars<'static>)
        ensures
            registered_templates(*hb) == self@.templates,
    {
        &self.hb
    }

    /// The pages sent in place of what could not be served.
    pub fn error_pages(&self) -> (error_pages: &ErrorPages)
        ensures
            error_pages@ == self@.error_pages,
    {
        &self.error_pages
    }

    /// The directory under which `static/assets` lies.
    pub fn content_dir(&self) -> (content_dir: &String)
        ensures
            content_dir@ == self@.content_dir,
    {
        &self.content_dir
    }
}

} // verus!
