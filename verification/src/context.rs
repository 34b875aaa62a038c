//! Plain data describing browser contexts: viewports, storage state items,
//! cookie and permission filters, recording options and proxies.

use vstd::prelude::*;
use crate::text::owned;

verus! {

/// Viewport dimensions in pixels.
#[derive(Debug, Clone, Copy, PartialEq, Eq)]
pub struct Viewport {
    pub width: u32,
    pub height: u32,
}

/// A local storage entry of a saved storage state.
#[derive(Debug, Clone)]
pub struct LocalStorageItem {
    pub name: String,
    pub value: String,
}

/// An origin with its local storage entries.
#[derive(Debug, Clone)]
pub struct Origin {
    pub origin: String,
    pub local_storage: Vec<LocalStorageItem>,
}

/// Filters for `BrowserContext::clear_cookies`, AND-combined when set.
#[derive(Debug, Clone)]
pub struct ClearCookiesOptions {
    pub name: Option<String>,
    pub domain: Option<String>,
    pub path: Option<String>,
}

impl Default for ClearCookiesOptions {
    fn default() -> (r: ClearCookiesOptions)
        ensures
            r.name is None && r.domain is None && r.path is None,
    {
        ClearCookiesOptions { name: None, domain: None, path: None }
    }
}

/// Options for `BrowserContext::grant_permissions`.
#[derive(Debug, Clone)]
pub struct GrantPermissionsOptions {
    /// Origin the grant is restricted to.
    pub origin: Option<String>,
}

impl Default for GrantPermissionsOptions {
    fn default() -> (r: GrantPermissionsOptions)
        ensures
            r.origin is None,
    {
        GrantPermissionsOptions { origin: None }
    }
}

/// Options for recording a HAR file.
#[derive(Debug, Clone)]
pub struct RecordHar {
    pub path: String,
    pub omit_content: Option<bool>,
    /// `"omit"`, `"embed"` or `"attach"`.
    pub content: Option<String>,
    /// `"full"` or `"minimal"`.
    pub mode: Option<String>,
    pub url_filter: Option<String>,
}

impl Default for RecordHar {
    fn default() -> (r: RecordHar)
        ensures
            r.path@ == Seq::<char>::empty(),
            r.omit_content is None && r.content is None && r.mode is None && r.url_filter is None,
    {
        RecordHar {
            path: String::new(),
            omit_content: None,
            content: None,
            mode: None,
            url_filter: None,
        }
    }
}

/// Options for recording video.
#[derive(Debug, Clone)]
pub struct RecordVideo {
    pub dir: String,
    pub size: Option<Viewport>,
}

impl Default for RecordVideo {
    fn default() -> (r: RecordVideo)
        ensures
            r.dir@ == Seq::<char>::empty(),
            r.size is None,
    {
        RecordVideo { dir: String::new(), size: None }
    }
}

/// Network proxy settings.
#[derive(Debug, Clone)]
pub struct ProxySettings {
    /// Proxy server, e.g. `http://myproxy.com:3128`.
    pub server: String,
    /// Comma-separated domains that bypass the proxy.
    pub bypass: Option<String>,
    pub username: Option<String>,
    pub password: Option<String>,
}

/// The view of an optional string.
pub open spec fn opt_view(o: Option<String>) -> Option<Seq<char>> {
    match o {
        Some(s) => Some(s@),
        None => None,
    }
}

impl ProxySettings {
    /// Proxy settings for `server`, with nothing else set.
    pub fn new(server: &str) -> (r: ProxySettings)
        ensures
            r.server@ == server@,
            r.bypass is None && r.username is None && r.password is None,
    {
        ProxySettings { server: owned(server), bypass: None, username: None, password: None }
    }

    /// Sets the bypass list.
    pub fn bypass(self, bypass: &str) -> (r: ProxySettings)
        ensures
            opt_view(r.bypass) == Some(bypass@),
            r.server == self.server && r.username == self.username && r.password == self.password,
    {
        ProxySettings { bypass: Some(owned(bypass)), ..self }
    }

    /// Sets the user name.
    pub fn username(self, username: &str) -> (r: ProxySettings)
        ensures
            opt_view(r.username) == Some(username@),
            r.server == self.server && r.bypass == self.bypass && r.password == self.password,
    {
        ProxySettings { username: Some(owned(username)), ..self }
    }

    /// Sets the password.
    pub fn password(self, password: &str) -> (r: ProxySettings)
        ensures
            opt_view(r.password) == Some(password@),
            r.server == self.server && r.bypass == self.bypass && r.username == self.username,
    {
        ProxySettings { password: Some(owned(password)), ..self }
    }
}

/// Margins for PDF generation (CSS lengths such as `"1in"`).
#[derive(Debug, Clone)]
pub struct PdfMargin {
    pub top: Option<String>,
    pub right: Option<String>,
    pub bottom: Option<String>,
    pub left: Option<String>,
}

impl Default for PdfMargin {
    fn default() -> (r: PdfMargin)
        ensures
            r.top is None && r.right is None && r.bottom is None && r.left is None,
    {
        PdfMargin { top: None, right: None, bottom: None, left: None }
    }
}

/// A file to upload, given by name, MIME type and contents.
#[derive(Debug, Clone)]
pub struct FilePayload {
    pub name: String,
    pub mime_type: String,
    pub buffer: Vec<u8>,
}

impl FilePayload {
    /// A payload from its parts.
    pub fn new(name: &str, mime_type: &str, buffer: Vec<u8>) -> (r: FilePayload)
        ensures
            r.name@ == name@,
            r.mime_type@ == mime_type@,
            r.buffer@ == buffer@,
    {
        FilePayload { name: owned(name), mime_type: owned(mime_type), buffer }
    }
}

/// How an ARIA snapshot is rendered.
#[derive(Debug, Clone, Copy, PartialEq, Eq)]
pub enum AriaSnapshotMode {
    /// The compact rendering meant for language models.
    Ai,
    /// The standard rendering.
    Default,
}

impl AriaSnapshotMode {
    /// The protocol name of the mode.
    pub fn as_str(self) -> (r: &'static str)
        ensures
            r@ == (match self {
                AriaSnapshotMode::Ai => "ai"@,
                AriaSnapshotMode::Default => "default"@,
            }),
    {
        match self {
            AriaSnapshotMode::Ai => "ai",
            AriaSnapshotMode::Default => "default",
        }
    }
}

/// Where in its resource a console message was produced.
#[derive(Debug, Clone)]
pub struct ConsoleMessageLocation {
    pub url: String,
    /// 1-based line number.
    pub line_number: i32,
    /// 0-based column number.
    pub column_number: i32,
}

/// A console message emitted by a page; `P` is the handle of the page that
/// produced it.
#[derive(Debug, Clone)]
pub struct ConsoleMessage<P> {
    type_: String,
    text: String,
    location: ConsoleMessageLocation,
    page: Option<P>,
}

impl<P> ConsoleMessage<P> {
    pub closed spec fn type_spec(&self) -> Seq<char> {
        self.type_@
    }

    pub closed spec fn text_spec(&self) -> Seq<char> {
        self.text@
    }

    pub closed spec fn location_spec(&self) -> ConsoleMessageLocation {
        self.location
    }

    pub closed spec fn page_spec(&self) -> Option<P> {
        self.page
    }

    /// A console message from the event's parameters.
    pub fn new(type_: String, text: String, location: ConsoleMessageLocation, page: Option<P>) -> (r:
        ConsoleMessage<P>)
        ensures
            r.type_spec() == type_@,
            r.text_spec() == text@,
            r.location_spec() == location,
            r.page_spec() == page,
    {
        ConsoleMessage { type_, text, location, page }
    }

    /// The message type (`"log"`, `"error"`, `"warning"`, ...).
    pub fn type_(&self) -> (r: &str)
        ensures
            r@ == self.type_spec(),
    {
        self.type_.as_str()
    }

    /// The text of the message.
    pub fn text(&self) -> (r: &str)
        ensures
            r@ == self.text_spec(),
    {
        self.text.as_str()
    }

    /// Where the message came from.
    pub fn location(&self) -> (r: &ConsoleMessageLocation)
        ensures
            *r == self.location_spec(),
    {
        &self.location
    }

    /// The page that produced the message, if known.
    pub fn page(&self) -> (r: Option<&P>)
        ensures
            match self.page_spec() {
                Some(p) => r == Some(&p),
                None => r is None,
            },
    {
        match &self.page {
            Some(p) => Some(p),
            None => None,
        }
    }
}

/// The viewport part of context options: an explicit viewport, or viewport
/// emulation switched off. Setting a viewport clears `no_viewport`, and
/// switching emulation off clears the viewport, so the two never conflict.
#[derive(Debug, Clone, Copy)]
pub struct ViewportChoice {
    viewport: Option<Viewport>,
    no_viewport: Option<bool>,
}

impl ViewportChoice {
    pub closed spec fn viewport_spec(&self) -> Option<Viewport> {
        self.viewport
    }

    pub closed spec fn no_viewport_spec(&self) -> Option<bool> {
        self.no_viewport
    }

    /// No viewport given and emulation switched off at once.
    pub open spec fn consistent(&self) -> bool {
        !(self.viewport_spec() is Some && self.no_viewport_spec() == Some(true))
    }

    /// Nothing set.
    pub fn new() -> (r: ViewportChoice)
        ensures
            r.viewport_spec() is None,
            r.no_viewport_spec() is None,
            r.consistent(),
    {
        ViewportChoice { viewport: None, no_viewport: None }
    }

    /// Sets the viewport and clears `no_viewport`.
    pub fn viewport(self, viewport: Viewport) -> (r: ViewportChoice)
        ensures
            r.viewport_spec() == Some(viewport),
            r.no_viewport_spec() is None,
            r.consistent(),
    {
        ViewportChoice { viewport: Some(viewport), no_viewport: None }
    }

    /// Sets `no_viewport`; switching emulation off clears the viewport,
    /// `no_viewport(false)` keeps it.
    pub fn no_viewport(self, no_viewport: bool) -> (r: ViewportChoice)
        ensures
            r.no_viewport_spec() == Some(no_viewport),
            r.viewport_spec() == (if no_viewport {
                None
            } else {
                self.viewport_spec()
            }),
            r.consistent(),
    {
        if no_viewport {
            ViewportChoice { viewport: None, no_viewport: Some(true) }
        } else {
            ViewportChoice { viewport: self.viewport, no_viewport: Some(false) }
        }
    }

    /// The viewport to send.
    pub fn get_viewport(&self) -> (r: Option<Viewport>)
        ensures
            r == self.viewport_spec(),
    {
        self.viewport
    }

    /// The `noDefaultViewport` flag to send.
    pub fn get_no_viewport(&self) -> (r: Option<bool>)
        ensures
            r == self.no_viewport_spec(),
    {
        self.no_viewport
    }
}

/// Where a context's storage state comes from: inline (`S`) or a file path.
/// Setting one clears the other, so at most one is ever given.
#[derive(Debug, Clone)]
pub struct StorageStateChoice<S> {
    inline: Option<S>,
    path: Option<String>,
}

impl<S> StorageStateChoice<S> {
    pub closed spec fn inline_spec(&self) -> Option<S> {
        self.inline
    }

    pub closed spec fn path_spec(&self) -> Option<Seq<char>> {
        opt_view(self.path)
    }

    /// At most one source is given.
    pub open spec fn consistent(&self) -> bool {
        !(self.inline_spec() is Some && self.path_spec() is Some)
    }

    /// Nothing set.
    pub fn new() -> (r: StorageStateChoice<S>)
        ensures
            r.inline_spec() is None,
            r.path_spec() is None,
            r.consistent(),
    {
        StorageStateChoice { inline: None, path: None }
    }

    /// Sets the inline storage state and clears the path.
    pub fn storage_state(self, state: S) -> (r: StorageStateChoice<S>)
        ensures
            r.inline_spec() == Some(state),
            r.path_spec() is None,
            r.consistent(),
    {
        StorageStateChoice { inline: Some(state), path: None }
    }

    /// Sets the file path and clears the inline storage state.
    pub fn storage_state_path(self, path: String) -> (r: StorageStateChoice<S>)
        ensures
            r.path_spec() == Some(path@),
            r.inline_spec() is None,
            r.consistent(),
    {
        StorageStateChoice { inline: None, path: Some(path) }
    }

    /// The two sources, inline first.
    pub fn into_parts(self) -> (r: (Option<S>, Option<String>))
        ensures
            r.0 == self.inline_spec(),
            opt_view(r.1) == self.path_spec(),
    {
        (self.inline, self.path)
    }
}

/// The options of a PDF that are not numbers: header and footer, paper
/// and page selection.
#[derive(Debug, Clone)]
pub struct PdfPageOptions {
    pub display_header_footer: Option<bool>,
    pub header_template: Option<String>,
    pub footer_template: Option<String>,
    pub print_background: Option<bool>,
    pub landscape: Option<bool>,
    pub page_ranges: Option<String>,
    pub format: Option<String>,
    pub width: Option<String>,
    pub height: Option<String>,
    pub prefer_css_page_size: Option<bool>,
}

impl Default for PdfPageOptions {
    fn default() -> (r: PdfPageOptions)
        ensures
            r.display_header_footer is None && r.header_template is None && r.footer_template is None && r.print_background is None && r.landscape is None && r.page_ranges is None && r.format is None && r.width is None && r.height is None && r.prefer_css_page_size is None,
    {
        PdfPageOptions { display_header_footer: None, header_template: None, footer_template: None, print_background: None, landscape: None, page_ranges: None, format: None, width: None, height: None, prefer_css_page_size: None }
    }
}

/// A value of a request parameter.
#[derive(Debug, Clone, PartialEq, Eq)]
pub enum ParamValue {
    Bool(bool),
    Text(String),
}

/// The parameter `key` when the flag is set.
pub open spec fn bool_param(key: Seq<char>, v: Option<bool>) -> Seq<(Seq<char>, ParamValue)> {
    match v {
        Some(b) => seq![(key, ParamValue::Bool(b))],
        None => Seq::empty(),
    }
}

/// The parameter `key` when the text is set.
pub open spec fn text_param(key: Seq<char>, v: Option<String>) -> Seq<(Seq<char>, ParamValue)> {
    match v {
        Some(t) => seq![(key, ParamValue::Text(t))],
        None => Seq::empty(),
    }
}

/// The `pdf` request parameters these options give, in order.
pub open spec fn pdf_page_params_spec(o: PdfPageOptions) -> Seq<(Seq<char>, ParamValue)> {
    bool_param("displayHeaderFooter"@, o.display_header_footer) + text_param("headerTemplate"@, o.header_template) + text_param("footerTemplate"@, o.footer_template) + bool_param("printBackground"@, o.print_background) + bool_param("landscape"@, o.landscape) + text_param("pageRanges"@, o.page_ranges) + text_param("format"@, o.format) + text_param("width"@, o.width) + text_param("height"@, o.height) + bool_param("preferCSSPageSize"@, o.prefer_css_page_size)
}

/// The view of a parameter list.
pub open spec fn params_view(p: Seq<(&'static str, ParamValue)>) -> Seq<(Seq<char>, ParamValue)> {
    p.map_values(|e: (&'static str, ParamValue)| (e.0@, e.1))
}

/// Appends the parameter `key` when the flag is set.
fn push_bool_param(params: &mut Vec<(&'static str, ParamValue)>, key: &'static str, v: Option<bool>)
    ensures
        params_view(final(params)@) == params_view(old(params)@) + bool_param(key@, v),
{
    let ghost before = params@;
    match v {
        Some(b) => params.push((key, ParamValue::Bool(b))),
        None => {},
    }
    assert(params_view(params@) =~= params_view(before) + bool_param(key@, v));
}

/// Appends the parameter `key` when the text is set.
fn push_text_param(params: &mut Vec<(&'static str, ParamValue)>, key: &'static str, v: Option<String>)
    ensures
        params_view(final(params)@) == params_view(old(params)@) + text_param(key@, v),
{
    let ghost before = params@;
    let ghost v0 = v;
    match v {
        Some(t) => params.push((key, ParamValue::Text(t))),
        None => {},
    }
    assert(params_view(params@) =~= params_view(before) + text_param(key@, v0));
}

/// The `pdf` request parameters for the options that are set, each under
/// its protocol name.
pub fn pdf_page_params(o: PdfPageOptions) -> (r: Vec<(&'static str, ParamValue)>)
    ensures
        params_view(r@) == pdf_page_params_spec(o),
{
    let ghost o0 = o;
    let mut params: Vec<(&'static str, ParamValue)> = Vec::new();
    assert(params_view(params@) =~= Seq::<(Seq<char>, ParamValue)>::empty());
    push_bool_param(&mut params, "displayHeaderFooter", o.display_header_footer);
    push_text_param(&mut params, "headerTemplate", o.header_template);
    push_text_param(&mut params, "footerTemplate", o.footer_template);
    push_bool_param(&mut params, "printBackground", o.print_background);
    push_bool_param(&mut params, "landscape", o.landscape);
    push_text_param(&mut params, "pageRanges", o.page_ranges);
    push_text_param(&mut params, "format", o.format);
    push_text_param(&mut params, "width", o.width);
    push_text_param(&mut params, "height", o.height);
    push_bool_param(&mut params, "preferCSSPageSize", o.prefer_css_page_size);
    proof {
        reveal_strlit("displayHeaderFooter");
        reveal_strlit("headerTemplate");
        reveal_strlit("footerTemplate");
        reveal_strlit("printBackground");
        reveal_strlit("landscape");
        reveal_strlit("pageRanges");
        reveal_strlit("format");
        reveal_strlit("width");
        reveal_strlit("height");
        reveal_strlit("preferCSSPageSize");
    }
    assert(params_view(params@) =~= pdf_page_params_spec(o0));
    params
}

} // verus!
