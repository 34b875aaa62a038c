//! Options for injected tags and media emulation.

use vstd::prelude::*;
use crate::error::Error;
use crate::text::owned;

verus! {

/// The error for a tag with neither content, URL nor path.
pub open spec fn missing_source_message() -> Seq<char> {
    "At least one of content, url, or path must be specified"@
}

fn missing_source() -> (e: Error)
    ensures
        e matches Error::InvalidArgument(m) && m@ == missing_source_message(),
{
    Error::InvalidArgument(owned("At least one of content, url, or path must be specified"))
}

/// Options for adding a `<style>` tag to the page.
#[derive(Debug, Clone)]
pub struct AddStyleTagOptions {
    /// Raw CSS content to inject.
    pub content: Option<String>,
    /// URL of the stylesheet to load.
    pub url: Option<String>,
    /// Path of a CSS file to inject.
    pub path: Option<String>,
}

impl AddStyleTagOptions {
    /// Creates a builder with every option unset.
    pub fn builder() -> (r: AddStyleTagOptionsBuilder)
        ensures
            r@.content is None && r@.url is None && r@.path is None,
    {
        AddStyleTagOptionsBuilder { content: None, url: None, path: None }
    }

    /// At least one of content, url or path must be given.
    pub fn validate(&self) -> (r: Result<(), Error>)
        ensures
            r is Ok <==> !(self.content is None && self.url is None && self.path is None),
            r matches Err(e) ==> e matches Error::InvalidArgument(m) && m@
                == missing_source_message(),
    {
        if self.content.is_none() && self.url.is_none() && self.path.is_none() {
            return Err(missing_source());
        }
        Ok(())
    }
}

/// Builder for [`AddStyleTagOptions`].
#[derive(Debug, Clone)]
pub struct AddStyleTagOptionsBuilder {
    content: Option<String>,
    url: Option<String>,
    path: Option<String>,
}

/// The view of an optional string.
pub open spec fn opt_str(o: Option<String>) -> Option<Seq<char>> {
    match o {
        Some(s) => Some(s@),
        None => None,
    }
}

impl View for AddStyleTagOptionsBuilder {
    type V = AddStyleTagOptions;

    /// The options the builder would build.
    closed spec fn view(&self) -> AddStyleTagOptions {
        AddStyleTagOptions { content: self.content, url: self.url, path: self.path }
    }
}

impl AddStyleTagOptionsBuilder {
    /// Sets the CSS content to inject.
    pub fn content(self, content: &str) -> (r: Self)
        ensures
            opt_str(r@.content) == Some(content@),
            r@.url == self@.url,
            r@.path == self@.path,
    {
        AddStyleTagOptionsBuilder { content: Some(owned(content)), ..self }
    }

    /// Sets the URL of the stylesheet.
    pub fn url(self, url: &str) -> (r: Self)
        ensures
            opt_str(r@.url) == Some(url@),
            r@.content == self@.content,
            r@.path == self@.path,
    {
        AddStyleTagOptionsBuilder { url: Some(owned(url)), ..self }
    }

    /// Sets the path of the CSS file.
    pub fn path(self, path: &str) -> (r: Self)
        ensures
            opt_str(r@.path) == Some(path@),
            r@.content == self@.content,
            r@.url == self@.url,
    {
        AddStyleTagOptionsBuilder { path: Some(owned(path)), ..self }
    }

    /// Builds the options.
    pub fn build(self) -> (r: AddStyleTagOptions)
        ensures
            r == self@,
    {
        AddStyleTagOptions { content: self.content, url: self.url, path: self.path }
    }
}

/// Options for adding a `<script>` tag to the page.
#[derive(Debug, Clone)]
pub struct AddScriptTagOptions {
    /// Raw JavaScript content to inject.
    pub content: Option<String>,
    /// URL of the script to load.
    pub url: Option<String>,
    /// Path of a JavaScript file to inject.
    pub path: Option<String>,
    /// Script type (e.g. `module`).
    pub type_: Option<String>,
}

impl AddScriptTagOptions {
    /// Creates a builder with every option unset.
    pub fn builder() -> (r: AddScriptTagOptionsBuilder)
        ensures
            r@.content is None && r@.url is None && r@.path is None && r@.type_ is None,
    {
        AddScriptTagOptionsBuilder { content: None, url: None, path: None, type_: None }
    }

    /// At least one of content, url or path must be given.
    pub fn validate(&self) -> (r: Result<(), Error>)
        ensures
            r is Ok <==> !(self.content is None && self.url is None && self.path is None),
            r matches Err(e) ==> e matches Error::InvalidArgument(m) && m@
                == missing_source_message(),
    {
        if self.content.is_none() && self.url.is_none() && self.path.is_none() {
            return Err(missing_source());
        }
        Ok(())
    }
}

/// Script tag options for `Page::add_script_tag`, which requires them.
pub fn require_script_tag_options(options: Option<AddScriptTagOptions>) -> (r: Result<
    AddScriptTagOptions,
    Error,
>)
    ensures
        match options {
            Some(o) => r == Ok::<AddScriptTagOptions, Error>(o),
            None => r matches Err(e) && e matches Error::InvalidArgument(m) && m@
                == missing_source_message(),
        },
{
    match options {
        Some(o) => Ok(o),
        None => Err(missing_source()),
    }
}

/// Builder for [`AddScriptTagOptions`].
#[derive(Debug, Clone)]
pub struct AddScriptTagOptionsBuilder {
    content: Option<String>,
    url: Option<String>,
    path: Option<String>,
    type_: Option<String>,
}

impl View for AddScriptTagOptionsBuilder {
    type V = AddScriptTagOptions;

    /// The options the builder would build.
    closed spec fn view(&self) -> AddScriptTagOptions {
        AddScriptTagOptions {
            content: self.content,
            url: self.url,
            path: self.path,
            type_: self.type_,
        }
    }
}

impl AddScriptTagOptionsBuilder {
    /// Sets the JavaScript content.
    pub fn content(self, content: &str) -> (r: Self)
        ensures
            opt_str(r@.content) == Some(content@),
            r@.url == self@.url,
            r@.path == self@.path,
            r@.type_ == self@.type_,
    {
        AddScriptTagOptionsBuilder { content: Some(owned(content)), ..self }
    }

    /// Sets the script URL.
    pub fn url(self, url: &str) -> (r: Self)
        ensures
            opt_str(r@.url) == Some(url@),
            r@.content == self@.content,
            r@.path == self@.path,
            r@.type_ == self@.type_,
    {
        AddScriptTagOptionsBuilder { url: Some(owned(url)), ..self }
    }

    /// Sets the script file path.
    pub fn path(self, path: &str) -> (r: Self)
        ensures
            opt_str(r@.path) == Some(path@),
            r@.content == self@.content,
            r@.url == self@.url,
            r@.type_ == self@.type_,
    {
        AddScriptTagOptionsBuilder { path: Some(owned(path)), ..self }
    }

    /// Sets the script type.
    pub fn type_(self, type_: &str) -> (r: Self)
        ensures
            opt_str(r@.type_) == Some(type_@),
            r@.content == self@.content,
            r@.url == self@.url,
            r@.path == self@.path,
    {
        AddScriptTagOptionsBuilder { type_: Some(owned(type_)), ..self }
    }

    /// Builds the options.
    pub fn build(self) -> (r: AddScriptTagOptions)
        ensures
            r == self@,
    {
        AddScriptTagOptions {
            content: self.content,
            url: self.url,
            path: self.path,
            type_: self.type_,
        }
    }
}

/// Media type to emulate.
#[derive(Debug, Clone, Copy, PartialEq, Eq)]
pub enum Media {
    Screen,
    Print,
    NoOverride,
}

/// Preferred color scheme to emulate.
#[derive(Debug, Clone, Copy, PartialEq, Eq)]
pub enum ColorScheme {
    Light,
    Dark,
    NoPreference,
    NoOverride,
}

/// Reduced-motion preference to emulate.
#[derive(Debug, Clone, Copy, PartialEq, Eq)]
pub enum ReducedMotion {
    Reduce,
    NoPreference,
    NoOverride,
}

/// Forced-colors preference to emulate.
#[derive(Debug, Clone, Copy, PartialEq, Eq)]
pub enum ForcedColors {
    Active,
    None_,
    NoOverride,
}

pub open spec fn media_wire(m: Media) -> Seq<char> {
    match m {
        Media::Screen => "screen"@,
        Media::Print => "print"@,
        Media::NoOverride => "no-override"@,
    }
}

pub open spec fn color_scheme_wire(c: ColorScheme) -> Seq<char> {
    match c {
        ColorScheme::Light => "light"@,
        ColorScheme::Dark => "dark"@,
        ColorScheme::NoPreference => "no-preference"@,
        ColorScheme::NoOverride => "no-override"@,
    }
}

pub open spec fn reduced_motion_wire(r: ReducedMotion) -> Seq<char> {
    match r {
        ReducedMotion::Reduce => "reduce"@,
        ReducedMotion::NoPreference => "no-preference"@,
        ReducedMotion::NoOverride => "no-override"@,
    }
}

pub open spec fn forced_colors_wire(f: ForcedColors) -> Seq<char> {
    match f {
        ForcedColors::Active => "active"@,
        ForcedColors::None_ => "none"@,
        ForcedColors::NoOverride => "no-override"@,
    }
}

impl Media {
    /// The protocol value.
    pub fn as_str(&self) -> (r: &'static str)
        ensures
            r@ == media_wire(*self),
    {
        match self {
            Media::Screen => "screen",
            Media::Print => "print",
            Media::NoOverride => "no-override",
        }
    }
}

impl ColorScheme {
    /// The protocol value.
    pub fn as_str(&self) -> (r: &'static str)
        ensures
            r@ == color_scheme_wire(*self),
    {
        match self {
            ColorScheme::Light => "light",
            ColorScheme::Dark => "dark",
            ColorScheme::NoPreference => "no-preference",
            ColorScheme::NoOverride => "no-override",
        }
    }
}

impl ReducedMotion {
    /// The protocol value.
    pub fn as_str(&self) -> (r: &'static str)
        ensures
            r@ == reduced_motion_wire(*self),
    {
        match self {
            ReducedMotion::Reduce => "reduce",
            ReducedMotion::NoPreference => "no-preference",
            ReducedMotion::NoOverride => "no-override",
        }
    }
}

impl ForcedColors {
    /// The protocol value.
    pub fn as_str(&self) -> (r: &'static str)
        ensures
            r@ == forced_colors_wire(*self),
    {
        match self {
            ForcedColors::Active => "active",
            ForcedColors::None_ => "none",
            ForcedColors::NoOverride => "no-override",
        }
    }
}

/// Options for `Page::emulate_media`.
#[derive(Debug, Clone, Copy)]
pub struct EmulateMediaOptions {
    pub media: Option<Media>,
    pub color_scheme: Option<ColorScheme>,
    pub reduced_motion: Option<ReducedMotion>,
    pub forced_colors: Option<ForcedColors>,
}

impl EmulateMediaOptions {
    /// Creates a builder with every option unset.
    pub fn builder() -> (r: EmulateMediaOptionsBuilder)
        ensures
            r@.media is None && r@.color_scheme is None && r@.reduced_motion is None
                && r@.forced_colors is None,
    {
        EmulateMediaOptionsBuilder {
            media: None,
            color_scheme: None,
            reduced_motion: None,
            forced_colors: None,
        }
    }
}

/// Builder for [`EmulateMediaOptions`].
#[derive(Debug, Clone, Copy)]
pub struct EmulateMediaOptionsBuilder {
    media: Option<Media>,
    color_scheme: Option<ColorScheme>,
    reduced_motion: Option<ReducedMotion>,
    forced_colors: Option<ForcedColors>,
}

impl View for EmulateMediaOptionsBuilder {
    type V = EmulateMediaOptions;

    /// The options the builder would build.
    closed spec fn view(&self) -> EmulateMediaOptions {
        EmulateMediaOptions {
            media: self.media,
            color_scheme: self.color_scheme,
            reduced_motion: self.reduced_motion,
            forced_colors: self.forced_colors,
        }
    }
}

impl EmulateMediaOptionsBuilder {
    pub fn media(self, media: Media) -> (r: Self)
        ensures
            r@ == (EmulateMediaOptions { media: Some(media), ..self@ }),
    {
        EmulateMediaOptionsBuilder { media: Some(media), ..self }
    }

    pub fn color_scheme(self, color_scheme: ColorScheme) -> (r: Self)
        ensures
            r@ == (EmulateMediaOptions { color_scheme: Some(color_scheme), ..self@ }),
    {
        EmulateMediaOptionsBuilder { color_scheme: Some(color_scheme), ..self }
    }

    pub fn reduced_motion(self, reduced_motion: ReducedMotion) -> (r: Self)
        ensures
            r@ == (EmulateMediaOptions { reduced_motion: Some(reduced_motion), ..self@ }),
    {
        EmulateMediaOptionsBuilder { reduced_motion: Some(reduced_motion), ..self }
    }

    pub fn forced_colors(self, forced_colors: ForcedColors) -> (r: Self)
        ensures
            r@ == (EmulateMediaOptions { forced_colors: Some(forced_colors), ..self@ }),
    {
        EmulateMediaOptionsBuilder { forced_colors: Some(forced_colors), ..self }
    }

    /// Builds the options.
    pub fn build(self) -> (r: EmulateMediaOptions)
        ensures
            r == self@,
    {
        EmulateMediaOptions {
            media: self.media,
            color_scheme: self.color_scheme,
            reduced_motion: self.reduced_motion,
            forced_colors: self.forced_colors,
        }
    }
}

/// The view of a list of protocol parameters.
pub open spec fn params_view(v: Seq<(&'static str, &'static str)>) -> Seq<(Seq<char>, Seq<char>)> {
    v.map_values(|p: (&'static str, &'static str)| (p.0@, p.1@))
}

/// An optional parameter: one entry when present, none when absent.
pub open spec fn opt_param<T>(key: Seq<char>, v: Option<T>, wire: spec_fn(T) -> Seq<char>) -> Seq<(Seq<char>, Seq<char>)> {
    match v {
        Some(x) => seq![(key, wire(x))],
        None => Seq::empty(),
    }
}

/// The `emulateMedia` parameters: each option that is set, under its
/// protocol name, in the order media, colorScheme, reducedMotion,
/// forcedColors.
pub open spec fn emulate_media_params_spec(o: Option<EmulateMediaOptions>) -> Seq<(Seq<char>, Seq<char>)> {
    match o {
        None => Seq::empty(),
        Some(o) => opt_param("media"@, o.media, |m: Media| media_wire(m)) + opt_param(
            "colorScheme"@,
            o.color_scheme,
            |c: ColorScheme| color_scheme_wire(c),
        ) + opt_param("reducedMotion"@, o.reduced_motion, |r: ReducedMotion| reduced_motion_wire(r))
            + opt_param("forcedColors"@, o.forced_colors, |f: ForcedColors| forced_colors_wire(f)),
    }
}

/// The `emulateMedia` parameters for `options`.
pub fn emulate_media_params(options: Option<EmulateMediaOptions>) -> (r: Vec<(&'static str, &'static str)>)
    ensures
        params_view(r@) == emulate_media_params_spec(options),
{
    let mut v: Vec<(&'static str, &'static str)> = Vec::new();
    match options {
        None => {
            assert(params_view(v@) =~= emulate_media_params_spec(options));
        },
        Some(o) => {
            if let Some(m) = o.media {
                v.push(("media", m.as_str()));
            }
            let ghost a = params_view(v@);
            assert(a =~= opt_param("media"@, o.media, |m: Media| media_wire(m)));
            if let Some(c) = o.color_scheme {
                v.push(("colorScheme", c.as_str()));
            }
            let ghost b = params_view(v@);
            assert(b =~= a + opt_param("colorScheme"@, o.color_scheme, |c: ColorScheme| color_scheme_wire(c)));
            if let Some(r) = o.reduced_motion {
                v.push(("reducedMotion", r.as_str()));
            }
            let ghost c2 = params_view(v@);
            assert(c2 =~= b + opt_param("reducedMotion"@, o.reduced_motion, |r: ReducedMotion| reduced_motion_wire(r)));
            if let Some(f) = o.forced_colors {
                v.push(("forcedColors", f.as_str()));
            }
            assert(params_view(v@) =~= c2 + opt_param("forcedColors"@, o.forced_colors, |f: ForcedColors| forced_colors_wire(f)));
        },
    }
    v
}

impl Default for AddStyleTagOptions {
    /// No content, URL or path.
    fn default() -> (r: AddStyleTagOptions)
        ensures
            r.content is None && r.url is None && r.path is None,
    {
        AddStyleTagOptions { content: None, url: None, path: None }
    }
}

impl Default for AddStyleTagOptionsBuilder {
    /// A builder with every option unset.
    fn default() -> (r: AddStyleTagOptionsBuilder)
        ensures
            r@.content is None && r@.url is None && r@.path is None,
    {
        AddStyleTagOptionsBuilder { content: None, url: None, path: None }
    }
}

impl Default for AddScriptTagOptions {
    /// No content, URL, path or type.
    fn default() -> (r: AddScriptTagOptions)
        ensures
            r.content is None && r.url is None && r.path is None && r.type_ is None,
    {
        AddScriptTagOptions { content: None, url: None, path: None, type_: None }
    }
}

impl Default for AddScriptTagOptionsBuilder {
    /// A builder with every option unset.
    fn default() -> (r: AddScriptTagOptionsBuilder)
        ensures
            r@.content is None && r@.url is None && r@.path is None && r@.type_ is None,
    {
        AddScriptTagOptionsBuilder { content: None, url: None, path: None, type_: None }
    }
}

impl Default for EmulateMediaOptions {
    /// Every media feature left as it is.
    fn default() -> (r: EmulateMediaOptions)
        ensures
            r.media is None && r.color_scheme is None && r.reduced_motion is None
                && r.forced_colors is None,
    {
        EmulateMediaOptions { media: None, color_scheme: None, reduced_motion: None, forced_colors: None }
    }
}

impl Default for EmulateMediaOptionsBuilder {
    /// A builder with every option unset.
    fn default() -> (r: EmulateMediaOptionsBuilder)
        ensures
            r@.media is None && r@.color_scheme is None && r@.reduced_motion is None
                && r@.forced_colors is None,
    {
        EmulateMediaOptionsBuilder {
            media: None,
            color_scheme: None,
            reduced_motion: None,
            forced_colors: None,
        }
    }
}

} // verus!
