//! Configuration and console messages of a view, the component that loads and displays web content.
//!
//! [`ViewConfigBuilder`] collects the options a user sets; building the
//! configuration applies exactly those, in a fixed order, through the C API
//! (`ulViewConfigSet*`). The device scale, an `f64` in the C API, is held by
//! its bit pattern (`f64::to_bits`).
use vstd::prelude::*;
use vstd::utf8::{decode_utf8, valid_utf8};

use crate::error::CreationError;
use crate::string::string_from_ul_bytes;

verus! {

/// One option that building applies, with the value the C setter takes.
#[derive(Debug, Clone, PartialEq, Eq)]
pub enum ViewConfigSetting {
    IsAccelerated(bool),
    IsTransparent(bool),
    InitialDeviceScale(u64),
    InitialFocus(bool),
    EnableImages(bool),
    EnableJavaScript(bool),
    FontFamilyStandard(String),
    FontFamilyFixed(String),
    FontFamilySerif(String),
    FontFamilySansSerif(String),
    UserAgent(String),
}

/// A [`ViewConfigSetting`] with its strings taken by their characters.
pub enum ViewConfigSettingModel {
    IsAccelerated(bool),
    IsTransparent(bool),
    InitialDeviceScale(u64),
    InitialFocus(bool),
    EnableImages(bool),
    EnableJavaScript(bool),
    FontFamilyStandard(Seq<char>),
    FontFamilyFixed(Seq<char>),
    FontFamilySerif(Seq<char>),
    FontFamilySansSerif(Seq<char>),
    UserAgent(Seq<char>),
}

impl View for ViewConfigSetting {
    type V = ViewConfigSettingModel;

    open spec fn view(&self) -> ViewConfigSettingModel {
        match self {
            ViewConfigSetting::IsAccelerated(s) => ViewConfigSettingModel::IsAccelerated(*s),
            ViewConfigSetting::IsTransparent(s) => ViewConfigSettingModel::IsTransparent(*s),
            ViewConfigSetting::InitialDeviceScale(s) => ViewConfigSettingModel::InitialDeviceScale(*s),
            ViewConfigSetting::InitialFocus(s) => ViewConfigSettingModel::InitialFocus(*s),
            ViewConfigSetting::EnableImages(s) => ViewConfigSettingModel::EnableImages(*s),
            ViewConfigSetting::EnableJavaScript(s) => ViewConfigSettingModel::EnableJavaScript(*s),
            ViewConfigSetting::FontFamilyStandard(s) => ViewConfigSettingModel::FontFamilyStandard(s@),
            ViewConfigSetting::FontFamilyFixed(s) => ViewConfigSettingModel::FontFamilyFixed(s@),
            ViewConfigSetting::FontFamilySerif(s) => ViewConfigSettingModel::FontFamilySerif(s@),
            ViewConfigSetting::FontFamilySansSerif(s) => ViewConfigSettingModel::FontFamilySansSerif(s@),
            ViewConfigSetting::UserAgent(s) => ViewConfigSettingModel::UserAgent(s@),
        }
    }
}

/// The options of a [`ViewConfigBuilder`]; `None` for an option left unset.
pub struct ViewConfigOptions {
    pub is_accelerated: Option<bool>,
    pub is_transparent: Option<bool>,
    pub initial_device_scale: Option<u64>,
    pub initial_focus: Option<bool>,
    pub enable_images: Option<bool>,
    pub enable_javascript: Option<bool>,
    pub font_family_standard: Option<Seq<char>>,
    pub font_family_fixed: Option<Seq<char>>,
    pub font_family_serif: Option<Seq<char>>,
    pub font_family_sans_serif: Option<Seq<char>>,
    pub user_agent: Option<Seq<char>>,
}

/// The options left unset.
pub open spec fn no_view_options() -> ViewConfigOptions {
    ViewConfigOptions {
        is_accelerated: None,
        is_transparent: None,
        initial_device_scale: None,
        initial_focus: None,
        enable_images: None,
        enable_javascript: None,
        font_family_standard: None,
        font_family_fixed: None,
        font_family_serif: None,
        font_family_sans_serif: None,
        user_agent: None,
    }
}

/// The list holding the setting when it is present, the empty list otherwise.
pub open spec fn view_seq_of(m: Option<ViewConfigSettingModel>) -> Seq<ViewConfigSettingModel> {
    match m {
        Some(x) => seq![x],
        None => Seq::empty(),
    }
}

/// The setting that applies the `is_accelerated` option, if it is set.
pub open spec fn view_is_accelerated_setting(o: ViewConfigOptions) -> Option<ViewConfigSettingModel> {
    match o.is_accelerated {
        Some(v) => Some(ViewConfigSettingModel::IsAccelerated(v)),
        None => None,
    }
}

/// The setting that applies the `is_transparent` option, if it is set.
pub open spec fn view_is_transparent_setting(o: ViewConfigOptions) -> Option<ViewConfigSettingModel> {
    match o.is_transparent {
        Some(v) => Some(ViewConfigSettingModel::IsTransparent(v)),
        None => None,
    }
}

/// The setting that applies the `initial_device_scale` option, if it is set.
pub open spec fn view_initial_device_scale_setting(o: ViewConfigOptions) -> Option<ViewConfigSettingModel> {
    match o.initial_device_scale {
        Some(v) => Some(ViewConfigSettingModel::InitialDeviceScale(v)),
        None => None,
    }
}

/// The setting that applies the `initial_focus` option, if it is set.
pub open spec fn view_initial_focus_setting(o: ViewConfigOptions) -> Option<ViewConfigSettingModel> {
    match o.initial_focus {
        Some(v) => Some(ViewConfigSettingModel::InitialFocus(v)),
        None => None,
    }
}

/// The setting that applies the `enable_images` option, if it is set.
pub open spec fn view_enable_images_setting(o: ViewConfigOptions) -> Option<ViewConfigSettingModel> {
    match o.enable_images {
        Some(v) => Some(ViewConfigSettingModel::EnableImages(v)),
        None => None,
    }
}

/// The setting that applies the `enable_javascript` option, if it is set.
pub open spec fn view_enable_javascript_setting(o: ViewConfigOptions) -> Option<ViewConfigSettingModel> {
    match o.enable_javascript {
        Some(v) => Some(ViewConfigSettingModel::EnableJavaScript(v)),
        None => None,
    }
}

/// The setting that applies the `font_family_standard` option, if it is set.
pub open spec fn view_font_family_standard_setting(o: ViewConfigOptions) -> Option<ViewConfigSettingModel> {
    match o.font_family_standard {
        Some(v) => Some(ViewConfigSettingModel::FontFamilyStandard(v)),
        None => None,
    }
}

/// The setting that applies the `font_family_fixed` option, if it is set.
pub open spec fn view_font_family_fixed_setting(o: ViewConfigOptions) -> Option<ViewConfigSettingModel> {
    match o.font_family_fixed {
        Some(v) => Some(ViewConfigSettingModel::FontFamilyFixed(v)),
        None => None,
    }
}

/// The setting that applies the `font_family_serif` option, if it is set.
pub open spec fn view_font_family_serif_setting(o: ViewConfigOptions) -> Option<ViewConfigSettingModel> {
    match o.font_family_serif {
        Some(v) => Some(ViewConfigSettingModel::FontFamilySerif(v)),
        None => None,
    }
}

/// The setting that applies the `font_family_sans_serif` option, if it is set.
pub open spec fn view_font_family_sans_serif_setting(o: ViewConfigOptions) -> Option<ViewConfigSettingModel> {
    match o.font_family_sans_serif {
        Some(v) => Some(ViewConfigSettingModel::FontFamilySansSerif(v)),
        None => None,
    }
}

/// The setting that applies the `user_agent` option, if it is set.
pub open spec fn view_user_agent_setting(o: ViewConfigOptions) -> Option<ViewConfigSettingModel> {
    match o.user_agent {
        Some(v) => Some(ViewConfigSettingModel::UserAgent(v)),
        None => None,
    }
}

/// The settings that building applies, in the order they are applied: each option that is set, in the order of the fields of [`ViewConfigOptions`].
pub open spec fn view_settings(o: ViewConfigOptions) -> Seq<ViewConfigSettingModel> {
    Seq::empty()
        + view_seq_of(view_is_accelerated_setting(o))
        + view_seq_of(view_is_transparent_setting(o))
        + view_seq_of(view_initial_device_scale_setting(o))
        + view_seq_of(view_initial_focus_setting(o))
        + view_seq_of(view_enable_images_setting(o))
        + view_seq_of(view_enable_javascript_setting(o))
        + view_seq_of(view_font_family_standard_setting(o))
        + view_seq_of(view_font_family_fixed_setting(o))
        + view_seq_of(view_font_family_serif_setting(o))
        + view_seq_of(view_font_family_sans_serif_setting(o))
        + view_seq_of(view_user_agent_setting(o))
}

/// Building with no option set applies no setting, so every option keeps
/// the library's default.
pub proof fn lemma_view_no_options_no_settings()
    ensures
        view_settings(no_view_options()) == Seq::<ViewConfigSettingModel>::empty(),
{
    assert(view_settings(no_view_options()) =~= Seq::<ViewConfigSettingModel>::empty());
}

/// Builder for the configuration of a view.
#[derive(Debug, Clone)]
pub struct ViewConfigBuilder {
    is_accelerated: Option<bool>,
    is_transparent: Option<bool>,
    initial_device_scale: Option<u64>,
    initial_focus: Option<bool>,
    enable_images: Option<bool>,
    enable_javascript: Option<bool>,
    font_family_standard: Option<String>,
    font_family_fixed: Option<String>,
    font_family_serif: Option<String>,
    font_family_sans_serif: Option<String>,
    user_agent: Option<String>,
}

impl View for ViewConfigBuilder {
    type V = ViewConfigOptions;

    closed spec fn view(&self) -> ViewConfigOptions {
        ViewConfigOptions {
            is_accelerated: self.is_accelerated,
            is_transparent: self.is_transparent,
            initial_device_scale: self.initial_device_scale,
            initial_focus: self.initial_focus,
            enable_images: self.enable_images,
            enable_javascript: self.enable_javascript,
            font_family_standard: crate::config::opt_view(self.font_family_standard),
            font_family_fixed: crate::config::opt_view(self.font_family_fixed),
            font_family_serif: crate::config::opt_view(self.font_family_serif),
            font_family_sans_serif: crate::config::opt_view(self.font_family_sans_serif),
            user_agent: crate::config::opt_view(self.user_agent),
        }
    }
}

impl Default for ViewConfigBuilder {
    fn default() -> (r: ViewConfigBuilder)
        ensures
            r@ == no_view_options(),
    {
        ViewConfigBuilder::new()
    }
}

impl ViewConfigBuilder {
    /// A builder with no option set.
    pub fn new() -> (r: ViewConfigBuilder)
        ensures
            r@ == no_view_options(),
    {
        ViewConfigBuilder {
            is_accelerated: None,
            is_transparent: None,
            initial_device_scale: None,
            initial_focus: None,
            enable_images: None,
            enable_javascript: None,
            font_family_standard: None,
            font_family_fixed: None,
            font_family_serif: None,
            font_family_sans_serif: None,
            user_agent: None,
        }
    }

    /// Whether to render using the GPU renderer (accelerated) or the CPU renderer (unaccelerated).
    pub fn is_accelerated(self, is_accelerated: bool) -> (r: ViewConfigBuilder)
        ensures
            r@ == (ViewConfigOptions { is_accelerated: Some(is_accelerated), ..self@ }),
    {
        ViewConfigBuilder { is_accelerated: Some(is_accelerated), ..self }
    }

    /// Whether or not this View should support transparency.
    pub fn is_transparent(self, is_transparent: bool) -> (r: ViewConfigBuilder)
        ensures
            r@ == (ViewConfigOptions { is_transparent: Some(is_transparent), ..self@ }),
    {
        ViewConfigBuilder { is_transparent: Some(is_transparent), ..self }
    }

    /// The initial device scale, ie. the amount to scale page units to screen pixels, by its `f64` bit pattern.
    pub fn initial_device_scale(self, scale_bits: u64) -> (r: ViewConfigBuilder)
        ensures
            r@ == (ViewConfigOptions { initial_device_scale: Some(scale_bits), ..self@ }),
    {
        ViewConfigBuilder { initial_device_scale: Some(scale_bits), ..self }
    }

    /// Whether or not the View should initially have input focus.
    pub fn initial_focus(self, initial_focus: bool) -> (r: ViewConfigBuilder)
        ensures
            r@ == (ViewConfigOptions { initial_focus: Some(initial_focus), ..self@ }),
    {
        ViewConfigBuilder { initial_focus: Some(initial_focus), ..self }
    }

    /// Whether or not images should be enabled.
    pub fn enable_images(self, enable_images: bool) -> (r: ViewConfigBuilder)
        ensures
            r@ == (ViewConfigOptions { enable_images: Some(enable_images), ..self@ }),
    {
        ViewConfigBuilder { enable_images: Some(enable_images), ..self }
    }

    /// Whether or not JavaScript should be enabled.
    pub fn enable_javascript(self, enable_javascript: bool) -> (r: ViewConfigBuilder)
        ensures
            r@ == (ViewConfigOptions { enable_javascript: Some(enable_javascript), ..self@ }),
    {
        ViewConfigBuilder { enable_javascript: Some(enable_javascript), ..self }
    }

    /// Default font-family to use.
    pub fn font_family_standard(self, font_family_standard: &str) -> (r: ViewConfigBuilder)
        ensures
            r@ == (ViewConfigOptions { font_family_standard: Some(font_family_standard@), ..self@ }),
    {
        ViewConfigBuilder { font_family_standard: Some(font_family_standard.to_owned()), ..self }
    }

    /// Default font-family to use for fixed fonts. (pre/code)
    pub fn font_family_fixed(self, font_family_fixed: &str) -> (r: ViewConfigBuilder)
        ensures
            r@ == (ViewConfigOptions { font_family_fixed: Some(font_family_fixed@), ..self@ }),
    {
        ViewConfigBuilder { font_family_fixed: Some(font_family_fixed.to_owned()), ..self }
    }

    /// Default font-family to use for serif fonts.
    pub fn font_family_serif(self, font_family_serif: &str) -> (r: ViewConfigBuilder)
        ensures
            r@ == (ViewConfigOptions { font_family_serif: Some(font_family_serif@), ..self@ }),
    {
        ViewConfigBuilder { font_family_serif: Some(font_family_serif.to_owned()), ..self }
    }

    /// Default font-family to use for sans-serif fonts.
    pub fn font_family_sans_serif(self, font_family_sans_serif: &str) -> (r: ViewConfigBuilder)
        ensures
            r@ == (ViewConfigOptions { font_family_sans_serif: Some(font_family_sans_serif@), ..self@ }),
    {
        ViewConfigBuilder { font_family_sans_serif: Some(font_family_sans_serif.to_owned()), ..self }
    }

    /// User-agent string to use.
    pub fn user_agent(self, user_agent: &str) -> (r: ViewConfigBuilder)
        ensures
            r@ == (ViewConfigOptions { user_agent: Some(user_agent@), ..self@ }),
    {
        ViewConfigBuilder { user_agent: Some(user_agent.to_owned()), ..self }
    }

    /// The settings that building applies through the C API, in the order
    /// they are applied: each option that was set, and no other.
    /// String options must hold no NUL character, as the C API takes them
    /// as C strings.
    pub fn into_settings(self) -> (r: Vec<ViewConfigSetting>)
        requires
            crate::config::free_of_nul(self@.font_family_standard),
            crate::config::free_of_nul(self@.font_family_fixed),
            crate::config::free_of_nul(self@.font_family_serif),
            crate::config::free_of_nul(self@.font_family_sans_serif),
            crate::config::free_of_nul(self@.user_agent),
        ensures
            r@.map_values(|s: ViewConfigSetting| s@) == view_settings(self@),
    {
        let ghost o = self@;
        let mut out: Vec<ViewConfigSetting> = Vec::new();
        assert(out@.map_values(|x: ViewConfigSetting| x@) =~= Seq::<ViewConfigSettingModel>::empty());
        let s = match self.is_accelerated {
            Some(v) => Some(ViewConfigSetting::IsAccelerated(v)),
            None => None,
        };
        assert(view_opt_model(s) == view_is_accelerated_setting(o));
        view_push_setting(&mut out, s);
        let s = match self.is_transparent {
            Some(v) => Some(ViewConfigSetting::IsTransparent(v)),
            None => None,
        };
        assert(view_opt_model(s) == view_is_transparent_setting(o));
        view_push_setting(&mut out, s);
        let s = match self.initial_device_scale {
            Some(v) => Some(ViewConfigSetting::InitialDeviceScale(v)),
            None => None,
        };
        assert(view_opt_model(s) == view_initial_device_scale_setting(o));
        view_push_setting(&mut out, s);
        let s = match self.initial_focus {
            Some(v) => Some(ViewConfigSetting::InitialFocus(v)),
            None => None,
        };
        assert(view_opt_model(s) == view_initial_focus_setting(o));
        view_push_setting(&mut out, s);
        let s = match self.enable_images {
            Some(v) => Some(ViewConfigSetting::EnableImages(v)),
            None => None,
        };
        assert(view_opt_model(s) == view_enable_images_setting(o));
        view_push_setting(&mut out, s);
        let s = match self.enable_javascript {
            Some(v) => Some(ViewConfigSetting::EnableJavaScript(v)),
            None => None,
        };
        assert(view_opt_model(s) == view_enable_javascript_setting(o));
        view_push_setting(&mut out, s);
        let s = match self.font_family_standard {
            Some(v) => Some(ViewConfigSetting::FontFamilyStandard(v)),
            None => None,
        };
        assert(view_opt_model(s) == view_font_family_standard_setting(o));
        view_push_setting(&mut out, s);
        let s = match self.font_family_fixed {
            Some(v) => Some(ViewConfigSetting::FontFamilyFixed(v)),
            None => None,
        };
        assert(view_opt_model(s) == view_font_family_fixed_setting(o));
        view_push_setting(&mut out, s);
        let s = match self.font_family_serif {
            Some(v) => Some(ViewConfigSetting::FontFamilySerif(v)),
            None => None,
        };
        assert(view_opt_model(s) == view_font_family_serif_setting(o));
        view_push_setting(&mut out, s);
        let s = match self.font_family_sans_serif {
            Some(v) => Some(ViewConfigSetting::FontFamilySansSerif(v)),
            None => None,
        };
        assert(view_opt_model(s) == view_font_family_sans_serif_setting(o));
        view_push_setting(&mut out, s);
        let s = match self.user_agent {
            Some(v) => Some(ViewConfigSetting::UserAgent(v)),
            None => None,
        };
        assert(view_opt_model(s) == view_user_agent_setting(o));
        view_push_setting(&mut out, s);
        out
    }
}

/// The model of an optional setting.
pub open spec fn view_opt_model(s: Option<ViewConfigSetting>) -> Option<ViewConfigSettingModel> {
    match s {
        Some(x) => Some(x@),
        None => None,
    }
}

/// Appends a setting, if present, to the list of settings.
fn view_push_setting(out: &mut Vec<ViewConfigSetting>, s: Option<ViewConfigSetting>)
    ensures
        final(out)@.map_values(|x: ViewConfigSetting| x@) == old(out)@.map_values(|x: ViewConfigSetting| x@)
            + view_seq_of(view_opt_model(s)),
{
    let ghost before = out@;
    if let Some(x) = s {
        out.push(x);
    }
    assert(out@.map_values(|x: ViewConfigSetting| x@) =~= before.map_values(|x: ViewConfigSetting| x@)
        + view_seq_of(view_opt_model(s)));
}

/// Console message source types.
#[derive(Debug, Clone, Copy, PartialEq, Eq)]
pub enum ConsoleMessageSource {
    XML,
    JS,
    Network,
    ConsoleAPI,
    Storage,
    AppCache,
    Rendering,
    CSS,
    Security,
    ContentBlocker,
    Other,
}

impl ConsoleMessageSource {
    /// The C API value of this variant (`kMessageSource_*`).
    pub open spec fn spec_raw(self) -> u32 {
        match self {
            ConsoleMessageSource::XML => 0,
            ConsoleMessageSource::JS => 1,
            ConsoleMessageSource::Network => 2,
            ConsoleMessageSource::ConsoleAPI => 3,
            ConsoleMessageSource::Storage => 4,
            ConsoleMessageSource::AppCache => 5,
            ConsoleMessageSource::Rendering => 6,
            ConsoleMessageSource::CSS => 7,
            ConsoleMessageSource::Security => 8,
            ConsoleMessageSource::ContentBlocker => 9,
            ConsoleMessageSource::Other => 10,
        }
    }

    /// The C API value of this variant (`kMessageSource_*`).
    pub fn to_raw(&self) -> (r: u32)
        ensures
            r == self.spec_raw(),
    {
        match self {
            ConsoleMessageSource::XML => 0,
            ConsoleMessageSource::JS => 1,
            ConsoleMessageSource::Network => 2,
            ConsoleMessageSource::ConsoleAPI => 3,
            ConsoleMessageSource::Storage => 4,
            ConsoleMessageSource::AppCache => 5,
            ConsoleMessageSource::Rendering => 6,
            ConsoleMessageSource::CSS => 7,
            ConsoleMessageSource::Security => 8,
            ConsoleMessageSource::ContentBlocker => 9,
            ConsoleMessageSource::Other => 10,
        }
    }

    /// The variant with the given C API value; `None` for an unknown value.
    pub fn from_raw(raw: u32) -> (r: Option<ConsoleMessageSource>)
        ensures
            match r {
                Some(v) => v.spec_raw() == raw,
                None => forall|v: ConsoleMessageSource| v.spec_raw() != raw,
            },
    {
        if raw == 0 {
            Some(ConsoleMessageSource::XML)
        } else if raw == 1 {
            Some(ConsoleMessageSource::JS)
        } else if raw == 2 {
            Some(ConsoleMessageSource::Network)
        } else if raw == 3 {
            Some(ConsoleMessageSource::ConsoleAPI)
        } else if raw == 4 {
            Some(ConsoleMessageSource::Storage)
        } else if raw == 5 {
            Some(ConsoleMessageSource::AppCache)
        } else if raw == 6 {
            Some(ConsoleMessageSource::Rendering)
        } else if raw == 7 {
            Some(ConsoleMessageSource::CSS)
        } else if raw == 8 {
            Some(ConsoleMessageSource::Security)
        } else if raw == 9 {
            Some(ConsoleMessageSource::ContentBlocker)
        } else if raw == 10 {
            Some(ConsoleMessageSource::Other)
        } else {
            None
        }
    }
}

/// Decoding the C API value of a variant gives the variant back.
pub proof fn lemma_console_message_source_raw_roundtrip(v: ConsoleMessageSource)
    ensures
        forall|w: ConsoleMessageSource| w.spec_raw() == v.spec_raw() ==> w == v,
{
}

/// Console message levels.
#[derive(Debug, Clone, Copy, PartialEq, Eq)]
pub enum ConsoleMessageLevel {
    Log,
    Warning,
    Error,
    Debug,
    Info,
}

impl ConsoleMessageLevel {
    /// The C API value of this variant (`kMessageLevel_*`).
    pub open spec fn spec_raw(self) -> u32 {
        match self {
            ConsoleMessageLevel::Log => 1,
            ConsoleMessageLevel::Warning => 2,
            ConsoleMessageLevel::Error => 3,
            ConsoleMessageLevel::Debug => 4,
            ConsoleMessageLevel::Info => 5,
        }
    }

    /// The C API value of this variant (`kMessageLevel_*`).
    pub fn to_raw(&self) -> (r: u32)
        ensures
            r == self.spec_raw(),
    {
        match self {
            ConsoleMessageLevel::Log => 1,
            ConsoleMessageLevel::Warning => 2,
            ConsoleMessageLevel::Error => 3,
            ConsoleMessageLevel::Debug => 4,
            ConsoleMessageLevel::Info => 5,
        }
    }

    /// The variant with the given C API value; `None` for an unknown value.
    pub fn from_raw(raw: u32) -> (r: Option<ConsoleMessageLevel>)
        ensures
            match r {
                Some(v) => v.spec_raw() == raw,
                None => forall|v: ConsoleMessageLevel| v.spec_raw() != raw,
            },
    {
        if raw == 1 {
            Some(ConsoleMessageLevel::Log)
        } else if raw == 2 {
            Some(ConsoleMessageLevel::Warning)
        } else if raw == 3 {
            Some(ConsoleMessageLevel::Error)
        } else if raw == 4 {
            Some(ConsoleMessageLevel::Debug)
        } else if raw == 5 {
            Some(ConsoleMessageLevel::Info)
        } else {
            None
        }
    }
}

/// Decoding the C API value of a variant gives the variant back.
pub proof fn lemma_console_message_level_raw_roundtrip(v: ConsoleMessageLevel)
    ensures
        forall|w: ConsoleMessageLevel| w.spec_raw() == v.spec_raw() ==> w == v,
{
}

/// The outcome of evaluating a script in a view, from what the C API handed
/// out: when the exception string is not empty the exception is returned in
/// [`Err`], otherwise the result string in [`Ok`]; either string is converted
/// as [`string_from_ul_bytes`] does (`None` for a null string).
pub fn script_outcome(
    has_exception: bool,
    exception: Option<&[u8]>,
    result: Option<&[u8]>,
) -> (r: Result<Result<String, String>, CreationError>)
    ensures
        ({
            let chosen = if has_exception {
                exception
            } else {
                result
            };
            match chosen {
                None => r matches Err(CreationError::NullReference),
                Some(bytes) => match r {
                    Ok(Ok(s)) => !has_exception && valid_utf8(bytes@) && s@ == decode_utf8(bytes@),
                    Ok(Err(s)) => has_exception && valid_utf8(bytes@) && s@ == decode_utf8(bytes@),
                    Err(e) => !valid_utf8(bytes@) && e is RustStringCreationError,
                },
            }
        }),
{
    if has_exception {
        let s = string_from_ul_bytes(exception)?;
        Ok(Err(s))
    } else {
        let s = string_from_ul_bytes(result)?;
        Ok(Ok(s))
    }
}

/// The C API value of each variant (`kMessageSource_*`): `XML` is 0, `JS` is 1, `Network` is 2,
/// `ConsoleAPI` is 3, `Storage` is 4, `AppCache` is 5, `Rendering` is 6, `CSS` is 7, `Security`
/// is 8, `ContentBlocker` is 9, `Other` is 10.
pub proof fn lemma_console_message_source_raw_values()
    ensures
        ConsoleMessageSource::XML.spec_raw() == 0,
        ConsoleMessageSource::JS.spec_raw() == 1,
        ConsoleMessageSource::Network.spec_raw() == 2,
        ConsoleMessageSource::ConsoleAPI.spec_raw() == 3,
        ConsoleMessageSource::Storage.spec_raw() == 4,
        ConsoleMessageSource::AppCache.spec_raw() == 5,
        ConsoleMessageSource::Rendering.spec_raw() == 6,
        ConsoleMessageSource::CSS.spec_raw() == 7,
        ConsoleMessageSource::Security.spec_raw() == 8,
        ConsoleMessageSource::ContentBlocker.spec_raw() == 9,
        ConsoleMessageSource::Other.spec_raw() == 10,
{
}

/// The C API value of each variant (`kMessageLevel_*`): `Log` is 1, `Warning` is 2, `Error` is
/// 3, `Debug` is 4, `Info` is 5.
pub proof fn lemma_console_message_level_raw_values()
    ensures
        ConsoleMessageLevel::Log.spec_raw() == 1,
        ConsoleMessageLevel::Warning.spec_raw() == 2,
        ConsoleMessageLevel::Error.spec_raw() == 3,
        ConsoleMessageLevel::Debug.spec_raw() == 4,
        ConsoleMessageLevel::Info.spec_raw() == 5,
{
}

/// The position of the option a setting applies among the options of
/// [`ViewConfigOptions`], which is the order in which building applies them.
pub open spec fn view_setting_rank(m: ViewConfigSettingModel) -> int {
    match m {
        ViewConfigSettingModel::IsAccelerated(_) => 0,
        ViewConfigSettingModel::IsTransparent(_) => 1,
        ViewConfigSettingModel::InitialDeviceScale(_) => 2,
        ViewConfigSettingModel::InitialFocus(_) => 3,
        ViewConfigSettingModel::EnableImages(_) => 4,
        ViewConfigSettingModel::EnableJavaScript(_) => 5,
        ViewConfigSettingModel::FontFamilyStandard(_) => 6,
        ViewConfigSettingModel::FontFamilyFixed(_) => 7,
        ViewConfigSettingModel::FontFamilySerif(_) => 8,
        ViewConfigSettingModel::FontFamilySansSerif(_) => 9,
        ViewConfigSettingModel::UserAgent(_) => 10,
    }
}

proof fn lemma_view_settings_members(o: ViewConfigOptions, y: ViewConfigSettingModel)
    ensures
        crate::config::ranked_increasing(view_settings(o), |m: ViewConfigSettingModel| view_setting_rank(m)),
        view_settings(o).contains(y) == (
view_is_accelerated_setting(o) == Some(y) || view_is_transparent_setting(o) == Some(y) || view_initial_device_scale_setting(o) == Some(y) || view_initial_focus_setting(o) == Some(y) || view_enable_images_setting(o) == Some(y) || view_enable_javascript_setting(o) == Some(y) || view_font_family_standard_setting(o) == Some(y) || view_font_family_fixed_setting(o) == Some(y) || view_font_family_serif_setting(o) == Some(y) || view_font_family_sans_serif_setting(o) == Some(y) || view_user_agent_setting(o) == Some(y)
        ),
{
    let rank = |m: ViewConfigSettingModel| view_setting_rank(m);
    let p0 = Seq::<ViewConfigSettingModel>::empty();
    let p1 = p0 + view_seq_of(view_is_accelerated_setting(o));
    crate::config::lemma_append_ranked(p0, view_seq_of(view_is_accelerated_setting(o)), rank, 0, y);
    let p2 = p1 + view_seq_of(view_is_transparent_setting(o));
    crate::config::lemma_append_ranked(p1, view_seq_of(view_is_transparent_setting(o)), rank, 1, y);
    let p3 = p2 + view_seq_of(view_initial_device_scale_setting(o));
    crate::config::lemma_append_ranked(p2, view_seq_of(view_initial_device_scale_setting(o)), rank, 2, y);
    let p4 = p3 + view_seq_of(view_initial_focus_setting(o));
    crate::config::lemma_append_ranked(p3, view_seq_of(view_initial_focus_setting(o)), rank, 3, y);
    let p5 = p4 + view_seq_of(view_enable_images_setting(o));
    crate::config::lemma_append_ranked(p4, view_seq_of(view_enable_images_setting(o)), rank, 4, y);
    let p6 = p5 + view_seq_of(view_enable_javascript_setting(o));
    crate::config::lemma_append_ranked(p5, view_seq_of(view_enable_javascript_setting(o)), rank, 5, y);
    let p7 = p6 + view_seq_of(view_font_family_standard_setting(o));
    crate::config::lemma_append_ranked(p6, view_seq_of(view_font_family_standard_setting(o)), rank, 6, y);
    let p8 = p7 + view_seq_of(view_font_family_fixed_setting(o));
    crate::config::lemma_append_ranked(p7, view_seq_of(view_font_family_fixed_setting(o)), rank, 7, y);
    let p9 = p8 + view_seq_of(view_font_family_serif_setting(o));
    crate::config::lemma_append_ranked(p8, view_seq_of(view_font_family_serif_setting(o)), rank, 8, y);
    let p10 = p9 + view_seq_of(view_font_family_sans_serif_setting(o));
    crate::config::lemma_append_ranked(p9, view_seq_of(view_font_family_sans_serif_setting(o)), rank, 9, y);
    let p11 = p10 + view_seq_of(view_user_agent_setting(o));
    crate::config::lemma_append_ranked(p10, view_seq_of(view_user_agent_setting(o)), rank, 10, y);
    assert(view_settings(o) == p11);
}

/// Building applies exactly the options that are set, each through the
/// setting of its own name with the value it was set to, once, in the order
/// of the options of [`ViewConfigOptions`].
pub proof fn lemma_view_settings_are_the_options(o: ViewConfigOptions)
    ensures
        forall|x: bool| #[trigger] view_settings(o).contains(ViewConfigSettingModel::IsAccelerated(x)) == (o.is_accelerated == Some(x)),
        forall|x: bool| #[trigger] view_settings(o).contains(ViewConfigSettingModel::IsTransparent(x)) == (o.is_transparent == Some(x)),
        forall|x: u64| #[trigger] view_settings(o).contains(ViewConfigSettingModel::InitialDeviceScale(x)) == (o.initial_device_scale == Some(x)),
        forall|x: bool| #[trigger] view_settings(o).contains(ViewConfigSettingModel::InitialFocus(x)) == (o.initial_focus == Some(x)),
        forall|x: bool| #[trigger] view_settings(o).contains(ViewConfigSettingModel::EnableImages(x)) == (o.enable_images == Some(x)),
        forall|x: bool| #[trigger] view_settings(o).contains(ViewConfigSettingModel::EnableJavaScript(x)) == (o.enable_javascript == Some(x)),
        forall|x: Seq<char>| #[trigger] view_settings(o).contains(ViewConfigSettingModel::FontFamilyStandard(x)) == (o.font_family_standard == Some(x)),
        forall|x: Seq<char>| #[trigger] view_settings(o).contains(ViewConfigSettingModel::FontFamilyFixed(x)) == (o.font_family_fixed == Some(x)),
        forall|x: Seq<char>| #[trigger] view_settings(o).contains(ViewConfigSettingModel::FontFamilySerif(x)) == (o.font_family_serif == Some(x)),
        forall|x: Seq<char>| #[trigger] view_settings(o).contains(ViewConfigSettingModel::FontFamilySansSerif(x)) == (o.font_family_sans_serif == Some(x)),
        forall|x: Seq<char>| #[trigger] view_settings(o).contains(ViewConfigSettingModel::UserAgent(x)) == (o.user_agent == Some(x)),
        forall|i: int, j: int|
            0 <= i < j < view_settings(o).len() ==> #[trigger] view_setting_rank(view_settings(o)[i]) < #[trigger] view_setting_rank(view_settings(o)[j]),
{
    assert forall|x: bool| #[trigger] view_settings(o).contains(ViewConfigSettingModel::IsAccelerated(x)) == (o.is_accelerated == Some(x)) by {
        lemma_view_settings_members(o, ViewConfigSettingModel::IsAccelerated(x));
    }
    assert forall|x: bool| #[trigger] view_settings(o).contains(ViewConfigSettingModel::IsTransparent(x)) == (o.is_transparent == Some(x)) by {
        lemma_view_settings_members(o, ViewConfigSettingModel::IsTransparent(x));
    }
    assert forall|x: u64| #[trigger] view_settings(o).contains(ViewConfigSettingModel::InitialDeviceScale(x)) == (o.initial_device_scale == Some(x)) by {
        lemma_view_settings_members(o, ViewConfigSettingModel::InitialDeviceScale(x));
    }
    assert forall|x: bool| #[trigger] view_settings(o).contains(ViewConfigSettingModel::InitialFocus(x)) == (o.initial_focus == Some(x)) by {
        lemma_view_settings_members(o, ViewConfigSettingModel::InitialFocus(x));
    }
    assert forall|x: bool| #[trigger] view_settings(o).contains(ViewConfigSettingModel::EnableImages(x)) == (o.enable_images == Some(x)) by {
        lemma_view_settings_members(o, ViewConfigSettingModel::EnableImages(x));
    }
    assert forall|x: bool| #[trigger] view_settings(o).contains(ViewConfigSettingModel::EnableJavaScript(x)) == (o.enable_javascript == Some(x)) by {
        lemma_view_settings_members(o, ViewConfigSettingModel::EnableJavaScript(x));
    }
    assert forall|x: Seq<char>| #[trigger] view_settings(o).contains(ViewConfigSettingModel::FontFamilyStandard(x)) == (o.font_family_standard == Some(x)) by {
        lemma_view_settings_members(o, ViewConfigSettingModel::FontFamilyStandard(x));
    }
    assert forall|x: Seq<char>| #[trigger] view_settings(o).contains(ViewConfigSettingModel::FontFamilyFixed(x)) == (o.font_family_fixed == Some(x)) by {
        lemma_view_settings_members(o, ViewConfigSettingModel::FontFamilyFixed(x));
    }
    assert forall|x: Seq<char>| #[trigger] view_settings(o).contains(ViewConfigSettingModel::FontFamilySerif(x)) == (o.font_family_serif == Some(x)) by {
        lemma_view_settings_members(o, ViewConfigSettingModel::FontFamilySerif(x));
    }
    assert forall|x: Seq<char>| #[trigger] view_settings(o).contains(ViewConfigSettingModel::FontFamilySansSerif(x)) == (o.font_family_sans_serif == Some(x)) by {
        lemma_view_settings_members(o, ViewConfigSettingModel::FontFamilySansSerif(x));
    }
    assert forall|x: Seq<char>| #[trigger] view_settings(o).contains(ViewConfigSettingModel::UserAgent(x)) == (o.user_agent == Some(x)) by {
        lemma_view_settings_members(o, ViewConfigSettingModel::UserAgent(x));
    }
    let s = view_settings(o);
    assert forall|i: int, j: int| 0 <= i < j < s.len() implies #[trigger] view_setting_rank(s[i]) < #[trigger] view_setting_rank(s[j]) by {
        lemma_view_settings_members(o, s[i]);
        assert(crate::config::ranked_increasing(s, |m: ViewConfigSettingModel| view_setting_rank(m)));
    }
}

/// Each setting is taken by the model setting of the same name, with the
/// same value (a string by its characters).
pub proof fn lemma_view_setting_views()
    ensures
        forall|x: bool| #[trigger] ViewConfigSetting::IsAccelerated(x)@ == ViewConfigSettingModel::IsAccelerated(x),
        forall|x: bool| #[trigger] ViewConfigSetting::IsTransparent(x)@ == ViewConfigSettingModel::IsTransparent(x),
        forall|x: u64| #[trigger] ViewConfigSetting::InitialDeviceScale(x)@ == ViewConfigSettingModel::InitialDeviceScale(x),
        forall|x: bool| #[trigger] ViewConfigSetting::InitialFocus(x)@ == ViewConfigSettingModel::InitialFocus(x),
        forall|x: bool| #[trigger] ViewConfigSetting::EnableImages(x)@ == ViewConfigSettingModel::EnableImages(x),
        forall|x: bool| #[trigger] ViewConfigSetting::EnableJavaScript(x)@ == ViewConfigSettingModel::EnableJavaScript(x),
        forall|x: String| #[trigger] ViewConfigSetting::FontFamilyStandard(x)@ == ViewConfigSettingModel::FontFamilyStandard(x@),
        forall|x: String| #[trigger] ViewConfigSetting::FontFamilyFixed(x)@ == ViewConfigSettingModel::FontFamilyFixed(x@),
        forall|x: String| #[trigger] ViewConfigSetting::FontFamilySerif(x)@ == ViewConfigSettingModel::FontFamilySerif(x@),
        forall|x: String| #[trigger] ViewConfigSetting::FontFamilySansSerif(x)@ == ViewConfigSettingModel::FontFamilySansSerif(x@),
        forall|x: String| #[trigger] ViewConfigSetting::UserAgent(x)@ == ViewConfigSettingModel::UserAgent(x@),
{
}

} // verus!
