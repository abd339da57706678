//! The configuration of the renderer.
//!
//! [`ConfigBuilder`] collects the options a user sets; building a
//! configuration applies exactly those options, in a fixed order, through the
//! C API. The options that the C API takes as `f64` are held here by their
//! IEEE-754 bit patterns (`f64::to_bits`).
use vstd::prelude::*;

verus! {

/// The winding order for front-facing triangles. (Only used when the GPU renderer is used)
#[derive(Debug, Clone, Copy, PartialEq, Eq)]
pub enum FaceWinding {
    /// Clockwise Winding (Direct3D, etc.)
    Clockwise,
    /// Counter-Clockwise Winding (OpenGL, etc.)
    CounterClockwise,
}

impl FaceWinding {
    /// The C API value of this winding (`kFaceWinding_*`).
    pub open spec fn spec_raw(self) -> u32 {
        match self {
            FaceWinding::Clockwise => 0,
            FaceWinding::CounterClockwise => 1,
        }
    }

    /// The C API value of this winding (`kFaceWinding_*`).
    pub fn to_raw(&self) -> (r: u32)
        ensures
            r == self.spec_raw(),
    {
        match self {
            FaceWinding::Clockwise => 0,
            FaceWinding::CounterClockwise => 1,
        }
    }
}

/// The font hinting algorithm.
#[derive(Debug, Clone, Copy, PartialEq, Eq)]
pub enum FontHinting {
    /// Lighter hinting algorithm: glyphs are snapped to the pixel grid only vertically.
    Smooth,
    /// Default hinting algorithm.
    Normal,
    /// Strongest hinting algorithm: outputs only black/white glyphs.
    Monochrome,
}

impl FontHinting {
    /// The C API value of this hinting (`kFontHinting_*`).
    pub open spec fn spec_raw(self) -> u32 {
        match self {
            FontHinting::Smooth => 0,
            FontHinting::Normal => 1,
            FontHinting::Monochrome => 2,
        }
    }

    /// The C API value of this hinting (`kFontHinting_*`).
    pub fn to_raw(&self) -> (r: u32)
        ensures
            r == self.spec_raw(),
    {
        match self {
            FontHinting::Smooth => 0,
            FontHinting::Normal => 1,
            FontHinting::Monochrome => 2,
        }
    }
}

/// One option that building a configuration applies, with the value the C
/// setter takes (`ulConfigSet*`): strings as they are, the winding and the
/// hinting by their C API value, `f64` values by their bit patterns.
#[derive(Debug, Clone, PartialEq, Eq)]
pub enum ConfigSetting {
    CachePath(String),
    ResourcePathPrefix(String),
    FaceWinding(u32),
    FontHinting(u32),
    FontGamma(u64),
    UserStylesheet(String),
    ForceRepaint(bool),
    AnimationTimerDelay(u64),
    ScrollTimerDelay(u64),
    RecycleDelay(u64),
    MemoryCacheSize(u32),
    PageCacheSize(u32),
    OverrideRamSize(u32),
    MinLargeHeapSize(u32),
    MinSmallHeapSize(u32),
    NumRendererThreads(u32),
    MaxUpdateTime(u64),
    BitmapAlignment(u32),
}

/// A [`ConfigSetting`] with its strings taken by their characters.
pub enum ConfigSettingModel {
    CachePath(Seq<char>),
    ResourcePathPrefix(Seq<char>),
    FaceWinding(u32),
    FontHinting(u32),
    FontGamma(u64),
    UserStylesheet(Seq<char>),
    ForceRepaint(bool),
    AnimationTimerDelay(u64),
    ScrollTimerDelay(u64),
    RecycleDelay(u64),
    MemoryCacheSize(u32),
    PageCacheSize(u32),
    OverrideRamSize(u32),
    MinLargeHeapSize(u32),
    MinSmallHeapSize(u32),
    NumRendererThreads(u32),
    MaxUpdateTime(u64),
    BitmapAlignment(u32),
}

impl View for ConfigSetting {
    type V = ConfigSettingModel;

    open spec fn view(&self) -> ConfigSettingModel {
        match self {
            ConfigSetting::CachePath(s) => ConfigSettingModel::CachePath(s@),
            ConfigSetting::ResourcePathPrefix(s) => ConfigSettingModel::ResourcePathPrefix(s@),
            ConfigSetting::FaceWinding(v) => ConfigSettingModel::FaceWinding(*v),
            ConfigSetting::FontHinting(v) => ConfigSettingModel::FontHinting(*v),
            ConfigSetting::FontGamma(v) => ConfigSettingModel::FontGamma(*v),
            ConfigSetting::UserStylesheet(s) => ConfigSettingModel::UserStylesheet(s@),
            ConfigSetting::ForceRepaint(v) => ConfigSettingModel::ForceRepaint(*v),
            ConfigSetting::AnimationTimerDelay(v) => ConfigSettingModel::AnimationTimerDelay(*v),
            ConfigSetting::ScrollTimerDelay(v) => ConfigSettingModel::ScrollTimerDelay(*v),
            ConfigSetting::RecycleDelay(v) => ConfigSettingModel::RecycleDelay(*v),
            ConfigSetting::MemoryCacheSize(v) => ConfigSettingModel::MemoryCacheSize(*v),
            ConfigSetting::PageCacheSize(v) => ConfigSettingModel::PageCacheSize(*v),
            ConfigSetting::OverrideRamSize(v) => ConfigSettingModel::OverrideRamSize(*v),
            ConfigSetting::MinLargeHeapSize(v) => ConfigSettingModel::MinLargeHeapSize(*v),
            ConfigSetting::MinSmallHeapSize(v) => ConfigSettingModel::MinSmallHeapSize(*v),
            ConfigSetting::NumRendererThreads(v) => ConfigSettingModel::NumRendererThreads(*v),
            ConfigSetting::MaxUpdateTime(v) => ConfigSettingModel::MaxUpdateTime(*v),
            ConfigSetting::BitmapAlignment(v) => ConfigSettingModel::BitmapAlignment(*v),
        }
    }
}

/// The options of a [`ConfigBuilder`]; `None` for an option left unset.
pub struct ConfigOptions {
    pub cache_path: Option<Seq<char>>,
    pub resource_path_prefix: Option<Seq<char>>,
    pub face_winding: Option<FaceWinding>,
    pub font_hinting: Option<FontHinting>,
    pub font_gamma: Option<u64>,
    pub user_stylesheet: Option<Seq<char>>,
    pub force_repaint: Option<bool>,
    pub animation_timer_delay: Option<u64>,
    pub scroll_timer_delay: Option<u64>,
    pub recycle_delay: Option<u64>,
    pub memory_cache_size: Option<u32>,
    pub page_cache_size: Option<u32>,
    pub override_ram_size: Option<u32>,
    pub min_large_heap_size: Option<u32>,
    pub min_small_heap_size: Option<u32>,
    pub num_renderer_threads: Option<u32>,
    pub max_update_time: Option<u64>,
    pub bitmap_alignment: Option<u32>,
}

/// The options left unset.
pub open spec fn no_config_options() -> ConfigOptions {
    ConfigOptions {
        cache_path: None,
        resource_path_prefix: None,
        face_winding: None,
        font_hinting: None,
        font_gamma: None,
        user_stylesheet: None,
        force_repaint: None,
        animation_timer_delay: None,
        scroll_timer_delay: None,
        recycle_delay: None,
        memory_cache_size: None,
        page_cache_size: None,
        override_ram_size: None,
        min_large_heap_size: None,
        min_small_heap_size: None,
        num_renderer_threads: None,
        max_update_time: None,
        bitmap_alignment: None,
    }
}

/// The list holding the setting when it is present, the empty list otherwise.
pub open spec fn seq_of(m: Option<ConfigSettingModel>) -> Seq<ConfigSettingModel> {
    match m {
        Some(x) => seq![x],
        None => Seq::empty(),
    }
}

/// The setting that applies the `cache_path` option, if it is set.
pub open spec fn cache_path_setting(o: ConfigOptions) -> Option<ConfigSettingModel> {
    match o.cache_path {
        Some(v) => Some(ConfigSettingModel::CachePath(v)),
        None => None,
    }
}

/// The setting that applies the `resource_path_prefix` option, if it is set.
pub open spec fn resource_path_prefix_setting(o: ConfigOptions) -> Option<ConfigSettingModel> {
    match o.resource_path_prefix {
        Some(v) => Some(ConfigSettingModel::ResourcePathPrefix(v)),
        None => None,
    }
}

/// The setting that applies the `face_winding` option, if it is set.
pub open spec fn face_winding_setting(o: ConfigOptions) -> Option<ConfigSettingModel> {
    match o.face_winding {
        Some(v) => Some(ConfigSettingModel::FaceWinding(v.spec_raw())),
        None => None,
    }
}

/// The setting that applies the `font_hinting` option, if it is set.
pub open spec fn font_hinting_setting(o: ConfigOptions) -> Option<ConfigSettingModel> {
    match o.font_hinting {
        Some(v) => Some(ConfigSettingModel::FontHinting(v.spec_raw())),
        None => None,
    }
}

/// The setting that applies the `font_gamma` option, if it is set.
pub open spec fn font_gamma_setting(o: ConfigOptions) -> Option<ConfigSettingModel> {
    match o.font_gamma {
        Some(v) => Some(ConfigSettingModel::FontGamma(v)),
        None => None,
    }
}

/// The setting that applies the `user_stylesheet` option, if it is set.
pub open spec fn user_stylesheet_setting(o: ConfigOptions) -> Option<ConfigSettingModel> {
    match o.user_stylesheet {
        Some(v) => Some(ConfigSettingModel::UserStylesheet(v)),
        None => None,
    }
}

/// The setting that applies the `force_repaint` option, if it is set.
pub open spec fn force_repaint_setting(o: ConfigOptions) -> Option<ConfigSettingModel> {
    match o.force_repaint {
        Some(v) => Some(ConfigSettingModel::ForceRepaint(v)),
        None => None,
    }
}

/// The setting that applies the `animation_timer_delay` option, if it is set.
pub open spec fn animation_timer_delay_setting(o: ConfigOptions) -> Option<ConfigSettingModel> {
    match o.animation_timer_delay {
        Some(v) => Some(ConfigSettingModel::AnimationTimerDelay(v)),
        None => None,
    }
}

/// The setting that applies the `scroll_timer_delay` option, if it is set.
pub open spec fn scroll_timer_delay_setting(o: ConfigOptions) -> Option<ConfigSettingModel> {
    match o.scroll_timer_delay {
        Some(v) => Some(ConfigSettingModel::ScrollTimerDelay(v)),
        None => None,
    }
}

/// The setting that applies the `recycle_delay` option, if it is set.
pub open spec fn recycle_delay_setting(o: ConfigOptions) -> Option<ConfigSettingModel> {
    match o.recycle_delay {
        Some(v) => Some(ConfigSettingModel::RecycleDelay(v)),
        None => None,
    }
}

/// The setting that applies the `memory_cache_size` option, if it is set.
pub open spec fn memory_cache_size_setting(o: ConfigOptions) -> Option<ConfigSettingModel> {
    match o.memory_cache_size {
        Some(v) => Some(ConfigSettingModel::MemoryCacheSize(v)),
        None => None,
    }
}

/// The setting that applies the `page_cache_size` option, if it is set.
pub open spec fn page_cache_size_setting(o: ConfigOptions) -> Option<ConfigSettingModel> {
    match o.page_cache_size {
        Some(v) => Some(ConfigSettingModel::PageCacheSize(v)),
        None => None,
    }
}

/// The setting that applies the `override_ram_size` option, if it is set.
pub open spec fn override_ram_size_setting(o: ConfigOptions) -> Option<ConfigSettingModel> {
    match o.override_ram_size {
        Some(v) => Some(ConfigSettingModel::OverrideRamSize(v)),
        None => None,
    }
}

/// The setting that applies the `min_large_heap_size` option, if it is set.
pub open spec fn min_large_heap_size_setting(o: ConfigOptions) -> Option<ConfigSettingModel> {
    match o.min_large_heap_size {
        Some(v) => Some(ConfigSettingModel::MinLargeHeapSize(v)),
        None => None,
    }
}

/// The setting that applies the `min_small_heap_size` option, if it is set.
pub open spec fn min_small_heap_size_setting(o: ConfigOptions) -> Option<ConfigSettingModel> {
    match o.min_small_heap_size {
        Some(v) => Some(ConfigSettingModel::MinSmallHeapSize(v)),
        None => None,
    }
}

/// The setting that applies the `num_renderer_threads` option, if it is set.
pub open spec fn num_renderer_threads_setting(o: ConfigOptions) -> Option<ConfigSettingModel> {
    match o.num_renderer_threads {
        Some(v) => Some(ConfigSettingModel::NumRendererThreads(v)),
        None => None,
    }
}

/// The setting that applies the `max_update_time` option, if it is set.
pub open spec fn max_update_time_setting(o: ConfigOptions) -> Option<ConfigSettingModel> {
    match o.max_update_time {
        Some(v) => Some(ConfigSettingModel::MaxUpdateTime(v)),
        None => None,
    }
}

/// The setting that applies the `bitmap_alignment` option, if it is set.
pub open spec fn bitmap_alignment_setting(o: ConfigOptions) -> Option<ConfigSettingModel> {
    match o.bitmap_alignment {
        Some(v) => Some(ConfigSettingModel::BitmapAlignment(v)),
        None => None,
    }
}

/// The settings that building a configuration with these options applies, in
/// the order they are applied: each option that is set, in the order of the
/// fields of [`ConfigOptions`].
pub open spec fn config_settings(o: ConfigOptions) -> Seq<ConfigSettingModel> {
    Seq::empty()
        + seq_of(cache_path_setting(o))
        + seq_of(resource_path_prefix_setting(o))
        + seq_of(face_winding_setting(o))
        + seq_of(font_hinting_setting(o))
        + seq_of(font_gamma_setting(o))
        + seq_of(user_stylesheet_setting(o))
        + seq_of(force_repaint_setting(o))
        + seq_of(animation_timer_delay_setting(o))
        + seq_of(scroll_timer_delay_setting(o))
        + seq_of(recycle_delay_setting(o))
        + seq_of(memory_cache_size_setting(o))
        + seq_of(page_cache_size_setting(o))
        + seq_of(override_ram_size_setting(o))
        + seq_of(min_large_heap_size_setting(o))
        + seq_of(min_small_heap_size_setting(o))
        + seq_of(num_renderer_threads_setting(o))
        + seq_of(max_update_time_setting(o))
        + seq_of(bitmap_alignment_setting(o))
}

/// Building with no option set applies no setting, so every option keeps the
/// library's default.
pub proof fn lemma_no_options_no_settings()
    ensures
        config_settings(no_config_options()) == Seq::<ConfigSettingModel>::empty(),
{
    assert(config_settings(no_config_options()) =~= Seq::<ConfigSettingModel>::empty());
}

/// Builder for the renderer configuration.
#[derive(Debug, Clone)]
pub struct ConfigBuilder {
    cache_path: Option<String>,
    resource_path_prefix: Option<String>,
    face_winding: Option<FaceWinding>,
    font_hinting: Option<FontHinting>,
    font_gamma: Option<u64>,
    user_stylesheet: Option<String>,
    force_repaint: Option<bool>,
    animation_timer_delay: Option<u64>,
    scroll_timer_delay: Option<u64>,
    recycle_delay: Option<u64>,
    memory_cache_size: Option<u32>,
    page_cache_size: Option<u32>,
    override_ram_size: Option<u32>,
    min_large_heap_size: Option<u32>,
    min_small_heap_size: Option<u32>,
    num_renderer_threads: Option<u32>,
    max_update_time: Option<u64>,
    bitmap_alignment: Option<u32>,
}

/// The string option, if set, holds no NUL character. Building a
/// configuration passes each string option to the C API as a C string, which
/// cannot hold one.
pub open spec fn free_of_nul(s: Option<Seq<char>>) -> bool {
    match s {
        Some(chars) => !chars.contains('\0'),
        None => true,
    }
}

/// The characters of an optional string.
pub open spec fn opt_view(s: Option<String>) -> Option<Seq<char>> {
    match s {
        Some(v) => Some(v@),
        None => None,
    }
}

impl View for ConfigBuilder {
    type V = ConfigOptions;

    closed spec fn view(&self) -> ConfigOptions {
        ConfigOptions {
            cache_path: opt_view(self.cache_path),
            resource_path_prefix: opt_view(self.resource_path_prefix),
            face_winding: self.face_winding,
            font_hinting: self.font_hinting,
            font_gamma: self.font_gamma,
            user_stylesheet: opt_view(self.user_stylesheet),
            force_repaint: self.force_repaint,
            animation_timer_delay: self.animation_timer_delay,
            scroll_timer_delay: self.scroll_timer_delay,
            recycle_delay: self.recycle_delay,
            memory_cache_size: self.memory_cache_size,
            page_cache_size: self.page_cache_size,
            override_ram_size: self.override_ram_size,
            min_large_heap_size: self.min_large_heap_size,
            min_small_heap_size: self.min_small_heap_size,
            num_renderer_threads: self.num_renderer_threads,
            max_update_time: self.max_update_time,
            bitmap_alignment: self.bitmap_alignment,
        }
    }
}

impl Default for ConfigBuilder {
    fn default() -> (r: ConfigBuilder)
        ensures
            r@ == no_config_options(),
    {
        ConfigBuilder::new()
    }
}

impl ConfigBuilder {
    /// A builder with no option set.
    pub fn new() -> (r: ConfigBuilder)
        ensures
            r@ == no_config_options(),
    {
        ConfigBuilder {
            cache_path: None,
            resource_path_prefix: None,
            face_winding: None,
            font_hinting: None,
            font_gamma: None,
            user_stylesheet: None,
            force_repaint: None,
            animation_timer_delay: None,
            scroll_timer_delay: None,
            recycle_delay: None,
            memory_cache_size: None,
            page_cache_size: None,
            override_ram_size: None,
            min_large_heap_size: None,
            min_small_heap_size: None,
            num_renderer_threads: None,
            max_update_time: None,
            bitmap_alignment: None,
        }
    }

    /// A writable OS file path to store persistent Session data in.
    pub fn cache_path(self, path: &str) -> (r: ConfigBuilder)
        ensures
            r@ == (ConfigOptions { cache_path: Some(path@), ..self@ }),
    {
        ConfigBuilder { cache_path: Some(path.to_owned()), ..self }
    }

    /// The relative path to the resources folder (loaded via the FileSystem API).
    pub fn resource_path_prefix(self, path: &str) -> (r: ConfigBuilder)
        ensures
            r@ == (ConfigOptions { resource_path_prefix: Some(path@), ..self@ }),
    {
        ConfigBuilder { resource_path_prefix: Some(path.to_owned()), ..self }
    }

    /// The winding order for front-facing triangles.
    pub fn face_winding(self, winding: FaceWinding) -> (r: ConfigBuilder)
        ensures
            r@ == (ConfigOptions { face_winding: Some(winding), ..self@ }),
    {
        ConfigBuilder { face_winding: Some(winding), ..self }
    }

    /// The hinting algorithm to use when rendering fonts.
    pub fn font_hinting(self, hinting: FontHinting) -> (r: ConfigBuilder)
        ensures
            r@ == (ConfigOptions { font_hinting: Some(hinting), ..self@ }),
    {
        ConfigBuilder { font_hinting: Some(hinting), ..self }
    }

    /// The gamma to use when compositing font glyphs, by its `f64` bit pattern.
    pub fn font_gamma(self, gamma_bits: u64) -> (r: ConfigBuilder)
        ensures
            r@ == (ConfigOptions { font_gamma: Some(gamma_bits), ..self@ }),
    {
        ConfigBuilder { font_gamma: Some(gamma_bits), ..self }
    }

    /// Default user stylesheet.
    pub fn user_stylesheet(self, path: &str) -> (r: ConfigBuilder)
        ensures
            r@ == (ConfigOptions { user_stylesheet: Some(path@), ..self@ }),
    {
        ConfigBuilder { user_stylesheet: Some(path.to_owned()), ..self }
    }

    /// Whether or not we should continuously repaint any Views or compositor layers.
    pub fn force_repaint(self, force: bool) -> (r: ConfigBuilder)
        ensures
            r@ == (ConfigOptions { force_repaint: Some(force), ..self@ }),
    {
        ConfigBuilder { force_repaint: Some(force), ..self }
    }

    /// The delay (in seconds, by its `f64` bit pattern) between repaints of an active CSS animation.
    pub fn animation_timer_delay(self, delay_bits: u64) -> (r: ConfigBuilder)
        ensures
            r@ == (ConfigOptions { animation_timer_delay: Some(delay_bits), ..self@ }),
    {
        ConfigBuilder { animation_timer_delay: Some(delay_bits), ..self }
    }

    /// The delay (in seconds, by its `f64` bit pattern) between repaints of an active smooth scroll.
    pub fn scroll_timer_delay(self, delay_bits: u64) -> (r: ConfigBuilder)
        ensures
            r@ == (ConfigOptions { scroll_timer_delay: Some(delay_bits), ..self@ }),
    {
        ConfigBuilder { scroll_timer_delay: Some(delay_bits), ..self }
    }

    /// The time (in seconds, by its `f64` bit pattern) to wait before running the recycler.
    pub fn recycle_delay(self, delay_bits: u64) -> (r: ConfigBuilder)
        ensures
            r@ == (ConfigOptions { recycle_delay: Some(delay_bits), ..self@ }),
    {
        ConfigBuilder { recycle_delay: Some(delay_bits), ..self }
    }

    /// The size of WebCore's memory cache in bytes.
    pub fn memory_cache_size(self, size: u32) -> (r: ConfigBuilder)
        ensures
            r@ == (ConfigOptions { memory_cache_size: Some(size), ..self@ }),
    {
        ConfigBuilder { memory_cache_size: Some(size), ..self }
    }

    /// Number of pages to keep in the cache.
    pub fn page_cache_size(self, size: u32) -> (r: ConfigBuilder)
        ensures
            r@ == (ConfigOptions { page_cache_size: Some(size), ..self@ }),
    {
        ConfigBuilder { page_cache_size: Some(size), ..self }
    }

    /// The system's physical RAM size in bytes (`0` keeps the detected value).
    pub fn override_ram_size(self, size: u32) -> (r: ConfigBuilder)
        ensures
            r@ == (ConfigOptions { override_ram_size: Some(size), ..self@ }),
    {
        ConfigBuilder { override_ram_size: Some(size), ..self }
    }

    /// The minimum size of large VM heaps in JavaScriptCore, in bytes.
    pub fn min_large_heap_size(self, size: u32) -> (r: ConfigBuilder)
        ensures
            r@ == (ConfigOptions { min_large_heap_size: Some(size), ..self@ }),
    {
        ConfigBuilder { min_large_heap_size: Some(size), ..self }
    }

    /// The minimum size of small VM heaps in JavaScriptCore, in bytes.
    pub fn min_small_heap_size(self, size: u32) -> (r: ConfigBuilder)
        ensures
            r@ == (ConfigOptions { min_small_heap_size: Some(size), ..self@ }),
    {
        ConfigBuilder { min_small_heap_size: Some(size), ..self }
    }

    /// The number of threads to use in the Renderer (`0` lets the library decide).
    pub fn num_renderer_threads(self, threads: u32) -> (r: ConfigBuilder)
        ensures
            r@ == (ConfigOptions { num_renderer_threads: Some(threads), ..self@ }),
    {
        ConfigBuilder { num_renderer_threads: Some(threads), ..self }
    }

    /// The max amount of time (in seconds, by its `f64` bit pattern) to allow
    /// repeating timers to run during each update.
    pub fn max_update_time(self, time_bits: u64) -> (r: ConfigBuilder)
        ensures
            r@ == (ConfigOptions { max_update_time: Some(time_bits), ..self@ }),
    {
        ConfigBuilder { max_update_time: Some(time_bits), ..self }
    }

    /// The alignment (in bytes) of the BitmapSurface when using the CPU renderer.
    pub fn bitmap_alignment(self, alignment: u32) -> (r: ConfigBuilder)
        ensures
            r@ == (ConfigOptions { bitmap_alignment: Some(alignment), ..self@ }),
    {
        ConfigBuilder { bitmap_alignment: Some(alignment), ..self }
    }

    /// The settings that building the configuration applies through the C
    /// API, in the order they are applied: each option that was set, and no
    /// other.
    /// String options must hold no NUL character, as the C API takes them
    /// as C strings.
    pub fn into_settings(self) -> (r: Vec<ConfigSetting>)
        requires
            free_of_nul(self@.cache_path),
            free_of_nul(self@.resource_path_prefix),
            free_of_nul(self@.user_stylesheet),
        ensures
            r@.map_values(|s: ConfigSetting| s@) == config_settings(self@),
    {
        let ghost o = self@;
        let mut out: Vec<ConfigSetting> = Vec::new();
        assert(out@.map_values(|x: ConfigSetting| x@) =~= Seq::<ConfigSettingModel>::empty());
        let s = match self.cache_path {
            Some(v) => Some(ConfigSetting::CachePath(v)),
            None => None,
        };
        assert(opt_model(s) == cache_path_setting(o));
        push_setting(&mut out, s);
        let s = match self.resource_path_prefix {
            Some(v) => Some(ConfigSetting::ResourcePathPrefix(v)),
            None => None,
        };
        assert(opt_model(s) == resource_path_prefix_setting(o));
        push_setting(&mut out, s);
        let s = match self.face_winding {
            Some(v) => Some(ConfigSetting::FaceWinding(v.to_raw())),
            None => None,
        };
        assert(opt_model(s) == face_winding_setting(o));
        push_setting(&mut out, s);
        let s = match self.font_hinting {
            Some(v) => Some(ConfigSetting::FontHinting(v.to_raw())),
            None => None,
        };
        assert(opt_model(s) == font_hinting_setting(o));
        push_setting(&mut out, s);
        let s = match self.font_gamma {
            Some(v) => Some(ConfigSetting::FontGamma(v)),
            None => None,
        };
        assert(opt_model(s) == font_gamma_setting(o));
        push_setting(&mut out, s);
        let s = match self.user_stylesheet {
            Some(v) => Some(ConfigSetting::UserStylesheet(v)),
            None => None,
        };
        assert(opt_model(s) == user_stylesheet_setting(o));
        push_setting(&mut out, s);
        let s = match self.force_repaint {
            Some(v) => Some(ConfigSetting::ForceRepaint(v)),
            None => None,
        };
        assert(opt_model(s) == force_repaint_setting(o));
        push_setting(&mut out, s);
        let s = match self.animation_timer_delay {
            Some(v) => Some(ConfigSetting::AnimationTimerDelay(v)),
            None => None,
        };
        assert(opt_model(s) == animation_timer_delay_setting(o));
        push_setting(&mut out, s);
        let s = match self.scroll_timer_delay {
            Some(v) => Some(ConfigSetting::ScrollTimerDelay(v)),
            None => None,
        };
        assert(opt_model(s) == scroll_timer_delay_setting(o));
        push_setting(&mut out, s);
        let s = match self.recycle_delay {
            Some(v) => Some(ConfigSetting::RecycleDelay(v)),
            None => None,
        };
        assert(opt_model(s) == recycle_delay_setting(o));
        push_setting(&mut out, s);
        let s = match self.memory_cache_size {
            Some(v) => Some(ConfigSetting::MemoryCacheSize(v)),
            None => None,
        };
        assert(opt_model(s) == memory_cache_size_setting(o));
        push_setting(&mut out, s);
        let s = match self.page_cache_size {
            Some(v) => Some(ConfigSetting::PageCacheSize(v)),
            None => None,
        };
        assert(opt_model(s) == page_cache_size_setting(o));
        push_setting(&mut out, s);
        let s = match self.override_ram_size {
            Some(v) => Some(ConfigSetting::OverrideRamSize(v)),
            None => None,
        };
        assert(opt_model(s) == override_ram_size_setting(o));
        push_setting(&mut out, s);
        let s = match self.min_large_heap_size {
            Some(v) => Some(ConfigSetting::MinLargeHeapSize(v)),
            None => None,
        };
        assert(opt_model(s) == min_large_heap_size_setting(o));
        push_setting(&mut out, s);
        let s = match self.min_small_heap_size {
            Some(v) => Some(ConfigSetting::MinSmallHeapSize(v)),
            None => None,
        };
        assert(opt_model(s) == min_small_heap_size_setting(o));
        push_setting(&mut out, s);
        let s = match self.num_renderer_threads {
            Some(v) => Some(ConfigSetting::NumRendererThreads(v)),
            None => None,
        };
        assert(opt_model(s) == num_renderer_threads_setting(o));
        push_setting(&mut out, s);
        let s = match self.max_update_time {
            Some(v) => Some(ConfigSetting::MaxUpdateTime(v)),
            None => None,
        };
        assert(opt_model(s) == max_update_time_setting(o));
        push_setting(&mut out, s);
        let s = match self.bitmap_alignment {
            Some(v) => Some(ConfigSetting::BitmapAlignment(v)),
            None => None,
        };
        assert(opt_model(s) == bitmap_alignment_setting(o));
        push_setting(&mut out, s);
        out
    }
}

/// The model of an optional setting.
pub open spec fn opt_model(s: Option<ConfigSetting>) -> Option<ConfigSettingModel> {
    match s {
        Some(x) => Some(x@),
        None => None,
    }
}

/// Appends a setting, if present, to the list of settings.
fn push_setting(out: &mut Vec<ConfigSetting>, s: Option<ConfigSetting>)
    ensures
        final(out)@.map_values(|x: ConfigSetting| x@) == old(out)@.map_values(
            |x: ConfigSetting| x@,
        ) + seq_of(opt_model(s)),
{
    let ghost before = out@;
    if let Some(x) = s {
        out.push(x);
    }
    assert(out@.map_values(|x: ConfigSetting| x@) =~= before.map_values(|x: ConfigSetting| x@)
        + seq_of(opt_model(s)));
}

/// The C API value of each variant (`kFaceWinding_*`): `Clockwise` is 0, `CounterClockwise` is
/// 1.
pub proof fn lemma_face_winding_raw_values()
    ensures
        FaceWinding::Clockwise.spec_raw() == 0,
        FaceWinding::CounterClockwise.spec_raw() == 1,
{
}

/// The C API value of each variant (`kFontHinting_*`): `Smooth` is 0, `Normal` is 1,
/// `Monochrome` is 2.
pub proof fn lemma_font_hinting_raw_values()
    ensures
        FontHinting::Smooth.spec_raw() == 0,
        FontHinting::Normal.spec_raw() == 1,
        FontHinting::Monochrome.spec_raw() == 2,
{
}

/// The ranks of the elements strictly increase along the sequence.
pub open spec fn ranked_increasing<T>(s: Seq<T>, rank: spec_fn(T) -> int) -> bool {
    forall|i: int, j: int| #![trigger s[i], s[j]] 0 <= i < j < s.len() ==> rank(s[i]) < rank(s[j])
}

/// Every element of the sequence ranks below `k`.
pub open spec fn ranks_below<T>(s: Seq<T>, rank: spec_fn(T) -> int, k: int) -> bool {
    forall|i: int| 0 <= i < s.len() ==> rank(#[trigger] s[i]) < k
}

/// Appending at most one element of rank `k` to a sequence whose ranks
/// increase and stay below `k` keeps them increasing, keeps them below
/// `k + 1`, and adds that element and no other.
pub(crate) proof fn lemma_append_ranked<T>(
    a: Seq<T>,
    b: Seq<T>,
    rank: spec_fn(T) -> int,
    k: int,
    y: T,
)
    requires
        ranked_increasing(a, rank),
        ranks_below(a, rank, k),
        b.len() <= 1,
        b.len() == 1 ==> rank(b[0]) == k,
    ensures
        ranked_increasing(a + b, rank),
        ranks_below(a + b, rank, k + 1),
        (a + b).contains(y) == (a.contains(y) || (b.len() == 1 && b[0] == y)),
{
    let c = a + b;
    assert forall|i: int, j: int| #![trigger c[i], c[j]] 0 <= i < j < c.len() implies rank(c[i])
        < rank(c[j]) by {
        assert(c[i] == a[i]);
        if j < a.len() {
            assert(c[j] == a[j]);
        } else {
            assert(c[j] == b[0]);
        }
    }
    assert forall|i: int| 0 <= i < c.len() implies rank(#[trigger] c[i]) < k + 1 by {
        if i < a.len() {
            assert(c[i] == a[i]);
        } else {
            assert(c[i] == b[0]);
        }
    }
    if c.contains(y) {
        let i = choose|i: int| 0 <= i < c.len() && c[i] == y;
        if i < a.len() {
            assert(a[i] == y);
        } else {
            assert(b[i - a.len()] == y);
        }
    }
    if a.contains(y) {
        let i = choose|i: int| 0 <= i < a.len() && a[i] == y;
        assert(c[i] == y);
    }
    if b.len() == 1 && b[0] == y {
        assert(c[a.len() as int] == y);
    }
}

/// The position of the option a setting applies among the options of
/// [`ConfigOptions`], which is the order in which building applies them.
pub open spec fn config_setting_rank(m: ConfigSettingModel) -> int {
    match m {
        ConfigSettingModel::CachePath(_) => 0,
        ConfigSettingModel::ResourcePathPrefix(_) => 1,
        ConfigSettingModel::FaceWinding(_) => 2,
        ConfigSettingModel::FontHinting(_) => 3,
        ConfigSettingModel::FontGamma(_) => 4,
        ConfigSettingModel::UserStylesheet(_) => 5,
        ConfigSettingModel::ForceRepaint(_) => 6,
        ConfigSettingModel::AnimationTimerDelay(_) => 7,
        ConfigSettingModel::ScrollTimerDelay(_) => 8,
        ConfigSettingModel::RecycleDelay(_) => 9,
        ConfigSettingModel::MemoryCacheSize(_) => 10,
        ConfigSettingModel::PageCacheSize(_) => 11,
        ConfigSettingModel::OverrideRamSize(_) => 12,
        ConfigSettingModel::MinLargeHeapSize(_) => 13,
        ConfigSettingModel::MinSmallHeapSize(_) => 14,
        ConfigSettingModel::NumRendererThreads(_) => 15,
        ConfigSettingModel::MaxUpdateTime(_) => 16,
        ConfigSettingModel::BitmapAlignment(_) => 17,
    }
}

proof fn lemma_config_settings_members(o: ConfigOptions, y: ConfigSettingModel)
    ensures
        ranked_increasing(config_settings(o), |m: ConfigSettingModel| config_setting_rank(m)),
        config_settings(o).contains(y) == (
cache_path_setting(o) == Some(y) || resource_path_prefix_setting(o) == Some(y) || face_winding_setting(o) == Some(y) || font_hinting_setting(o) == Some(y) || font_gamma_setting(o) == Some(y) || user_stylesheet_setting(o) == Some(y) || force_repaint_setting(o) == Some(y) || animation_timer_delay_setting(o) == Some(y) || scroll_timer_delay_setting(o) == Some(y) || recycle_delay_setting(o) == Some(y) || memory_cache_size_setting(o) == Some(y) || page_cache_size_setting(o) == Some(y) || override_ram_size_setting(o) == Some(y) || min_large_heap_size_setting(o) == Some(y) || min_small_heap_size_setting(o) == Some(y) || num_renderer_threads_setting(o) == Some(y) || max_update_time_setting(o) == Some(y) || bitmap_alignment_setting(o) == Some(y)
        ),
{
    let rank = |m: ConfigSettingModel| config_setting_rank(m);
    let p0 = Seq::<ConfigSettingModel>::empty();
    let p1 = p0 + seq_of(cache_path_setting(o));
    lemma_append_ranked(p0, seq_of(cache_path_setting(o)), rank, 0, y);
    let p2 = p1 + seq_of(resource_path_prefix_setting(o));
    lemma_append_ranked(p1, seq_of(resource_path_prefix_setting(o)), rank, 1, y);
    let p3 = p2 + seq_of(face_winding_setting(o));
    lemma_append_ranked(p2, seq_of(face_winding_setting(o)), rank, 2, y);
    let p4 = p3 + seq_of(font_hinting_setting(o));
    lemma_append_ranked(p3, seq_of(font_hinting_setting(o)), rank, 3, y);
    let p5 = p4 + seq_of(font_gamma_setting(o));
    lemma_append_ranked(p4, seq_of(font_gamma_setting(o)), rank, 4, y);
    let p6 = p5 + seq_of(user_stylesheet_setting(o));
    lemma_append_ranked(p5, seq_of(user_stylesheet_setting(o)), rank, 5, y);
    let p7 = p6 + seq_of(force_repaint_setting(o));
    lemma_append_ranked(p6, seq_of(force_repaint_setting(o)), rank, 6, y);
    let p8 = p7 + seq_of(animation_timer_delay_setting(o));
    lemma_append_ranked(p7, seq_of(animation_timer_delay_setting(o)), rank, 7, y);
    let p9 = p8 + seq_of(scroll_timer_delay_setting(o));
    lemma_append_ranked(p8, seq_of(scroll_timer_delay_setting(o)), rank, 8, y);
    let p10 = p9 + seq_of(recycle_delay_setting(o));
    lemma_append_ranked(p9, seq_of(recycle_delay_setting(o)), rank, 9, y);
    let p11 = p10 + seq_of(memory_cache_size_setting(o));
    lemma_append_ranked(p10, seq_of(memory_cache_size_setting(o)), rank, 10, y);
    let p12 = p11 + seq_of(page_cache_size_setting(o));
    lemma_append_ranked(p11, seq_of(page_cache_size_setting(o)), rank, 11, y);
    let p13 = p12 + seq_of(override_ram_size_setting(o));
    lemma_append_ranked(p12, seq_of(override_ram_size_setting(o)), rank, 12, y);
    let p14 = p13 + seq_of(min_large_heap_size_setting(o));
    lemma_append_ranked(p13, seq_of(min_large_heap_size_setting(o)), rank, 13, y);
    let p15 = p14 + seq_of(min_small_heap_size_setting(o));
    lemma_append_ranked(p14, seq_of(min_small_heap_size_setting(o)), rank, 14, y);
    let p16 = p15 + seq_of(num_renderer_threads_setting(o));
    lemma_append_ranked(p15, seq_of(num_renderer_threads_setting(o)), rank, 15, y);
    let p17 = p16 + seq_of(max_update_time_setting(o));
    lemma_append_ranked(p16, seq_of(max_update_time_setting(o)), rank, 16, y);
    let p18 = p17 + seq_of(bitmap_alignment_setting(o));
    lemma_append_ranked(p17, seq_of(bitmap_alignment_setting(o)), rank, 17, y);
    assert(config_settings(o) == p18);
}

/// Building applies exactly the options that are set, each through the
/// setting of its own name with the value it was set to, once, in the order
/// of the options of [`ConfigOptions`].
pub proof fn lemma_config_settings_are_the_options(o: ConfigOptions)
    ensures
        forall|x: Seq<char>| #[trigger] config_settings(o).contains(ConfigSettingModel::CachePath(x)) == (o.cache_path == Some(x)),
        forall|x: Seq<char>| #[trigger] config_settings(o).contains(ConfigSettingModel::ResourcePathPrefix(x)) == (o.resource_path_prefix == Some(x)),
        forall|x: u32| #[trigger] config_settings(o).contains(ConfigSettingModel::FaceWinding(x)) == ((o.face_winding == Some(FaceWinding::Clockwise) && x == 0) || (o.face_winding == Some(FaceWinding::CounterClockwise) && x == 1)),
        forall|x: u32| #[trigger] config_settings(o).contains(ConfigSettingModel::FontHinting(x)) == ((o.font_hinting == Some(FontHinting::Smooth) && x == 0) || (o.font_hinting == Some(FontHinting::Normal) && x == 1) || (o.font_hinting == Some(FontHinting::Monochrome) && x == 2)),
        forall|x: u64| #[trigger] config_settings(o).contains(ConfigSettingModel::FontGamma(x)) == (o.font_gamma == Some(x)),
        forall|x: Seq<char>| #[trigger] config_settings(o).contains(ConfigSettingModel::UserStylesheet(x)) == (o.user_stylesheet == Some(x)),
        forall|x: bool| #[trigger] config_settings(o).contains(ConfigSettingModel::ForceRepaint(x)) == (o.force_repaint == Some(x)),
        forall|x: u64| #[trigger] config_settings(o).contains(ConfigSettingModel::AnimationTimerDelay(x)) == (o.animation_timer_delay == Some(x)),
        forall|x: u64| #[trigger] config_settings(o).contains(ConfigSettingModel::ScrollTimerDelay(x)) == (o.scroll_timer_delay == Some(x)),
        forall|x: u64| #[trigger] config_settings(o).contains(ConfigSettingModel::RecycleDelay(x)) == (o.recycle_delay == Some(x)),
        forall|x: u32| #[trigger] config_settings(o).contains(ConfigSettingModel::MemoryCacheSize(x)) == (o.memory_cache_size == Some(x)),
        forall|x: u32| #[trigger] config_settings(o).contains(ConfigSettingModel::PageCacheSize(x)) == (o.page_cache_size == Some(x)),
        forall|x: u32| #[trigger] config_settings(o).contains(ConfigSettingModel::OverrideRamSize(x)) == (o.override_ram_size == Some(x)),
        forall|x: u32| #[trigger] config_settings(o).contains(ConfigSettingModel::MinLargeHeapSize(x)) == (o.min_large_heap_size == Some(x)),
        forall|x: u32| #[trigger] config_settings(o).contains(ConfigSettingModel::MinSmallHeapSize(x)) == (o.min_small_heap_size == Some(x)),
        forall|x: u32| #[trigger] config_settings(o).contains(ConfigSettingModel::NumRendererThreads(x)) == (o.num_renderer_threads == Some(x)),
        forall|x: u64| #[trigger] config_settings(o).contains(ConfigSettingModel::MaxUpdateTime(x)) == (o.max_update_time == Some(x)),
        forall|x: u32| #[trigger] config_settings(o).contains(ConfigSettingModel::BitmapAlignment(x)) == (o.bitmap_alignment == Some(x)),
        forall|i: int, j: int|
            0 <= i < j < config_settings(o).len() ==> #[trigger] config_setting_rank(config_settings(o)[i]) < #[trigger] config_setting_rank(config_settings(o)[j]),
{
    assert forall|x: Seq<char>| #[trigger] config_settings(o).contains(ConfigSettingModel::CachePath(x)) == (o.cache_path == Some(x)) by {
        lemma_config_settings_members(o, ConfigSettingModel::CachePath(x));
    }
    assert forall|x: Seq<char>| #[trigger] config_settings(o).contains(ConfigSettingModel::ResourcePathPrefix(x)) == (o.resource_path_prefix == Some(x)) by {
        lemma_config_settings_members(o, ConfigSettingModel::ResourcePathPrefix(x));
    }
    assert forall|x: u32| #[trigger] config_settings(o).contains(ConfigSettingModel::FaceWinding(x)) == ((o.face_winding == Some(FaceWinding::Clockwise) && x == 0) || (o.face_winding == Some(FaceWinding::CounterClockwise) && x == 1)) by {
        lemma_config_settings_members(o, ConfigSettingModel::FaceWinding(x));
    }
    assert forall|x: u32| #[trigger] config_settings(o).contains(ConfigSettingModel::FontHinting(x)) == ((o.font_hinting == Some(FontHinting::Smooth) && x == 0) || (o.font_hinting == Some(FontHinting::Normal) && x == 1) || (o.font_hinting == Some(FontHinting::Monochrome) && x == 2)) by {
        lemma_config_settings_members(o, ConfigSettingModel::FontHinting(x));
    }
    assert forall|x: u64| #[trigger] config_settings(o).contains(ConfigSettingModel::FontGamma(x)) == (o.font_gamma == Some(x)) by {
        lemma_config_settings_members(o, ConfigSettingModel::FontGamma(x));
    }
    assert forall|x: Seq<char>| #[trigger] config_settings(o).contains(ConfigSettingModel::UserStylesheet(x)) == (o.user_stylesheet == Some(x)) by {
        lemma_config_settings_members(o, ConfigSettingModel::UserStylesheet(x));
    }
    assert forall|x: bool| #[trigger] config_settings(o).contains(ConfigSettingModel::ForceRepaint(x)) == (o.force_repaint == Some(x)) by {
        lemma_config_settings_members(o, ConfigSettingModel::ForceRepaint(x));
    }
    assert forall|x: u64| #[trigger] config_settings(o).contains(ConfigSettingModel::AnimationTimerDelay(x)) == (o.animation_timer_delay == Some(x)) by {
        lemma_config_settings_members(o, ConfigSettingModel::AnimationTimerDelay(x));
    }
    assert forall|x: u64| #[trigger] config_settings(o).contains(ConfigSettingModel::ScrollTimerDelay(x)) == (o.scroll_timer_delay == Some(x)) by {
        lemma_config_settings_members(o, ConfigSettingModel::ScrollTimerDelay(x));
    }
    assert forall|x: u64| #[trigger] config_settings(o).contains(ConfigSettingModel::RecycleDelay(x)) == (o.recycle_delay == Some(x)) by {
        lemma_config_settings_members(o, ConfigSettingModel::RecycleDelay(x));
    }
    assert forall|x: u32| #[trigger] config_settings(o).contains(ConfigSettingModel::MemoryCacheSize(x)) == (o.memory_cache_size == Some(x)) by {
        lemma_config_settings_members(o, ConfigSettingModel::MemoryCacheSize(x));
    }
    assert forall|x: u32| #[trigger] config_settings(o).contains(ConfigSettingModel::PageCacheSize(x)) == (o.page_cache_size == Some(x)) by {
        lemma_config_settings_members(o, ConfigSettingModel::PageCacheSize(x));
    }
    assert forall|x: u32| #[trigger] config_settings(o).contains(ConfigSettingModel::OverrideRamSize(x)) == (o.override_ram_size == Some(x)) by {
        lemma_config_settings_members(o, ConfigSettingModel::OverrideRamSize(x));
    }
    assert forall|x: u32| #[trigger] config_settings(o).contains(ConfigSettingModel::MinLargeHeapSize(x)) == (o.min_large_heap_size == Some(x)) by {
        lemma_config_settings_members(o, ConfigSettingModel::MinLargeHeapSize(x));
    }
    assert forall|x: u32| #[trigger] config_settings(o).contains(ConfigSettingModel::MinSmallHeapSize(x)) == (o.min_small_heap_size == Some(x)) by {
        lemma_config_settings_members(o, ConfigSettingModel::MinSmallHeapSize(x));
    }
    assert forall|x: u32| #[trigger] config_settings(o).contains(ConfigSettingModel::NumRendererThreads(x)) == (o.num_renderer_threads == Some(x)) by {
        lemma_config_settings_members(o, ConfigSettingModel::NumRendererThreads(x));
    }
    assert forall|x: u64| #[trigger] config_settings(o).contains(ConfigSettingModel::MaxUpdateTime(x)) == (o.max_update_time == Some(x)) by {
        lemma_config_settings_members(o, ConfigSettingModel::MaxUpdateTime(x));
    }
    assert forall|x: u32| #[trigger] config_settings(o).contains(ConfigSettingModel::BitmapAlignment(x)) == (o.bitmap_alignment == Some(x)) by {
        lemma_config_settings_members(o, ConfigSettingModel::BitmapAlignment(x));
    }
    let s = config_settings(o);
    assert forall|i: int, j: int| 0 <= i < j < s.len() implies #[trigger] config_setting_rank(s[i]) < #[trigger] config_setting_rank(s[j]) by {
        lemma_config_settings_members(o, s[i]);
        assert(ranked_increasing(s, |m: ConfigSettingModel| config_setting_rank(m)));
    }
}

/// Each setting is taken by the model setting of the same name, with the
/// same value (a string by its characters).
pub proof fn lemma_config_setting_views()
    ensures
        forall|x: String| #[trigger] ConfigSetting::CachePath(x)@ == ConfigSettingModel::CachePath(x@),
        forall|x: String| #[trigger] ConfigSetting::ResourcePathPrefix(x)@ == ConfigSettingModel::ResourcePathPrefix(x@),
        forall|x: u32| #[trigger] ConfigSetting::FaceWinding(x)@ == ConfigSettingModel::FaceWinding(x),
        forall|x: u32| #[trigger] ConfigSetting::FontHinting(x)@ == ConfigSettingModel::FontHinting(x),
        forall|x: u64| #[trigger] ConfigSetting::FontGamma(x)@ == ConfigSettingModel::FontGamma(x),
        forall|x: String| #[trigger] ConfigSetting::UserStylesheet(x)@ == ConfigSettingModel::UserStylesheet(x@),
        forall|x: bool| #[trigger] ConfigSetting::ForceRepaint(x)@ == ConfigSettingModel::ForceRepaint(x),
        forall|x: u64| #[trigger] ConfigSetting::AnimationTimerDelay(x)@ == ConfigSettingModel::AnimationTimerDelay(x),
        forall|x: u64| #[trigger] ConfigSetting::ScrollTimerDelay(x)@ == ConfigSettingModel::ScrollTimerDelay(x),
        forall|x: u64| #[trigger] ConfigSetting::RecycleDelay(x)@ == ConfigSettingModel::RecycleDelay(x),
        forall|x: u32| #[trigger] ConfigSetting::MemoryCacheSize(x)@ == ConfigSettingModel::MemoryCacheSize(x),
        forall|x: u32| #[trigger] ConfigSetting::PageCacheSize(x)@ == ConfigSettingModel::PageCacheSize(x),
        forall|x: u32| #[trigger] ConfigSetting::OverrideRamSize(x)@ == ConfigSettingModel::OverrideRamSize(x),
        forall|x: u32| #[trigger] ConfigSetting::MinLargeHeapSize(x)@ == ConfigSettingModel::MinLargeHeapSize(x),
        forall|x: u32| #[trigger] ConfigSetting::MinSmallHeapSize(x)@ == ConfigSettingModel::MinSmallHeapSize(x),
        forall|x: u32| #[trigger] ConfigSetting::NumRendererThreads(x)@ == ConfigSettingModel::NumRendererThreads(x),
        forall|x: u64| #[trigger] ConfigSetting::MaxUpdateTime(x)@ == ConfigSettingModel::MaxUpdateTime(x),
        forall|x: u32| #[trigger] ConfigSetting::BitmapAlignment(x)@ == ConfigSettingModel::BitmapAlignment(x),
{
}

} // verus!
