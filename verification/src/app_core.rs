//! The first form of the application settings, with the file system path
//! option named `file_system_path`.
use vstd::prelude::*;

verus! {

/// One option that building applies, with the value the C setter takes.
#[derive(Debug, Clone, PartialEq, Eq)]
pub enum AppSetting {
    DeveloperName(String),
    AppName(String),
    FileSystemPath(String),
    LoadShadersFromFileSystem(bool),
    ForceCpuRenderer(bool),
}

/// A [`AppSetting`] with its strings taken by their characters.
pub enum AppSettingModel {
    DeveloperName(Seq<char>),
    AppName(Seq<char>),
    FileSystemPath(Seq<char>),
    LoadShadersFromFileSystem(bool),
    ForceCpuRenderer(bool),
}

impl View for AppSetting {
    type V = AppSettingModel;

    open spec fn view(&self) -> AppSettingModel {
        match self {
            AppSetting::DeveloperName(s) => AppSettingModel::DeveloperName(s@),
            AppSetting::AppName(s) => AppSettingModel::AppName(s@),
            AppSetting::FileSystemPath(s) => AppSettingModel::FileSystemPath(s@),
            AppSetting::LoadShadersFromFileSystem(s) => AppSettingModel::LoadShadersFromFileSystem(*s),
            AppSetting::ForceCpuRenderer(s) => AppSettingModel::ForceCpuRenderer(*s),
        }
    }
}

/// The options of a [`SettingsBuilder`]; `None` for an option left unset.
pub struct SettingsOptions {
    pub developer_name: Option<Seq<char>>,
    pub app_name: Option<Seq<char>>,
    pub file_system_path: Option<Seq<char>>,
    pub load_shaders_from_filesystem: Option<bool>,
    pub force_cpu_renderer: Option<bool>,
}

/// The options left unset.
pub open spec fn no_core_options() -> SettingsOptions {
    SettingsOptions {
        developer_name: None,
        app_name: None,
        file_system_path: None,
        load_shaders_from_filesystem: None,
        force_cpu_renderer: None,
    }
}

/// The list holding the setting when it is present, the empty list otherwise.
pub open spec fn core_seq_of(m: Option<AppSettingModel>) -> Seq<AppSettingModel> {
    match m {
        Some(x) => seq![x],
        None => Seq::empty(),
    }
}

/// The setting that applies the `developer_name` option, if it is set.
pub open spec fn core_developer_name_setting(o: SettingsOptions) -> Option<AppSettingModel> {
    match o.developer_name {
        Some(v) => Some(AppSettingModel::DeveloperName(v)),
        None => None,
    }
}

/// The setting that applies the `app_name` option, if it is set.
pub open spec fn core_app_name_setting(o: SettingsOptions) -> Option<AppSettingModel> {
    match o.app_name {
        Some(v) => Some(AppSettingModel::AppName(v)),
        None => None,
    }
}

/// The setting that applies the `file_system_path` option, if it is set.
pub open spec fn core_file_system_path_setting(o: SettingsOptions) -> Option<AppSettingModel> {
    match o.file_system_path {
        Some(v) => Some(AppSettingModel::FileSystemPath(v)),
        None => None,
    }
}

/// The setting that applies the `load_shaders_from_filesystem` option, if it is set.
pub open spec fn core_load_shaders_from_filesystem_setting(o: SettingsOptions) -> Option<AppSettingModel> {
    match o.load_shaders_from_filesystem {
        Some(v) => Some(AppSettingModel::LoadShadersFromFileSystem(v)),
        None => None,
    }
}

/// The setting that applies the `force_cpu_renderer` option, if it is set.
pub open spec fn core_force_cpu_renderer_setting(o: SettingsOptions) -> Option<AppSettingModel> {
    match o.force_cpu_renderer {
        Some(v) => Some(AppSettingModel::ForceCpuRenderer(v)),
        None => None,
    }
}

/// The settings that building applies, in the order they are applied: each one that is set, in the order of the fields of [`SettingsOptions`].
pub open spec fn core_settings(o: SettingsOptions) -> Seq<AppSettingModel> {
    Seq::empty()
        + core_seq_of(core_developer_name_setting(o))
        + core_seq_of(core_app_name_setting(o))
        + core_seq_of(core_file_system_path_setting(o))
        + core_seq_of(core_load_shaders_from_filesystem_setting(o))
        + core_seq_of(core_force_cpu_renderer_setting(o))
}

/// Building with no option set applies no setting, so every option keeps
/// the library's default.
pub proof fn lemma_core_no_options_no_settings()
    ensures
        core_settings(no_core_options()) == Seq::<AppSettingModel>::empty(),
{
    assert(core_settings(no_core_options()) =~= Seq::<AppSettingModel>::empty());
}

/// Builder for the settings of an application.
#[derive(Debug, Clone)]
pub struct SettingsBuilder {
    developer_name: Option<String>,
    app_name: Option<String>,
    file_system_path: Option<String>,
    load_shaders_from_filesystem: Option<bool>,
    force_cpu_renderer: Option<bool>,
}

impl View for SettingsBuilder {
    type V = SettingsOptions;

    closed spec fn view(&self) -> SettingsOptions {
        SettingsOptions {
            developer_name: crate::config::opt_view(self.developer_name),
            app_name: crate::config::opt_view(self.app_name),
            file_system_path: crate::config::opt_view(self.file_system_path),
            load_shaders_from_filesystem: self.load_shaders_from_filesystem,
            force_cpu_renderer: self.force_cpu_renderer,
        }
    }
}

impl Default for SettingsBuilder {
    fn default() -> (r: SettingsBuilder)
        ensures
            r@ == no_core_options(),
    {
        SettingsBuilder::new()
    }
}

impl SettingsBuilder {
    /// A builder with no option set.
    pub fn new() -> (r: SettingsBuilder)
        ensures
            r@ == no_core_options(),
    {
        SettingsBuilder {
            developer_name: None,
            app_name: None,
            file_system_path: None,
            load_shaders_from_filesystem: None,
            force_cpu_renderer: None,
        }
    }

    /// The name of the developer of this app, used to generate a unique path to store local application data on the user's machine.
    pub fn developer_name(self, developer_name: &str) -> (r: SettingsBuilder)
        ensures
            r@ == (SettingsOptions { developer_name: Some(developer_name@), ..self@ }),
    {
        SettingsBuilder { developer_name: Some(developer_name.to_owned()), ..self }
    }

    /// The name of this app, used to generate a unique path to store local application data on the user's machine.
    pub fn app_name(self, app_name: &str) -> (r: SettingsBuilder)
        ensures
            r@ == (SettingsOptions { app_name: Some(app_name@), ..self@ }),
    {
        SettingsBuilder { app_name: Some(app_name.to_owned()), ..self }
    }

    /// The root file path for the file system, used to resolve all file URLs, eg `file:///page.html`.
    pub fn file_system_path(self, file_system_path: &str) -> (r: SettingsBuilder)
        ensures
            r@ == (SettingsOptions { file_system_path: Some(file_system_path@), ..self@ }),
    {
        SettingsBuilder { file_system_path: Some(file_system_path.to_owned()), ..self }
    }

    /// Whether or not to load and compile shaders from the file system (the default is to load pre-compiled shaders from memory).
    pub fn load_shaders_from_filesystem(self, load_shaders_from_filesystem: bool) -> (r: SettingsBuilder)
        ensures
            r@ == (SettingsOptions { load_shaders_from_filesystem: Some(load_shaders_from_filesystem), ..self@ }),
    {
        SettingsBuilder { load_shaders_from_filesystem: Some(load_shaders_from_filesystem), ..self }
    }

    /// Set this to true to force the engine to always use the CPU renderer.
    pub fn force_cpu_renderer(self, force_cpu_renderer: bool) -> (r: SettingsBuilder)
        ensures
            r@ == (SettingsOptions { force_cpu_renderer: Some(force_cpu_renderer), ..self@ }),
    {
        SettingsBuilder { force_cpu_renderer: Some(force_cpu_renderer), ..self }
    }

    /// The settings that building applies through the C API, in the order
    /// they are applied: each option that was set, and no other.
    /// String options must hold no NUL character, as the C API takes them
    /// as C strings.
    pub fn into_settings(self) -> (r: Vec<AppSetting>)
        requires
            crate::config::free_of_nul(self@.developer_name),
            crate::config::free_of_nul(self@.app_name),
            crate::config::free_of_nul(self@.file_system_path),
        ensures
            r@.map_values(|s: AppSetting| s@) == core_settings(self@),
    {
        let ghost o = self@;
        let mut out: Vec<AppSetting> = Vec::new();
        assert(out@.map_values(|x: AppSetting| x@) =~= Seq::<AppSettingModel>::empty());
        let s = match self.developer_name {
            Some(v) => Some(AppSetting::DeveloperName(v)),
            None => None,
        };
        assert(core_opt_model(s) == core_developer_name_setting(o));
        core_push_setting(&mut out, s);
        let s = match self.app_name {
            Some(v) => Some(AppSetting::AppName(v)),
            None => None,
        };
        assert(core_opt_model(s) == core_app_name_setting(o));
        core_push_setting(&mut out, s);
        let s = match self.file_system_path {
            Some(v) => Some(AppSetting::FileSystemPath(v)),
            None => None,
        };
        assert(core_opt_model(s) == core_file_system_path_setting(o));
        core_push_setting(&mut out, s);
        let s = match self.load_shaders_from_filesystem {
            Some(v) => Some(AppSetting::LoadShadersFromFileSystem(v)),
            None => None,
        };
        assert(core_opt_model(s) == core_load_shaders_from_filesystem_setting(o));
        core_push_setting(&mut out, s);
        let s = match self.force_cpu_renderer {
            Some(v) => Some(AppSetting::ForceCpuRenderer(v)),
            None => None,
        };
        assert(core_opt_model(s) == core_force_cpu_renderer_setting(o));
        core_push_setting(&mut out, s);
        out
    }
}

/// The model of an optional setting.
pub open spec fn core_opt_model(s: Option<AppSetting>) -> Option<AppSettingModel> {
    match s {
        Some(x) => Some(x@),
        None => None,
    }
}

/// Appends a setting, if present, to the list of settings.
fn core_push_setting(out: &mut Vec<AppSetting>, s: Option<AppSetting>)
    ensures
        final(out)@.map_values(|x: AppSetting| x@) == old(out)@.map_values(|x: AppSetting| x@)
            + core_seq_of(core_opt_model(s)),
{
    let ghost before = out@;
    if let Some(x) = s {
        out.push(x);
    }
    assert(out@.map_values(|x: AppSetting| x@) =~= before.map_values(|x: AppSetting| x@)
        + core_seq_of(core_opt_model(s)));
}

/// Window creation flags
#[derive(Debug, Clone, Copy, PartialEq, Eq)]
pub struct WindowFlags {
    /// Whether the window has borders or not
    pub borderless: bool,
    /// Whether the window has title or not
    pub titled: bool,
    /// Whether the window is resizable or not
    pub resizable: bool,
    /// Whether the window is maximizable or not
    pub maximizable: bool,
    /// The initial hide/show state of the window
    pub hidden: bool,
}

/// The value of `kWindowFlags_Borderless` in the C API.
pub const CORE_WINDOW_FLAG_BORDERLESS: u32 = 1;

/// The value of `kWindowFlags_Titled` in the C API.
pub const CORE_WINDOW_FLAG_TITLED: u32 = 2;

/// The value of `kWindowFlags_Resizable` in the C API.
pub const CORE_WINDOW_FLAG_RESIZABLE: u32 = 4;

/// The value of `kWindowFlags_Maximizable` in the C API.
pub const CORE_WINDOW_FLAG_MAXIMIZABLE: u32 = 8;

/// The value of `kWindowFlags_Hidden` in the C API.
pub const CORE_WINDOW_FLAG_HIDDEN: u32 = 16;

impl WindowFlags {
    /// The flag bit mask of the C API: the sum of the bits of the flags that are set.
    pub open spec fn spec_to_u32(&self) -> u32 {
        (crate::event::flag_bit(self.borderless, CORE_WINDOW_FLAG_BORDERLESS) + crate::event::flag_bit(self.titled, CORE_WINDOW_FLAG_TITLED) + crate::event::flag_bit(self.resizable, CORE_WINDOW_FLAG_RESIZABLE) + crate::event::flag_bit(self.maximizable, CORE_WINDOW_FLAG_MAXIMIZABLE) + crate::event::flag_bit(self.hidden, CORE_WINDOW_FLAG_HIDDEN)) as u32
    }

    /// The flag bit mask of the C API.
    pub fn to_u32(&self) -> (r: u32)
        ensures
            r == self.spec_to_u32(),
    {
        let mut n: u32 = 0;
        let ghost n0 = n;
        if self.borderless {
            n |= CORE_WINDOW_FLAG_BORDERLESS;
            assert(n == n0 + 1u32) by (bit_vector)
                requires
                    n0 < 1u32,
                    n == n0 | 1u32,
            ;
        }
        let ghost n1 = n;
        if self.titled {
            n |= CORE_WINDOW_FLAG_TITLED;
            assert(n == n1 + 2u32) by (bit_vector)
                requires
                    n1 < 2u32,
                    n == n1 | 2u32,
            ;
        }
        let ghost n2 = n;
        if self.resizable {
            n |= CORE_WINDOW_FLAG_RESIZABLE;
            assert(n == n2 + 4u32) by (bit_vector)
                requires
                    n2 < 4u32,
                    n == n2 | 4u32,
            ;
        }
        let ghost n3 = n;
        if self.maximizable {
            n |= CORE_WINDOW_FLAG_MAXIMIZABLE;
            assert(n == n3 + 8u32) by (bit_vector)
                requires
                    n3 < 8u32,
                    n == n3 | 8u32,
            ;
        }
        let ghost n4 = n;
        if self.hidden {
            n |= CORE_WINDOW_FLAG_HIDDEN;
            assert(n == n4 + 16u32) by (bit_vector)
                requires
                    n4 < 16u32,
                    n == n4 | 16u32,
            ;
        }
        n
    }
}

/// Different flag sets give different bit masks, so the mask loses no flag.
pub proof fn lemma_window_flags_mask_injective(a: WindowFlags, b: WindowFlags)
    requires
        a.spec_to_u32() == b.spec_to_u32(),
    ensures
        a == b,
{
}

/// Each flag sets its own bit of the C API mask (`kWindowFlags_*`):
/// borderless the bit `1`, titled `2`, resizable `4`, maximizable `8` and
/// hidden `16`; no other bit is set.
pub proof fn lemma_window_flags_bits(w: WindowFlags)
    ensures
        (w.spec_to_u32() & 1u32 != 0) == w.borderless,
        (w.spec_to_u32() & 2u32 != 0) == w.titled,
        (w.spec_to_u32() & 4u32 != 0) == w.resizable,
        (w.spec_to_u32() & 8u32 != 0) == w.maximizable,
        (w.spec_to_u32() & 16u32 != 0) == w.hidden,
        w.spec_to_u32() & !31u32 == 0,
{
    crate::event::lemma_five_flag_bits(w.borderless, w.titled, w.resizable, w.maximizable, w.hidden);
}

/// The position of the option a setting applies among the options of
/// [`SettingsOptions`], which is the order in which building applies them.
pub open spec fn core_setting_rank(m: AppSettingModel) -> int {
    match m {
        AppSettingModel::DeveloperName(_) => 0,
        AppSettingModel::AppName(_) => 1,
        AppSettingModel::FileSystemPath(_) => 2,
        AppSettingModel::LoadShadersFromFileSystem(_) => 3,
        AppSettingModel::ForceCpuRenderer(_) => 4,
    }
}

proof fn lemma_core_settings_members(o: SettingsOptions, y: AppSettingModel)
    ensures
        crate::config::ranked_increasing(core_settings(o), |m: AppSettingModel| core_setting_rank(m)),
        core_settings(o).contains(y) == (
core_developer_name_setting(o) == Some(y) || core_app_name_setting(o) == Some(y) || core_file_system_path_setting(o) == Some(y) || core_load_shaders_from_filesystem_setting(o) == Some(y) || core_force_cpu_renderer_setting(o) == Some(y)
        ),
{
    let rank = |m: AppSettingModel| core_setting_rank(m);
    let p0 = Seq::<AppSettingModel>::empty();
    let p1 = p0 + core_seq_of(core_developer_name_setting(o));
    crate::config::lemma_append_ranked(p0, core_seq_of(core_developer_name_setting(o)), rank, 0, y);
    let p2 = p1 + core_seq_of(core_app_name_setting(o));
    crate::config::lemma_append_ranked(p1, core_seq_of(core_app_name_setting(o)), rank, 1, y);
    let p3 = p2 + core_seq_of(core_file_system_path_setting(o));
    crate::config::lemma_append_ranked(p2, core_seq_of(core_file_system_path_setting(o)), rank, 2, y);
    let p4 = p3 + core_seq_of(core_load_shaders_from_filesystem_setting(o));
    crate::config::lemma_append_ranked(p3, core_seq_of(core_load_shaders_from_filesystem_setting(o)), rank, 3, y);
    let p5 = p4 + core_seq_of(core_force_cpu_renderer_setting(o));
    crate::config::lemma_append_ranked(p4, core_seq_of(core_force_cpu_renderer_setting(o)), rank, 4, y);
    assert(core_settings(o) == p5);
}

/// Building applies exactly the options that are set, each through the
/// setting of its own name with the value it was set to, once, in the order
/// of the options of [`SettingsOptions`].
pub proof fn lemma_core_settings_are_the_options(o: SettingsOptions)
    ensures
        forall|x: Seq<char>| #[trigger] core_settings(o).contains(AppSettingModel::DeveloperName(x)) == (o.developer_name == Some(x)),
        forall|x: Seq<char>| #[trigger] core_settings(o).contains(AppSettingModel::AppName(x)) == (o.app_name == Some(x)),
        forall|x: Seq<char>| #[trigger] core_settings(o).contains(AppSettingModel::FileSystemPath(x)) == (o.file_system_path == Some(x)),
        forall|x: bool| #[trigger] core_settings(o).contains(AppSettingModel::LoadShadersFromFileSystem(x)) == (o.load_shaders_from_filesystem == Some(x)),
        forall|x: bool| #[trigger] core_settings(o).contains(AppSettingModel::ForceCpuRenderer(x)) == (o.force_cpu_renderer == Some(x)),
        forall|i: int, j: int|
            0 <= i < j < core_settings(o).len() ==> #[trigger] core_setting_rank(core_settings(o)[i]) < #[trigger] core_setting_rank(core_settings(o)[j]),
{
    assert forall|x: Seq<char>| #[trigger] core_settings(o).contains(AppSettingModel::DeveloperName(x)) == (o.developer_name == Some(x)) by {
        lemma_core_settings_members(o, AppSettingModel::DeveloperName(x));
    }
    assert forall|x: Seq<char>| #[trigger] core_settings(o).contains(AppSettingModel::AppName(x)) == (o.app_name == Some(x)) by {
        lemma_core_settings_members(o, AppSettingModel::AppName(x));
    }
    assert forall|x: Seq<char>| #[trigger] core_settings(o).contains(AppSettingModel::FileSystemPath(x)) == (o.file_system_path == Some(x)) by {
        lemma_core_settings_members(o, AppSettingModel::FileSystemPath(x));
    }
    assert forall|x: bool| #[trigger] core_settings(o).contains(AppSettingModel::LoadShadersFromFileSystem(x)) == (o.load_shaders_from_filesystem == Some(x)) by {
        lemma_core_settings_members(o, AppSettingModel::LoadShadersFromFileSystem(x));
    }
    assert forall|x: bool| #[trigger] core_settings(o).contains(AppSettingModel::ForceCpuRenderer(x)) == (o.force_cpu_renderer == Some(x)) by {
        lemma_core_settings_members(o, AppSettingModel::ForceCpuRenderer(x));
    }
    let s = core_settings(o);
    assert forall|i: int, j: int| 0 <= i < j < s.len() implies #[trigger] core_setting_rank(s[i]) < #[trigger] core_setting_rank(s[j]) by {
        lemma_core_settings_members(o, s[i]);
        assert(crate::config::ranked_increasing(s, |m: AppSettingModel| core_setting_rank(m)));
    }
}

/// Each setting is taken by the model setting of the same name, with the
/// same value (a string by its characters).
pub proof fn lemma_core_setting_views()
    ensures
        forall|x: String| #[trigger] AppSetting::DeveloperName(x)@ == AppSettingModel::DeveloperName(x@),
        forall|x: String| #[trigger] AppSetting::AppName(x)@ == AppSettingModel::AppName(x@),
        forall|x: String| #[trigger] AppSetting::FileSystemPath(x)@ == AppSettingModel::FileSystemPath(x@),
        forall|x: bool| #[trigger] AppSetting::LoadShadersFromFileSystem(x)@ == AppSettingModel::LoadShadersFromFileSystem(x),
        forall|x: bool| #[trigger] AppSetting::ForceCpuRenderer(x)@ == AppSettingModel::ForceCpuRenderer(x),
{
}

} // verus!
