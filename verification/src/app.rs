//! Settings of an application that `Ultralight`'s `AppCore` manages.
//!
//! [`SettingsBuilder`] collects the settings a user sets; building the
//! settings applies exactly those, in a fixed order, through the C API
//! (`ulSettingsSet*`).
use vstd::prelude::*;

verus! {

/// One option that building applies, with the value the C setter takes.
#[derive(Debug, Clone, PartialEq, Eq)]
pub enum AppSetting {
    DeveloperName(String),
    AppName(String),
    FileSystemPath(String),
    LoadShadersFromFileSystem(bool),
    ForceCpuRenderer(bool),
}

/// A [`AppSetting`] with its strings taken by their characters.
pub enum AppSettingModel {
    DeveloperName(Seq<char>),
    AppName(Seq<char>),
    FileSystemPath(Seq<char>),
    LoadShadersFromFileSystem(bool),
    ForceCpuRenderer(bool),
}

impl View for AppSetting {
    type V = AppSettingModel;

    open spec fn view(&self) -> AppSettingModel {
        match self {
            AppSetting::DeveloperName(s) => AppSettingModel::DeveloperName(s@),
            AppSetting::AppName(s) => AppSettingModel::AppName(s@),
            AppSetting::FileSystemPath(s) => AppSettingModel::FileSystemPath(s@),
            AppSetting::LoadShadersFromFileSystem(s) => AppSettingModel::LoadShadersFromFileSystem(*s),
            AppSetting::ForceCpuRenderer(s) => AppSettingModel::ForceCpuRenderer(*s),
        }
    }
}

/// The options of a [`SettingsBuilder`]; `None` for an option left unset.
pub struct SettingsOptions {
    pub developer_name: Option<Seq<char>>,
    pub app_name: Option<Seq<char>>,
    pub filesystem_path: Option<Seq<char>>,
    pub load_shaders_from_filesystem: Option<bool>,
    pub force_cpu_renderer: Option<bool>,
}

/// The options left unset.
pub open spec fn no_app_options() -> SettingsOptions {
    SettingsOptions {
        developer_name: None,
        app_name: None,
        filesystem_path: None,
        load_shaders_from_filesystem: None,
        force_cpu_renderer: None,
    }
}

/// The list holding the setting when it is present, the empty list otherwise.
pub open spec fn app_seq_of(m: Option<AppSettingModel>) -> Seq<AppSettingModel> {
    match m {
        Some(x) => seq![x],
        None => Seq::empty(),
    }
}

/// The setting that applies the `developer_name` option, if it is set.
pub open spec fn app_developer_name_setting(o: SettingsOptions) -> Option<AppSettingModel> {
    match o.developer_name {
        Some(v) => Some(AppSettingModel::DeveloperName(v)),
        None => None,
    }
}

/// The setting that applies the `app_name` option, if it is set.
pub open spec fn app_app_name_setting(o: SettingsOptions) -> Option<AppSettingModel> {
    match o.app_name {
        Some(v) => Some(AppSettingModel::AppName(v)),
        None => None,
    }
}

/// The setting that applies the `filesystem_path` option, if it is set.
pub open spec fn app_filesystem_path_setting(o: SettingsOptions) -> Option<AppSettingModel> {
    match o.filesystem_path {
        Some(v) => Some(AppSettingModel::FileSystemPath(v)),
        None => None,
    }
}

/// The setting that applies the `load_shaders_from_filesystem` option, if it is set.
pub open spec fn app_load_shaders_from_filesystem_setting(o: SettingsOptions) -> Option<AppSettingModel> {
    match o.load_shaders_from_filesystem {
        Some(v) => Some(AppSettingModel::LoadShadersFromFileSystem(v)),
        None => None,
    }
}

/// The setting that applies the `force_cpu_renderer` option, if it is set.
pub open spec fn app_force_cpu_renderer_setting(o: SettingsOptions) -> Option<AppSettingModel> {
    match o.force_cpu_renderer {
        Some(v) => Some(AppSettingModel::ForceCpuRenderer(v)),
        None => None,
    }
}

/// The settings that building applies, in the order they are applied: each one that is set, in the order of the fields of [`SettingsOptions`].
pub open spec fn app_settings(o: SettingsOptions) -> Seq<AppSettingModel> {
    Seq::empty()
        + app_seq_of(app_developer_name_setting(o))
        + app_seq_of(app_app_name_setting(o))
        + app_seq_of(app_filesystem_path_setting(o))
        + app_seq_of(app_load_shaders_from_filesystem_setting(o))
        + app_seq_of(app_force_cpu_renderer_setting(o))
}

/// Building with no option set applies no setting, so every option keeps
/// the library's default.
pub proof fn lemma_app_no_options_no_settings()
    ensures
        app_settings(no_app_options()) == Seq::<AppSettingModel>::empty(),
{
    assert(app_settings(no_app_options()) =~= Seq::<AppSettingModel>::empty());
}

/// Builder for the settings of an application.
#[derive(Debug, Clone)]
pub struct SettingsBuilder {
    developer_name: Option<String>,
    app_name: Option<String>,
    filesystem_path: Option<String>,
    load_shaders_from_filesystem: Option<bool>,
    force_cpu_renderer: Option<bool>,
}

impl View for SettingsBuilder {
    type V = SettingsOptions;

    closed spec fn view(&self) -> SettingsOptions {
        SettingsOptions {
            developer_name: crate::config::opt_view(self.developer_name),
            app_name: crate::config::opt_view(self.app_name),
            filesystem_path: crate::config::opt_view(self.filesystem_path),
            load_shaders_from_filesystem: self.load_shaders_from_filesystem,
            force_cpu_renderer: self.force_cpu_renderer,
        }
    }
}

impl Default for SettingsBuilder {
    fn default() -> (r: SettingsBuilder)
        ensures
            r@ == no_app_options(),
    {
        SettingsBuilder::new()
    }
}

impl SettingsBuilder {
    /// A builder with no option set.
    pub fn new() -> (r: SettingsBuilder)
        ensures
            r@ == no_app_options(),
    {
        SettingsBuilder {
            developer_name: None,
            app_name: None,
            filesystem_path: None,
            load_shaders_from_filesystem: None,
            force_cpu_renderer: None,
        }
    }

    /// The name of the developer of this app, used to generate a unique path to store local application data on the user's machine.
    pub fn developer_name(self, developer_name: &str) -> (r: SettingsBuilder)
        ensures
            r@ == (SettingsOptions { developer_name: Some(developer_name@), ..self@ }),
    {
        SettingsBuilder { developer_name: Some(developer_name.to_owned()), ..self }
    }

    /// The name of this app, used to generate a unique path to store local application data on the user's machine.
    pub fn app_name(self, app_name: &str) -> (r: SettingsBuilder)
        ensures
            r@ == (SettingsOptions { app_name: Some(app_name@), ..self@ }),
    {
        SettingsBuilder { app_name: Some(app_name.to_owned()), ..self }
    }

    /// The root file path for the file system, used to resolve all file URLs, eg `file:///page.html`.
    pub fn filesystem_path(self, filesystem_path: &str) -> (r: SettingsBuilder)
        ensures
            r@ == (SettingsOptions { filesystem_path: Some(filesystem_path@), ..self@ }),
    {
        SettingsBuilder { filesystem_path: Some(filesystem_path.to_owned()), ..self }
    }

    /// Whether or not to load and compile shaders from the file system (the default is to load pre-compiled shaders from memory).
    pub fn load_shaders_from_filesystem(self, load_shaders_from_filesystem: bool) -> (r: SettingsBuilder)
        ensures
            r@ == (SettingsOptions { load_shaders_from_filesystem: Some(load_shaders_from_filesystem), ..self@ }),
    {
        SettingsBuilder { load_shaders_from_filesystem: Some(load_shaders_from_filesystem), ..self }
    }

    /// Set this to true to force the engine to always use the CPU renderer.
    pub fn force_cpu_renderer(self, force_cpu_renderer: bool) -> (r: SettingsBuilder)
        ensures
            r@ == (SettingsOptions { force_cpu_renderer: Some(force_cpu_renderer), ..self@ }),
    {
        SettingsBuilder { force_cpu_renderer: Some(force_cpu_renderer), ..self }
    }

    /// The settings that building applies through the C API, in the order
    /// they are applied: each option that was set, and no other.
    /// String options must hold no NUL character, as the C API takes them
    /// as C strings.
    pub fn into_settings(self) -> (r: Vec<AppSetting>)
        requires
            crate::config::free_of_nul(self@.developer_name),
            crate::config::free_of_nul(self@.app_name),
            crate::config::free_of_nul(self@.filesystem_path),
        ensures
            r@.map_values(|s: AppSetting| s@) == app_settings(self@),
    {
        let ghost o = self@;
        let mut out: Vec<AppSetting> = Vec::new();
        assert(out@.map_values(|x: AppSetting| x@) =~= Seq::<AppSettingModel>::empty());
        let s = match self.developer_name {
            Some(v) => Some(AppSetting::DeveloperName(v)),
            None => None,
        };
        assert(app_opt_model(s) == app_developer_name_setting(o));
        app_push_setting(&mut out, s);
        let s = match self.app_name {
            Some(v) => Some(AppSetting::AppName(v)),
            None => None,
        };
        assert(app_opt_model(s) == app_app_name_setting(o));
        app_push_setting(&mut out, s);
        let s = match self.filesystem_path {
            Some(v) => Some(AppSetting::FileSystemPath(v)),
            None => None,
        };
        assert(app_opt_model(s) == app_filesystem_path_setting(o));
        app_push_setting(&mut out, s);
        let s = match self.load_shaders_from_filesystem {
            Some(v) => Some(AppSetting::LoadShadersFromFileSystem(v)),
            None => None,
        };
        assert(app_opt_model(s) == app_load_shaders_from_filesystem_setting(o));
        app_push_setting(&mut out, s);
        let s = match self.force_cpu_renderer {
            Some(v) => Some(AppSetting::ForceCpuRenderer(v)),
            None => None,
        };
        assert(app_opt_model(s) == app_force_cpu_renderer_setting(o));
        app_push_setting(&mut out, s);
        out
    }
}

/// The model of an optional setting.
pub open spec fn app_opt_model(s: Option<AppSetting>) -> Option<AppSettingModel> {
    match s {
        Some(x) => Some(x@),
        None => None,
    }
}

/// Appends a setting, if present, to the list of settings.
fn app_push_setting(out: &mut Vec<AppSetting>, s: Option<AppSetting>)
    ensures
        final(out)@.map_values(|x: AppSetting| x@) == old(out)@.map_values(|x: AppSetting| x@)
            + app_seq_of(app_opt_model(s)),
{
    let ghost before = out@;
    if let Some(x) = s {
        out.push(x);
    }
    assert(out@.map_values(|x: AppSetting| x@) =~= before.map_values(|x: AppSetting| x@)
        + app_seq_of(app_opt_model(s)));
}

/// The position of the option a setting applies among the options of
/// [`SettingsOptions`], which is the order in which building applies them.
pub open spec fn app_setting_rank(m: AppSettingModel) -> int {
    match m {
        AppSettingModel::DeveloperName(_) => 0,
        AppSettingModel::AppName(_) => 1,
        AppSettingModel::FileSystemPath(_) => 2,
        AppSettingModel::LoadShadersFromFileSystem(_) => 3,
        AppSettingModel::ForceCpuRenderer(_) => 4,
    }
}

proof fn lemma_app_settings_members(o: SettingsOptions, y: AppSettingModel)
    ensures
        crate::config::ranked_increasing(app_settings(o), |m: AppSettingModel| app_setting_rank(m)),
        app_settings(o).contains(y) == (
app_developer_name_setting(o) == Some(y) || app_app_name_setting(o) == Some(y) || app_filesystem_path_setting(o) == Some(y) || app_load_shaders_from_filesystem_setting(o) == Some(y) || app_force_cpu_renderer_setting(o) == Some(y)
        ),
{
    let rank = |m: AppSettingModel| app_setting_rank(m);
    let p0 = Seq::<AppSettingModel>::empty();
    let p1 = p0 + app_seq_of(app_developer_name_setting(o));
    crate::config::lemma_append_ranked(p0, app_seq_of(app_developer_name_setting(o)), rank, 0, y);
    let p2 = p1 + app_seq_of(app_app_name_setting(o));
    crate::config::lemma_append_ranked(p1, app_seq_of(app_app_name_setting(o)), rank, 1, y);
    let p3 = p2 + app_seq_of(app_filesystem_path_setting(o));
    crate::config::lemma_append_ranked(p2, app_seq_of(app_filesystem_path_setting(o)), rank, 2, y);
    let p4 = p3 + app_seq_of(app_load_shaders_from_filesystem_setting(o));
    crate::config::lemma_append_ranked(p3, app_seq_of(app_load_shaders_from_filesystem_setting(o)), rank, 3, y);
    let p5 = p4 + app_seq_of(app_force_cpu_renderer_setting(o));
    crate::config::lemma_append_ranked(p4, app_seq_of(app_force_cpu_renderer_setting(o)), rank, 4, y);
    assert(app_settings(o) == p5);
}

/// Building applies exactly the options that are set, each through the
/// setting of its own name with the value it was set to, once, in the order
/// of the options of [`SettingsOptions`].
pub proof fn lemma_app_settings_are_the_options(o: SettingsOptions)
    ensures
        forall|x: Seq<char>| #[trigger] app_settings(o).contains(AppSettingModel::DeveloperName(x)) == (o.developer_name == Some(x)),
        forall|x: Seq<char>| #[trigger] app_settings(o).contains(AppSettingModel::AppName(x)) == (o.app_name == Some(x)),
        forall|x: Seq<char>| #[trigger] app_settings(o).contains(AppSettingModel::FileSystemPath(x)) == (o.filesystem_path == Some(x)),
        forall|x: bool| #[trigger] app_settings(o).contains(AppSettingModel::LoadShadersFromFileSystem(x)) == (o.load_shaders_from_filesystem == Some(x)),
        forall|x: bool| #[trigger] app_settings(o).contains(AppSettingModel::ForceCpuRenderer(x)) == (o.force_cpu_renderer == Some(x)),
        forall|i: int, j: int|
            0 <= i < j < app_settings(o).len() ==> #[trigger] app_setting_rank(app_settings(o)[i]) < #[trigger] app_setting_rank(app_settings(o)[j]),
{
    assert forall|x: Seq<char>| #[trigger] app_settings(o).contains(AppSettingModel::DeveloperName(x)) == (o.developer_name == Some(x)) by {
        lemma_app_settings_members(o, AppSettingModel::DeveloperName(x));
    }
    assert forall|x: Seq<char>| #[trigger] app_settings(o).contains(AppSettingModel::AppName(x)) == (o.app_name == Some(x)) by {
        lemma_app_settings_members(o, AppSettingModel::AppName(x));
    }
    assert forall|x: Seq<char>| #[trigger] app_settings(o).contains(AppSettingModel::FileSystemPath(x)) == (o.filesystem_path == Some(x)) by {
        lemma_app_settings_members(o, AppSettingModel::FileSystemPath(x));
    }
    assert forall|x: bool| #[trigger] app_settings(o).contains(AppSettingModel::LoadShadersFromFileSystem(x)) == (o.load_shaders_from_filesystem == Some(x)) by {
        lemma_app_settings_members(o, AppSettingModel::LoadShadersFromFileSystem(x));
    }
    assert forall|x: bool| #[trigger] app_settings(o).contains(AppSettingModel::ForceCpuRenderer(x)) == (o.force_cpu_renderer == Some(x)) by {
        lemma_app_settings_members(o, AppSettingModel::ForceCpuRenderer(x));
    }
    let s = app_settings(o);
    assert forall|i: int, j: int| 0 <= i < j < s.len() implies #[trigger] app_setting_rank(s[i]) < #[trigger] app_setting_rank(s[j]) by {
        lemma_app_settings_members(o, s[i]);
        assert(crate::config::ranked_increasing(s, |m: AppSettingModel| app_setting_rank(m)));
    }
}

/// Each setting is taken by the model setting of the same name, with the
/// same value (a string by its characters).
pub proof fn lemma_app_setting_views()
    ensures
        forall|x: String| #[trigger] AppSetting::DeveloperName(x)@ == AppSettingModel::DeveloperName(x@),
        forall|x: String| #[trigger] AppSetting::AppName(x)@ == AppSettingModel::AppName(x@),
        forall|x: String| #[trigger] AppSetting::FileSystemPath(x)@ == AppSettingModel::FileSystemPath(x@),
        forall|x: bool| #[trigger] AppSetting::LoadShadersFromFileSystem(x)@ == AppSettingModel::LoadShadersFromFileSystem(x),
        forall|x: bool| #[trigger] AppSetting::ForceCpuRenderer(x)@ == AppSettingModel::ForceCpuRenderer(x),
{
}

} // verus!
