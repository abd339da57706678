use ul_next::app::{AppSetting, SettingsBuilder};
use ul_next::app_core::{AppSetting as CoreSetting, SettingsBuilder as CoreBuilder};
use ul_next::config::{ConfigBuilder, ConfigSetting, FaceWinding, FontHinting};
use ul_next::view::{ViewConfigBuilder, ViewConfigSetting};

#[test]
fn config_without_options_applies_nothing() {
    assert_eq!(ConfigBuilder::new().into_settings(), vec![]);
    assert_eq!(ConfigBuilder::default().into_settings(), vec![]);
}

#[test]
fn config_applies_set_options_in_order() {
    let settings = ConfigBuilder::new()
        .bitmap_alignment(16)
        .font_gamma(1.8f64.to_bits())
        .cache_path("cache/")
        .face_winding(FaceWinding::CounterClockwise)
        .font_hinting(FontHinting::Monochrome)
        .force_repaint(true)
        .into_settings();
    assert_eq!(
        settings,
        vec![
            ConfigSetting::CachePath("cache/".to_string()),
            ConfigSetting::FaceWinding(1),
            ConfigSetting::FontHinting(2),
            ConfigSetting::FontGamma(1.8f64.to_bits()),
            ConfigSetting::ForceRepaint(true),
            ConfigSetting::BitmapAlignment(16),
        ]
    );
}

#[test]
fn config_applies_every_option() {
    let settings = ConfigBuilder::new()
        .cache_path("a")
        .resource_path_prefix("resources/")
        .face_winding(FaceWinding::Clockwise)
        .font_hinting(FontHinting::Smooth)
        .font_gamma(1)
        .user_stylesheet("body {}")
        .force_repaint(false)
        .animation_timer_delay(2)
        .scroll_timer_delay(3)
        .recycle_delay(4)
        .memory_cache_size(5)
        .page_cache_size(6)
        .override_ram_size(7)
        .min_large_heap_size(8)
        .min_small_heap_size(9)
        .num_renderer_threads(10)
        .max_update_time(11)
        .bitmap_alignment(12)
        .into_settings();
    assert_eq!(settings.len(), 18);
    assert_eq!(settings[1], ConfigSetting::ResourcePathPrefix("resources/".to_string()));
    assert_eq!(settings[2], ConfigSetting::FaceWinding(0));
    assert_eq!(settings[3], ConfigSetting::FontHinting(0));
    assert_eq!(settings[5], ConfigSetting::UserStylesheet("body {}".to_string()));
    assert_eq!(settings[7], ConfigSetting::AnimationTimerDelay(2));
    assert_eq!(settings[9], ConfigSetting::RecycleDelay(4));
    assert_eq!(settings[12], ConfigSetting::OverrideRamSize(7));
    assert_eq!(settings[15], ConfigSetting::NumRendererThreads(10));
    assert_eq!(settings[16], ConfigSetting::MaxUpdateTime(11));
}

#[test]
fn later_setter_call_wins() {
    let settings = ConfigBuilder::new().memory_cache_size(1).memory_cache_size(2).into_settings();
    assert_eq!(settings, vec![ConfigSetting::MemoryCacheSize(2)]);
}

#[test]
fn app_settings_in_order() {
    let settings = SettingsBuilder::new()
        .force_cpu_renderer(true)
        .app_name("demo")
        .developer_name("me")
        .into_settings();
    assert_eq!(
        settings,
        vec![
            AppSetting::DeveloperName("me".to_string()),
            AppSetting::AppName("demo".to_string()),
            AppSetting::ForceCpuRenderer(true),
        ]
    );
    assert_eq!(SettingsBuilder::default().into_settings(), vec![]);
    let fs = SettingsBuilder::new()
        .load_shaders_from_filesystem(false)
        .filesystem_path("./assets")
        .into_settings();
    assert_eq!(
        fs,
        vec![
            AppSetting::FileSystemPath("./assets".to_string()),
            AppSetting::LoadShadersFromFileSystem(false),
        ]
    );
}

#[test]
fn app_core_settings_in_order() {
    let settings = CoreBuilder::new().file_system_path("/x").developer_name("d").into_settings();
    assert_eq!(
        settings,
        vec![CoreSetting::DeveloperName("d".to_string()), CoreSetting::FileSystemPath("/x".to_string())]
    );
}

#[test]
fn view_config_in_order() {
    let settings = ViewConfigBuilder::new()
        .user_agent("agent")
        .is_accelerated(true)
        .initial_device_scale(2.0f64.to_bits())
        .font_family_serif("Serif")
        .enable_javascript(false)
        .into_settings();
    assert_eq!(
        settings,
        vec![
            ViewConfigSetting::IsAccelerated(true),
            ViewConfigSetting::InitialDeviceScale(2.0f64.to_bits()),
            ViewConfigSetting::EnableJavaScript(false),
            ViewConfigSetting::FontFamilySerif("Serif".to_string()),
            ViewConfigSetting::UserAgent("agent".to_string()),
        ]
    );
    assert_eq!(ViewConfigBuilder::default().into_settings(), vec![]);
    let all = ViewConfigBuilder::new()
        .is_transparent(true)
        .initial_focus(true)
        .enable_images(false)
        .font_family_standard("S")
        .font_family_fixed("F")
        .font_family_sans_serif("SS")
        .into_settings();
    assert_eq!(
        all,
        vec![
            ViewConfigSetting::IsTransparent(true),
            ViewConfigSetting::InitialFocus(true),
            ViewConfigSetting::EnableImages(false),
            ViewConfigSetting::FontFamilyStandard("S".to_string()),
            ViewConfigSetting::FontFamilyFixed("F".to_string()),
            ViewConfigSetting::FontFamilySansSerif("SS".to_string()),
        ]
    );
}
