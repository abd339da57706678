use ul_next::generate::{linked_function_for, post_process_loaded, splice_linked_function, GenerateError};
use ul_next::sdk::{is_allowed_sdk_file, sdk_platform, sdk_url, should_remove_sdk_entry, SdkPlatformError};
use ul_next::string::{c_string_bytes, string_from_ul_bytes, webkit_version_from_c};
use ul_next::text::{contains, replace, str_eq};
use ul_next::error::CreationError;
use ul_next::view::script_outcome;
use ul_next::Version;

fn chars(s: &str) -> Vec<char> {
    s.chars().collect()
}

#[test]
fn replace_scans_left_to_right() {
    let r = replace(&chars("aaaa"), &chars("aa"), &chars("b"));
    assert_eq!(r.iter().collect::<String>(), "bb");
    let r = replace(&chars("xaax"), &chars("a"), &chars("yy"));
    assert_eq!(r.iter().collect::<String>(), "xyyyyx");
    let r = replace(&chars("abc"), &chars("z"), &chars("q"));
    assert_eq!(r.iter().collect::<String>(), "abc");
    assert!(contains(&chars("libWebCore.so"), &chars("WebCore")));
    assert!(!contains(&chars("Web"), &chars("WebCore")));
    assert!(str_eq("linux", "linux"));
    assert!(!str_eq("linux", "linu"));
}

#[test]
fn version_string() {
    assert_eq!(Version { major: 1, minor: 4, patch: 0 }.to_string(), "1.4.0");
    assert_eq!(Version { major: 10, minor: 203, patch: 4294967295 }.to_string(), "10.203.4294967295");
}

#[test]
fn strings_from_the_c_api() {
    assert!(matches!(string_from_ul_bytes(None), Err(CreationError::NullReference)));
    assert_eq!(string_from_ul_bytes(Some("héllo".as_bytes())).unwrap(), "héllo");
    assert!(matches!(
        string_from_ul_bytes(Some(&[0xff, 0x41])),
        Err(CreationError::RustStringCreationError(_))
    ));
    assert_eq!(webkit_version_from_c(None), "");
    assert_eq!(webkit_version_from_c(Some(b"615.1.18")), "615.1.18");
    assert_eq!(webkit_version_from_c(Some(&[0x41, 0xff, 0x42])), "A\u{FFFD}B");
}

#[test]
fn script_outcomes() {
    assert_eq!(script_outcome(false, Some(b""), Some(b"42")).unwrap(), Ok("42".to_string()));
    assert_eq!(script_outcome(true, Some(b"boom"), Some(b"")).unwrap(), Err("boom".to_string()));
    assert!(matches!(script_outcome(true, None, Some(b"1")), Err(CreationError::NullReference)));
    assert!(matches!(
        script_outcome(false, Some(b""), Some(&[0xc3])),
        Err(CreationError::RustStringCreationError(_))
    ));
}

#[test]
fn sdk_choice() {
    assert_eq!(sdk_platform("windows", "x86_64"), Ok("win-x64"));
    assert_eq!(sdk_platform("windows", "aarch64"), Err(SdkPlatformError::UnsupportedWindowsArch));
    assert_eq!(sdk_platform("linux", "x86_64"), Ok("linux-x64"));
    assert_eq!(sdk_platform("linux", "aarch64"), Ok("linux-arm64"));
    assert_eq!(sdk_platform("linux", "riscv64"), Err(SdkPlatformError::UnsupportedLinuxArch));
    assert_eq!(sdk_platform("macos", "aarch64"), Ok("mac-arm64"));
    assert_eq!(sdk_platform("macos", "x86_64"), Ok("mac-x64"));
    assert_eq!(sdk_platform("macos", "x86"), Err(SdkPlatformError::UnsupportedMacosArch));
    assert_eq!(sdk_platform("freebsd", "x86_64"), Err(SdkPlatformError::UnsupportedOs));
    assert_eq!(
        sdk_url("linux-x64"),
        "https://ultralight-sdk-dev.sfo2.cdn.digitaloceanspaces.com/ultralight-sdk-158d65c-linux-x64.7z"
    );
    assert!(is_allowed_sdk_file("libUltralightCore.so"));
    assert!(is_allowed_sdk_file("AppCore.dll"));
    assert!(!is_allowed_sdk_file("libglib.so"));
    assert!(should_remove_sdk_entry(Some("libglib.so"), true));
    assert!(!should_remove_sdk_entry(Some("libglib.so"), false));
    assert!(!should_remove_sdk_entry(Some("libWebCore.so"), true));
    assert!(should_remove_sdk_entry(None, true));
}

/// The post-processing as the bindings generator writes it, as an oracle.
fn oracle(buf: &str, is_appcore: bool) -> String {
    let content = buf
        .replace("__library:", "\n        #[cfg(feature = \"loaded\")]\n        __library:")
        .replace(
            "pub unsafe fn new",
            "\n            #[cfg(feature = \"loaded\")]\n            #[cfg_attr(docsrs, doc(cfg(feature = \"loaded\")))]\n            pub unsafe fn load_from",
        )
        .replace(
            "pub unsafe fn from_library",
            "\n            #[cfg(feature = \"loaded\")]\n            #[cfg_attr(docsrs, doc(cfg(feature = \"loaded\")))]\n            unsafe fn from_library",
        )
        .replace("::libloading::Library,", "Option<::std::sync::Arc<::libloading::Library>>,")
        .replace("__library,", "__library: Some(::std::sync::Arc::new(__library)),")
        .replace("pub struct ", "#[derive(Clone)]\npub struct ");
    let func_regex = regex::Regex::new(r"pub (\w+):").unwrap();
    let all_funcs: Vec<_> =
        func_regex.captures_iter(&content).map(|m| m.get(1).unwrap().as_str()).collect();
    let mut middle_fields = String::new();
    for func in all_funcs.iter() {
        middle_fields.push_str(&format!("{}: crate::linked::{},\n", func, func));
    }
    let appcore_pre = if is_appcore { "appcore_" } else { "" };
    let linked_func = format!(
        r#"
            #[cfg(feature = "{appcore_pre}linked")]
            #[cfg_attr(docsrs, doc(cfg(feature = "{appcore_pre}linked")))]
            pub const fn linked() -> Self {{
                Self {{
                    #[cfg(feature = "loaded")]
                    __library: None,
                    {middle_fields}
                }}
            }}
        "#,
    );
    let impl_regex = regex::Regex::new(r"impl.*\{").unwrap();
    impl_regex
        .replace(&content, |caps: &regex::Captures| format!("{}\n{}", &caps[0], linked_func))
        .to_string()
}

const BINDINGS: &str = "pub struct Ultralight {
    __library: ::libloading::Library,
    pub ulVersionMajor: unsafe extern \"C\" fn() -> u32,
    pub ulVersionMinor: unsafe extern \"C\" fn() -> u32,
}
impl Ultralight {
    pub unsafe fn new<P>(path: P) -> Result<Self, ::libloading::Error> {
        let library = ::libloading::Library::new(path)?;
        Self::from_library(library)
    }
    pub unsafe fn from_library<L>(library: L) -> Result<Self, ::libloading::Error> {
        let __library = library.into();
        Ok(Ultralight {
            __library,
            ulVersionMajor,
            ulVersionMinor,
        })
    }
}
";

#[test]
fn post_processing_matches_the_generator() {
    let got = post_process_loaded(BINDINGS, false).unwrap();
    assert_eq!(got, oracle(BINDINGS, false));
    let got = post_process_loaded(BINDINGS, true).unwrap();
    assert_eq!(got, oracle(BINDINGS, true));
    assert!(got.contains("ulVersionMajor: crate::linked::ulVersionMajor,\nulVersionMinor: crate::linked::ulVersionMinor,\n"));
    assert!(got.contains("#[cfg(feature = \"appcore_linked\")]"));
    assert!(got.contains("#[derive(Clone)]\npub struct Ultralight"));
    assert!(got.contains("__library: Option<::std::sync::Arc<::libloading::Library>>,"));
    assert!(got.contains("impl Ultralight {\n\n            #[cfg(feature = \"appcore_linked\")]"));
}

#[test]
fn post_processing_without_impl_leaves_text_unspliced() {
    let got = post_process_loaded("pub struct A {\n    pub f: u8,\n}\n", false).unwrap();
    assert_eq!(got, "#[derive(Clone)]\npub struct A {\n    pub f: u8,\n}\n");
}

#[test]
fn linked_function_pieces() {
    let linked = linked_function_for(false, &vec![Some("a".to_string()), Some("b".to_string())]).unwrap();
    assert!(linked.starts_with("\n            #[cfg(feature = \"linked\")]"));
    assert!(linked.contains("a: crate::linked::a,\nb: crate::linked::b,\n"));
    assert_eq!(
        linked_function_for(true, &vec![Some("a".to_string()), None]),
        Err(GenerateError::MissingCapture)
    );
    let spliced = splice_linked_function(
        "xx impl A { yy",
        &Some(("xx ".to_string(), "impl A {".to_string(), " yy".to_string())),
        "L",
    );
    assert_eq!(spliced, "xx impl A {\nL yy");
    assert_eq!(splice_linked_function("abc", &None, "L"), "abc");
}

#[test]
fn c_string_bytes_appends_terminator() {
    let v = c_string_bytes("127.0.0.1").unwrap();
    assert_eq!(v, b"127.0.0.1\0".to_vec());
    assert_eq!(c_string_bytes("").unwrap(), vec![0u8]);
}

#[test]
fn c_string_bytes_reports_first_nul() {
    match c_string_bytes("ab\0c\0") {
        Err(CreationError::CStringCreationError { nul_position, bytes }) => {
            assert_eq!(nul_position, 2);
            assert_eq!(bytes, b"ab\0c\0".to_vec());
        }
        _ => panic!("expected a C string error"),
    }
}
