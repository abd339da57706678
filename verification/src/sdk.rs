//! Choice of the `Ultralight` SDK that the native build downloads, and of the
//! SDK files it keeps.
use vstd::prelude::*;

use crate::text::{append_chars, chars_to_string, contains, contains_seq, str_eq, str_to_chars};

verus! {

/// The revision of the `Ultralight` SDK that is downloaded.
pub open spec fn sdk_revision() -> Seq<char> {
    "158d65c"@
}

/// Why no SDK matches the target.
#[derive(Debug, Clone, Copy, PartialEq, Eq)]
pub enum SdkPlatformError {
    /// Only x86_64 is supported on Windows.
    UnsupportedWindowsArch,
    /// Only x86_64 and aarch64 are supported on Linux.
    UnsupportedLinuxArch,
    /// Only x86_64 and aarch64 are supported on MacOS.
    UnsupportedMacosArch,
    /// Only Windows, Linux and MacOS are supported.
    UnsupportedOs,
}

/// The SDK platform name for a target operating system and architecture.
pub open spec fn sdk_platform_for(os: Seq<char>, arch: Seq<char>) -> Result<
    Seq<char>,
    SdkPlatformError,
> {
    if os == "windows"@ {
        if arch == "x86_64"@ {
            Ok("win-x64"@)
        } else {
            Err(SdkPlatformError::UnsupportedWindowsArch)
        }
    } else if os == "linux"@ {
        if arch == "x86_64"@ {
            Ok("linux-x64"@)
        } else if arch == "aarch64"@ {
            Ok("linux-arm64"@)
        } else {
            Err(SdkPlatformError::UnsupportedLinuxArch)
        }
    } else if os == "macos"@ {
        if arch == "x86_64"@ {
            Ok("mac-x64"@)
        } else if arch == "aarch64"@ {
            Ok("mac-arm64"@)
        } else {
            Err(SdkPlatformError::UnsupportedMacosArch)
        }
    } else {
        Err(SdkPlatformError::UnsupportedOs)
    }
}

/// The SDK platform name for a target operating system and architecture
/// (the values of `CARGO_CFG_TARGET_OS` and `CARGO_CFG_TARGET_ARCH`).
pub fn sdk_platform(os: &str, arch: &str) -> (r: Result<&'static str, SdkPlatformError>)
    ensures
        match r {
            Ok(p) => sdk_platform_for(os@, arch@) == Ok::<Seq<char>, SdkPlatformError>(p@),
            Err(e) => sdk_platform_for(os@, arch@) == Err::<Seq<char>, SdkPlatformError>(e),
        },
{
    let x86 = str_eq(arch, "x86_64");
    let arm = str_eq(arch, "aarch64");
    if str_eq(os, "windows") {
        if x86 {
            Ok("win-x64")
        } else {
            Err(SdkPlatformError::UnsupportedWindowsArch)
        }
    } else if str_eq(os, "linux") {
        if x86 {
            Ok("linux-x64")
        } else if arm {
            Ok("linux-arm64")
        } else {
            Err(SdkPlatformError::UnsupportedLinuxArch)
        }
    } else if str_eq(os, "macos") {
        if x86 {
            Ok("mac-x64")
        } else if arm {
            Ok("mac-arm64")
        } else {
            Err(SdkPlatformError::UnsupportedMacosArch)
        }
    } else {
        Err(SdkPlatformError::UnsupportedOs)
    }
}

/// The download address of the SDK archive for a platform.
pub open spec fn sdk_url_for(platform: Seq<char>) -> Seq<char> {
    "https://ultralight-sdk-dev.sfo2.cdn.digitaloceanspaces.com/ultralight-sdk-"@ + sdk_revision()
        + "-"@ + platform + ".7z"@
}

/// The download address of the SDK archive for a platform.
pub fn sdk_url(platform: &str) -> (r: String)
    ensures
        r@ == sdk_url_for(platform@),
{
    let mut v = str_to_chars(
        "https://ultralight-sdk-dev.sfo2.cdn.digitaloceanspaces.com/ultralight-sdk-",
    );
    append_chars(&mut v, &str_to_chars("158d65c"));
    append_chars(&mut v, &str_to_chars("-"));
    append_chars(&mut v, &str_to_chars(platform));
    append_chars(&mut v, &str_to_chars(".7z"));
    chars_to_string(&v)
}

/// A file of the SDK's binaries is kept, when only the libraries of
/// `Ultralight` are wanted, if its name contains the name of one of them.
pub open spec fn is_ultralight_file(name: Seq<char>) -> bool {
    contains_seq(name, "Ultralight"@) || contains_seq(name, "UltralightCore"@) || contains_seq(
        name,
        "WebCore"@,
    ) || contains_seq(name, "AppCore"@)
}

/// Whether a file of the SDK's binaries is one of the libraries of `Ultralight`.
pub fn is_allowed_sdk_file(name: &str) -> (r: bool)
    ensures
        r == is_ultralight_file(name@),
{
    let n = str_to_chars(name);
    contains(&n, &str_to_chars("Ultralight")) || contains(&n, &str_to_chars("UltralightCore"))
        || contains(&n, &str_to_chars("WebCore")) || contains(&n, &str_to_chars("AppCore"))
}

/// Whether a directory entry of the SDK's binaries is removed when only the
/// libraries of `Ultralight` are wanted: it is a file or a symbolic link, and
/// its name is not valid Unicode (`None`) or names none of the libraries.
pub fn should_remove_sdk_entry(name: Option<&str>, is_file_or_symlink: bool) -> (r: bool)
    ensures
        r == (is_file_or_symlink && match name {
            Some(n) => !is_ultralight_file(n@),
            None => true,
        }),
{
    let allowed = match name {
        Some(n) => is_allowed_sdk_file(n),
        None => false,
    };
    !allowed && is_file_or_symlink
}

} // verus!
