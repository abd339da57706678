//! Post-processing of the generated bindings of the dynamically loaded
//! `Ultralight` and `AppCore` libraries.
//!
//! The bindings generator writes a struct that holds the loaded functions.
//! Post-processing makes the library handle optional, puts the loading
//! functions behind the `loaded` feature, makes the structs cloneable, and
//! adds a `linked()` constructor that fills every function field with the
//! linked function of the same name.
use regex::Regex;
use vstd::prelude::*;

use crate::text::{append_chars, chars_to_string, replace, replace_all, str_to_chars};

verus! {

/// Whether `regex::Regex::new` accepts the pattern.
pub uninterp spec fn regex_compiles(pattern: Seq<char>) -> bool;

/// What `regex::Regex::captures_iter` finds in the haystack: for each
/// successive non-overlapping match, the text of capture group 1, if it took part.
pub uninterp spec fn regex_group_1_matches(pattern: Seq<char>, haystack: Seq<char>) -> Seq<
    Option<Seq<char>>,
>;

/// What `regex::Regex::find` finds in the haystack: for the leftmost-first
/// match, the text before it, the text of the match and the text after it.
pub uninterp spec fn regex_first_match(pattern: Seq<char>, haystack: Seq<char>) -> Option<
    (Seq<char>, Seq<char>, Seq<char>),
>;

/// A compiled regular expression of `regex`.
#[verifier::external_type_specification]
#[verifier::external_body]
pub struct ExRegex(Regex);

/// The error `regex::Regex::new` returns for a pattern it does not accept.
#[verifier::external_type_specification]
#[verifier::external_body]
pub struct ExRegexError(regex::Error);

/// A compiled regular expression together with the pattern it was compiled
/// from.
pub struct Pattern {
    re: Regex,
    source: Ghost<Seq<char>>,
}

impl Pattern {
    /// The pattern the expression was compiled from.
    pub closed spec fn source(&self) -> Seq<char> {
        self.source@
    }
}

/// Calls `regex::Regex::new`, which compiles the pattern or fails when it
/// does not accept it; whether it accepts it depends on the pattern alone.
#[verifier::external_body]
fn regex_compile(pattern: &str) -> (r: Result<Pattern, regex::Error>)
    ensures
        r is Ok <==> regex_compiles(pattern@),
        r matches Ok(p) ==> p.source() == pattern@,
{
    Regex::new(pattern).map(|re| Pattern { re, source: Ghost(pattern@) })
}

/// Calls `regex::Regex::captures_iter` and collects, for each match, the
/// text of capture group 1 if it took part. The result depends on the
/// pattern and the haystack alone.
#[verifier::external_body]
fn regex_captures_group_1(p: &Pattern, haystack: &str) -> (r: Vec<Option<String>>)
    ensures
        r@.map_values(|m: Option<String>| opt_string_view(m)) == regex_group_1_matches(
            p.source(),
            haystack@,
        ),
{
    p.re.captures_iter(haystack).map(|c| c.get(1).map(|m| m.as_str().to_string())).collect()
}

/// Calls `regex::Regex::find` and splits the haystack at the match it
/// returns: the text before the match, the match, and the text after it.
/// These three parts make up the haystack, as the match's byte range lies in
/// it.
#[verifier::external_body]
fn regex_split_first(p: &Pattern, haystack: &str) -> (r: Option<(String, String, String)>)
    ensures
        match r {
            Some((a, b, c)) => regex_first_match(p.source(), haystack@) == Some((a@, b@, c@))
                && a@ + b@ + c@ == haystack@,
            None => regex_first_match(p.source(), haystack@) is None,
        },
{
    p.re.find(haystack).map(
        |m|
            (
                haystack[..m.start()].to_string(),
                m.as_str().to_string(),
                haystack[m.end()..].to_string(),
            ),
    )
}

/// Why post-processing could not be carried out.
#[derive(Debug, Clone, Copy, PartialEq, Eq)]
pub enum GenerateError {
    /// One of the patterns does not compile.
    InvalidPattern,
    /// A match of the function field pattern has no function name.
    MissingCapture,
}

/// The pattern of a function field of the generated struct; group 1 is the name.
pub open spec fn field_pattern() -> Seq<char> {
    "pub (\\w+):"@
}

/// The pattern of the start of the generated `impl` block.
pub open spec fn impl_pattern() -> Seq<char> {
    "impl.*\\{"@
}

/// The generated text after the replacements of post-processing, applied in order.
pub open spec fn loaded_content(bindings: Seq<char>) -> Seq<char> {
    let c1 = replace_all(
        bindings,
        "__library:"@,
        "\n        #[cfg(feature = \"loaded\")]\n        __library:"@,
    );
    let c2 = replace_all(
        c1,
        "pub unsafe fn new"@,
        "\n            #[cfg(feature = \"loaded\")]\n            #[cfg_attr(docsrs, doc(cfg(feature = \"loaded\")))]\n            pub unsafe fn load_from"@,
    );
    let c3 = replace_all(
        c2,
        "pub unsafe fn from_library"@,
        "\n            #[cfg(feature = \"loaded\")]\n            #[cfg_attr(docsrs, doc(cfg(feature = \"loaded\")))]\n            unsafe fn from_library"@,
    );
    let c4 = replace_all(
        c3,
        "::libloading::Library,"@,
        "Option<::std::sync::Arc<::libloading::Library>>,"@,
    );
    let c5 = replace_all(c4, "__library,"@, "__library: Some(::std::sync::Arc::new(__library)),"@);
    replace_all(c5, "pub struct "@, "#[derive(Clone)]\npub struct "@)
}

/// The field initialiser of `linked()` for the function `name`.
pub open spec fn linked_field(name: Seq<char>) -> Seq<char> {
    name + ": crate::linked::"@ + name + ",\n"@
}

/// The field initialisers of `linked()` for the functions, in order.
pub open spec fn linked_fields(names: Seq<Seq<char>>) -> Seq<char>
    decreases names.len(),
{
    if names.len() == 0 {
        Seq::empty()
    } else {
        linked_fields(names.drop_last()) + linked_field(names.last())
    }
}

/// The feature prefix of the `linked()` constructor: `appcore_` for the
/// `AppCore` library, nothing for `Ultralight`.
pub open spec fn feature_prefix(is_appcore: bool) -> Seq<char> {
    if is_appcore {
        "appcore_"@
    } else {
        ""@
    }
}

/// The `linked()` constructor with the given field initialisers.
pub open spec fn linked_function(is_appcore: bool, fields: Seq<char>) -> Seq<char> {
    "\n            #[cfg(feature = \""@ + feature_prefix(is_appcore)
        + "linked\")]\n            #[cfg_attr(docsrs, doc(cfg(feature = \""@ + feature_prefix(
        is_appcore,
    ) + "linked\")))]\n            pub const fn linked() -> Self {\n                Self {\n                    #[cfg(feature = \"loaded\")]\n                    __library: None,\n                    "@
        + fields + "\n                }\n            }\n        "@
}

/// The names captured for each function field, if every match captured one.
pub open spec fn all_captured(matches: Seq<Option<Seq<char>>>) -> bool {
    forall|i: int| 0 <= i < matches.len() ==> #[trigger] matches[i] is Some
}

/// The text with the `linked()` constructor put on a new line right after the
/// first match of the `impl` pattern, or unchanged when nothing matched.
pub open spec fn spliced(
    content: Seq<char>,
    first: Option<(Seq<char>, Seq<char>, Seq<char>)>,
    linked: Seq<char>,
) -> Seq<char> {
    match first {
        Some((before, matched, after)) => before + matched + "\n"@ + linked + after,
        None => content,
    }
}

/// The strings of the captured names.
pub open spec fn captured_names(matches: Seq<Option<Seq<char>>>) -> Seq<Seq<char>> {
    matches.map_values(|m: Option<Seq<char>>| m->0)
}

/// The characters of an optional string.
pub open spec fn opt_string_view(m: Option<String>) -> Option<Seq<char>> {
    match m {
        Some(s) => Some(s@),
        None => None,
    }
}

/// Builds the `linked()` constructor from the names captured for the
/// function fields, in order. Fails when a match captured no name.
pub fn linked_function_for(is_appcore: bool, captures: &Vec<Option<String>>) -> (r: Result<
    String,
    GenerateError,
>)
    ensures
        ({
            let m = captures@.map_values(|c: Option<String>| opt_string_view(c));
            match r {
                Ok(s) => all_captured(m) && s@ == linked_function(
                    is_appcore,
                    linked_fields(captured_names(m)),
                ),
                Err(e) => !all_captured(m) && e == GenerateError::MissingCapture,
            }
        }),
{
    let ghost m = captures@.map_values(|c: Option<String>| opt_string_view(c));
    let mut fields: Vec<char> = Vec::new();
    let mut i: usize = 0;
    while i < captures.len()
        invariant
            i <= captures@.len(),
            m == captures@.map_values(|c: Option<String>| opt_string_view(c)),
            all_captured(m.take(i as int)),
            fields@ == linked_fields(captured_names(m.take(i as int))),
        decreases captures@.len() - i,
    {
        let name = match &captures[i] {
            Some(n) => n,
            None => {
                assert(!all_captured(m)) by {
                    assert(m[i as int] is None);
                }
                return Err(GenerateError::MissingCapture);
            },
        };
        let name_chars = str_to_chars(name.as_str());
        append_chars(&mut fields, &name_chars);
        append_chars(&mut fields, &str_to_chars(": crate::linked::"));
        append_chars(&mut fields, &name_chars);
        append_chars(&mut fields, &str_to_chars(",\n"));
        proof {
            let t = m.take(i + 1);
            assert(t.drop_last() =~= m.take(i as int));
            assert(captured_names(t).drop_last() =~= captured_names(m.take(i as int)));
            assert(captured_names(t).last() == name@);
            assert(all_captured(t)) by {
                assert forall|k: int| 0 <= k < t.len() implies #[trigger] t[k] is Some by {
                    if k < i {
                        assert(m.take(i as int)[k] is Some);
                    }
                }
            }
        }
        i = i + 1;
    }
    assert(m.take(captures@.len() as int) =~= m);
    let mut out: Vec<char> = str_to_chars("\n            #[cfg(feature = \"");
    let prefix: &str = if is_appcore {
        "appcore_"
    } else {
        ""
    };
    append_chars(&mut out, &str_to_chars(prefix));
    append_chars(
        &mut out,
        &str_to_chars("linked\")]\n            #[cfg_attr(docsrs, doc(cfg(feature = \""),
    );
    append_chars(&mut out, &str_to_chars(prefix));
    append_chars(
        &mut out,
        &str_to_chars(
            "linked\")))]\n            pub const fn linked() -> Self {\n                Self {\n                    #[cfg(feature = \"loaded\")]\n                    __library: None,\n                    ",
        ),
    );
    append_chars(&mut out, &fields);
    append_chars(&mut out, &str_to_chars("\n                }\n            }\n        "));
    Ok(chars_to_string(&out))
}

/// Puts the `linked()` constructor on a new line right after the first match
/// of the `impl` pattern, given how the text splits at that match; leaves the
/// text unchanged when nothing matched.
pub fn splice_linked_function(
    content: &str,
    first: &Option<(String, String, String)>,
    linked: &str,
) -> (r: String)
    ensures
        r@ == spliced(
            content@,
            match first {
                Some((a, b, c)) => Some((a@, b@, c@)),
                None => None,
            },
            linked@,
        ),
{
    match first {
        Some((before, matched, after)) => {
            let mut out = str_to_chars(before.as_str());
            append_chars(&mut out, &str_to_chars(matched.as_str()));
            append_chars(&mut out, &str_to_chars("\n"));
            append_chars(&mut out, &str_to_chars(linked));
            append_chars(&mut out, &str_to_chars(after.as_str()));
            chars_to_string(&out)
        },
        None => chars_to_string(&str_to_chars(content)),
    }
}

/// Applies the replacements of post-processing, in order.
pub fn loaded_replacements(bindings: &str) -> (r: String)
    ensures
        r@ == loaded_content(bindings@),
{
    proof {
        reveal_strlit("__library:");
        reveal_strlit("pub unsafe fn new");
        reveal_strlit("pub unsafe fn from_library");
        reveal_strlit("::libloading::Library,");
        reveal_strlit("__library,");
        reveal_strlit("pub struct ");
    }
    let c0 = str_to_chars(bindings);
    let c1 = replace(
        &c0,
        &str_to_chars("__library:"),
        &str_to_chars("\n        #[cfg(feature = \"loaded\")]\n        __library:"),
    );
    let c2 = replace(
        &c1,
        &str_to_chars("pub unsafe fn new"),
        &str_to_chars(
            "\n            #[cfg(feature = \"loaded\")]\n            #[cfg_attr(docsrs, doc(cfg(feature = \"loaded\")))]\n            pub unsafe fn load_from",
        ),
    );
    let c3 = replace(
        &c2,
        &str_to_chars("pub unsafe fn from_library"),
        &str_to_chars(
            "\n            #[cfg(feature = \"loaded\")]\n            #[cfg_attr(docsrs, doc(cfg(feature = \"loaded\")))]\n            unsafe fn from_library",
        ),
    );
    let c4 = replace(
        &c3,
        &str_to_chars("::libloading::Library,"),
        &str_to_chars("Option<::std::sync::Arc<::libloading::Library>>,"),
    );
    let c5 = replace(
        &c4,
        &str_to_chars("__library,"),
        &str_to_chars("__library: Some(::std::sync::Arc::new(__library)),"),
    );
    let c6 = replace(
        &c5,
        &str_to_chars("pub struct "),
        &str_to_chars("#[derive(Clone)]\npub struct "),
    );
    chars_to_string(&c6)
}

/// Post-processes the generated bindings of a dynamically loaded library
/// (`AppCore` when `is_appcore`, `Ultralight` otherwise): applies the
/// replacements, collects the names of the function fields, and puts the
/// `linked()` constructor at the top of the first `impl` block.
pub fn post_process_loaded(bindings: &str, is_appcore: bool) -> (r: Result<String, GenerateError>)
    ensures
        ({
            let content = loaded_content(bindings@);
            let caps = regex_group_1_matches(field_pattern(), content);
            match r {
                Ok(s) => regex_compiles(field_pattern()) && regex_compiles(impl_pattern())
                    && all_captured(caps) && s@ == spliced(
                    content,
                    regex_first_match(impl_pattern(), content),
                    linked_function(is_appcore, linked_fields(captured_names(caps))),
                ),
                Err(GenerateError::InvalidPattern) => !regex_compiles(field_pattern())
                    || (all_captured(caps) && !regex_compiles(impl_pattern())),
                Err(GenerateError::MissingCapture) => regex_compiles(field_pattern())
                    && !all_captured(caps),
            }
        }),
{
    let content = loaded_replacements(bindings);
    let field_re = match regex_compile("pub (\\w+):") {
        Ok(p) => p,
        Err(_) => {
            return Err(GenerateError::InvalidPattern);
        },
    };
    assert(field_pattern() == "pub (\\w+):"@);
    let captures = regex_captures_group_1(&field_re, content.as_str());
    let linked = linked_function_for(is_appcore, &captures)?;
    let impl_re = match regex_compile("impl.*\\{") {
        Ok(p) => p,
        Err(_) => {
            return Err(GenerateError::InvalidPattern);
        },
    };
    assert(impl_pattern() == "impl.*\\{"@);
    let first = regex_split_first(&impl_re, content.as_str());
    Ok(splice_linked_function(content.as_str(), &first, linked.as_str()))
}

} // verus!
