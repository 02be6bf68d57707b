use vstd::prelude::*;
use crate::text::text_of;

verus! {

/// The final component of a path, as `std::path::Path::file_name` gives it; `None`
/// where the path has none (it is empty, a root, or ends in `..`).
pub uninterp spec fn path_file_name(path: Seq<char>) -> Option<Seq<char>>;

/// The path that `std::path::Path::with_extension` gives for a path and an extension.
pub uninterp spec fn path_with_extension(path: Seq<char>, extension: Seq<char>) -> Seq<char>;

/// The path that `std::path::Path::join` gives for a base and what is adjoined to it.
pub uninterp spec fn path_join(base: Seq<char>, component: Seq<char>) -> Seq<char>;

/// A position of `name` that holds a dot, with no dot behind it.
pub open spec fn is_final_dot(name: Seq<char>, i: int) -> bool {
    &&& 0 <= i < name.len()
    &&& name[i] == '.'
    &&& forall|j: int| i < j < name.len() ==> name[j] != '.'
}

/// The part of a file name in front of its extension: the whole name where it holds
/// no dot, or only a leading one; else what stands before the final dot.
pub open spec fn stem_of_name(name: Seq<char>) -> Seq<char> {
    if exists|i: int| 0 < i && is_final_dot(name, i) {
        let i = choose|i: int| 0 < i && is_final_dot(name, i);
        name.subrange(0, i)
    } else {
        name
    }
}

/// The stem of a path's final component, where it has one.
pub open spec fn file_stem_of(path: Seq<char>) -> Option<Seq<char>> {
    match path_file_name(path) {
        Some(name) => Some(stem_of_name(name)),
        None => None,
    }
}

/// A file name without a dot, or with a leading dot only, is its own stem.
pub proof fn lemma_stem_of_plain_name(name: Seq<char>)
    requires
        forall|i: int| 0 < i < name.len() ==> name[i] != '.',
    ensures
        stem_of_name(name) == name,
{
}

/// Where the final dot of a file name is not its first character, the stem is what
/// stands before that dot.
pub proof fn lemma_stem_before_final_dot(name: Seq<char>, i: int)
    requires
        0 < i,
        is_final_dot(name, i),
    ensures
        stem_of_name(name) == name.subrange(0, i),
{
    let j = choose|j: int| 0 < j && is_final_dot(name, j);
    assert(j == i) by {
        if j < i {
            assert(name[i] != '.');
        } else if i < j {
            assert(name[j] != '.');
        }
    }
}

/// Calls `std::path::Path::file_stem`. Trusted, as std documents it: there is a stem
/// exactly where there is a file name, and it is the name without its extension.
#[verifier::external_body]
fn file_stem(path: &str) -> (stem: Option<String>)
    ensures
        text_of(stem) == (match path_file_name(path@) {
            Some(name) => Some(stem_of_name(name)),
            None => None,
        }),
{
    match std::path::Path::new(path).file_stem() {
        Some(stem) => Some(stem.to_string_lossy().into_owned()),
        None => None,
    }
}

/// Calls `std::path::Path::with_extension`, which panics on an extension that holds
/// a path separator. Trusted: the result depends on the two texts alone.
#[verifier::external_body]
fn with_extension(path: &str, extension: &str) -> (replaced: String)
    requires
        !extension@.contains('/'),
        !extension@.contains('\\'),
    ensures
        replaced@ == path_with_extension(path@, extension@),
{
    std::path::Path::new(path).with_extension(extension).to_string_lossy().into_owned()
}

/// Calls `std::path::Path::join`. Trusted: the result depends on the two texts alone.
#[verifier::external_body]
fn join(base: &str, component: &str) -> (joined: String)
    ensures
        joined@ == path_join(base@, component@),
{
    std::path::Path::new(base).join(component).to_string_lossy().into_owned()
}

/// Calls `dirs::home_dir`. The answer depends on the environment and the user
/// database: nothing is claimed of it.
#[verifier::external_body]
fn home_dir() -> (home: Option<String>) {
    match dirs::home_dir() {
        Some(home) => Some(home.to_string_lossy().into_owned()),
        None => None,
    }
}

/// The title used where a source path has no file name.
pub const FALLBACK_TITLE: &'static str = "Document";

/// The extension of a page written beside its source.
pub const PAGE_EXTENSION: &'static str = "html";

/// The title for a stem: the stem itself, or the fallback where there is none.
pub open spec fn title_for(stem: Option<Seq<char>>) -> Seq<char> {
    match stem {
        Some(s) => s,
        None => FALLBACK_TITLE@,
    }
}

/// The title of the document at a source path.
pub open spec fn title_of_path(source_path: Seq<char>) -> Seq<char> {
    title_for(file_stem_of(source_path))
}

/// Chooses the title from the stem of the source's file name.
pub fn title_from_stem(stem: Option<String>) -> (title: String)
    ensures
        title@ == title_for(text_of(stem)),
{
    match stem {
        Some(s) => s,
        None => String::from_str(FALLBACK_TITLE),
    }
}

/// The title of the document at `source_path`: its file name without extension, or
/// the fallback where the path names no file.
pub fn document_title(source_path: &str) -> (title: String)
    ensures
        title@ == title_of_path(source_path@),
{
    title_from_stem(file_stem(source_path))
}

/// The path of the page written beside the source.
pub open spec fn local_page_path(source_path: Seq<char>) -> Seq<char> {
    path_with_extension(source_path, PAGE_EXTENSION@)
}

/// The path of the page written beside the source: the source path with its
/// extension replaced by `html`.
pub fn local_output_path(source_path: &str) -> (path: String)
    ensures
        path@ == local_page_path(source_path@),
{
    proof {
        reveal_strlit("html");
        assert(!PAGE_EXTENSION@.contains('/'));
        assert(!PAGE_EXTENSION@.contains('\\'));
    }
    with_extension(source_path, PAGE_EXTENSION)
}

/// The settings file below a home directory.
pub open spec fn default_config_under(home: Seq<char>) -> Seq<char> {
    path_join(path_join(path_join(home, ".config"@), "klistra"@), "config.toml"@)
}

/// The path of the settings file below a home directory.
pub fn default_config_path(home: &str) -> (path: String)
    ensures
        path@ == default_config_under(home@),
{
    let dir = join(home, ".config");
    let dir = join(dir.as_str(), "klistra");
    join(dir.as_str(), "config.toml")
}

/// The settings path for what the operator gave and the home directory found.
pub open spec fn selected_config_path(given: Option<Seq<char>>, home: Option<Seq<char>>) -> Option<
    Seq<char>,
> {
    match given {
        Some(p) => Some(p),
        None => match home {
            Some(h) => Some(default_config_under(h)),
            None => None,
        },
    }
}

/// Chooses the settings path: the one given wins; else the default below the home
/// directory; none where neither is known.
pub fn select_config_path(given: Option<String>, home: Option<String>) -> (path: Option<String>)
    ensures
        text_of(path) == selected_config_path(text_of(given), text_of(home)),
{
    match given {
        Some(p) => Some(p),
        None => match home {
            Some(h) => Some(default_config_path(h.as_str())),
            None => None,
        },
    }
}

/// Chooses the settings path, looking the home directory up only where no path was
/// given. A given path is always returned as it is.
pub fn get_config_path(given: Option<String>) -> (path: Option<String>)
    ensures
        given is Some ==> text_of(path) == text_of(given),
        given is None ==> exists|home: Option<Seq<char>>|
            text_of(path) == selected_config_path(None, home),
{
    match given {
        Some(p) => Some(p),
        None => {
            let home = home_dir();
            let path = select_config_path(None, home);
            assert(text_of(path) == selected_config_path(None, text_of(home)));
            path
        },
    }
}

} // verus!
