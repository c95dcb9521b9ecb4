use vstd::prelude::*;
use vstd::string::*;
use crate::keymap::texts;
use crate::text::{ends_with, same_text, text_ends_with};

verus! {

/// Suffix of the font files bundled with the application that are loaded.
pub const FONT_SUFFIX: &'static str = ".ttf";

/// Extension of the query files that define a language's highlighting.
pub const LANGUAGE_QUERY_EXTENSION: &'static str = "scm";

/// Whether a bundled asset is a font to load.
pub open spec fn is_font_asset(path: Seq<char>) -> bool {
    ends_with(path, FONT_SUFFIX@)
}

/// The bundled font assets to load, in the order listed: those whose path
/// ends in `.ttf`.
pub fn embedded_font_paths(paths: &Vec<String>) -> (r: Vec<String>)
    ensures
        texts(r@) == texts(paths@).filter(|p: Seq<char>| is_font_asset(p)),
{
    let mut fonts: Vec<String> = Vec::new();
    let mut i: usize = 0;
    while i < paths.len()
        invariant
            i <= paths@.len(),
            texts(fonts@) == texts(paths@.subrange(0, i as int)).filter(
                |p: Seq<char>| is_font_asset(p),
            ),
        decreases paths@.len() - i,
    {
        let path = &paths[i];
        let keep = text_ends_with(path.as_str(), FONT_SUFFIX);
        proof {
            let pred = |p: Seq<char>| is_font_asset(p);
            assert(texts(paths@.subrange(0, i + 1)) =~= texts(paths@.subrange(0, i as int)).push(
                paths@[i as int]@,
            ));
            texts(paths@.subrange(0, i as int)).lemma_filter_push(paths@[i as int]@, pred);
        }
        if keep {
            fonts.push(path.clone());
            assert(texts(fonts@) =~= texts(fonts@.drop_last()).push(path@));
        }
        i = i + 1;
    }
    assert(paths@.subrange(0, paths@.len() as int) =~= paths@);
    fonts
}

/// Whether a changed file, given by its extension, is a language query file.
pub open spec fn is_language_query(extension: Option<String>) -> bool {
    extension matches Some(e) && e@ == LANGUAGE_QUERY_EXTENSION@
}

/// Whether a batch of changed files, given by their extensions, holds a
/// language query file, after which the languages are reloaded.
pub fn has_language_file(extensions: &Vec<Option<String>>) -> (r: bool)
    ensures
        r == exists|i: int|
            0 <= i < extensions@.len() && is_language_query(#[trigger] extensions@[i]),
{
    let mut i: usize = 0;
    while i < extensions.len()
        invariant
            i <= extensions@.len(),
            forall|j: int| 0 <= j < i ==> !is_language_query(#[trigger] extensions@[j]),
        decreases extensions@.len() - i,
    {
        match &extensions[i] {
            Some(e) => {
                if same_text(e.as_str(), LANGUAGE_QUERY_EXTENSION) {
                    assert(is_language_query(extensions@[i as int]));
                    return true;
                }
            },
            None => {},
        }
        i = i + 1;
    }
    false
}

/// How the user themes directory is prepared before the themes in it load.
#[derive(Clone, Copy, Debug, PartialEq, Eq, Structural)]
pub enum ThemesDirStep {
    /// It is a directory: load the themes in it.
    Load,
    /// Nothing is there: create the directory, then load from it.
    CreateThenLoad,
    /// Something other than a directory is there: report an error.
    NotADirectory,
}

/// Decides how to prepare the themes directory from what is at its path:
/// `Some(is_dir)` when something is there, `None` when nothing is.
pub fn themes_dir_step(is_dir: Option<bool>) -> (r: ThemesDirStep)
    ensures
        r == match is_dir {
            Some(true) => ThemesDirStep::Load,
            Some(false) => ThemesDirStep::NotADirectory,
            None => ThemesDirStep::CreateThenLoad,
        },
{
    match is_dir {
        Some(true) => ThemesDirStep::Load,
        Some(false) => ThemesDirStep::NotADirectory,
        None => ThemesDirStep::CreateThenLoad,
    }
}

} // verus!
