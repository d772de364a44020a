//! Where the settings are written, and which file `load` reads.
use vstd::prelude::*;

use crate::error::SettingsError;

verus! {

/// The settings file in the current working directory: where the settings
/// are saved, and the first place searched when loading.
pub open spec fn settings_file_name() -> Seq<char> {
    "settings.json"@
}

/// The per-user settings file, relative to the home directory.
pub open spec fn user_config_subpath() -> Seq<char> {
    ".config/downonspot.json"@
}

/// `rel` appended to `base` as a path: an absolute `rel` replaces `base`;
/// otherwise one separator goes between them, unless `base` is empty or
/// already ends in one.
pub open spec fn joined(base: Seq<char>, rel: Seq<char>) -> Seq<char> {
    if rel.len() > 0 && rel[0] == '/' {
        rel
    } else if base.len() == 0 || base.last() == '/' {
        base + rel
    } else {
        base + seq!['/'] + rel
    }
}

/// The default locations, in the order in which they are searched.
pub open spec fn default_locations(home: Seq<char>) -> Seq<Seq<char>> {
    seq![settings_file_name(), joined(home, user_config_subpath())]
}

/// The paths among which `load` chooses: the given path alone when there is
/// one, else the default locations, which need a home directory.
pub open spec fn candidates_for(raw_path: Seq<char>, home: Option<Seq<char>>) -> Option<
    Seq<Seq<char>>,
> {
    if raw_path.len() > 0 {
        Some(seq![raw_path])
    } else {
        match home {
            Some(h) => Some(default_locations(h)),
            None => None,
        }
    }
}

/// The home directory as a path, if one is known.
pub open spec fn home_of(home: Option<&str>) -> Option<Seq<char>> {
    match home {
        Some(h) => Some(h@),
        None => None,
    }
}

/// The paths held by a list of strings.
pub open spec fn paths_of(v: Seq<String>) -> Seq<Seq<char>> {
    v.map_values(|s: String| s@)
}

/// Whether the candidate at `i` was found on disk; a candidate with no entry
/// counts as absent.
pub open spec fn present(exists: Seq<bool>, i: int) -> bool {
    0 <= i < exists.len() && exists[i]
}

/// From position `i` on, the first candidate that is present, or the last
/// candidate when none is.
pub open spec fn chosen_from(candidates: Seq<Seq<char>>, exists: Seq<bool>, i: int) -> Seq<char>
    decreases candidates.len() - i,
{
    if i + 1 >= candidates.len() || present(exists, i) {
        candidates[i]
    } else {
        chosen_from(candidates, exists, i + 1)
    }
}

/// The path that `load` reads, given the path it was handed, the home
/// directory and which of the candidates exist; `None` when the default
/// locations are needed and no home directory is known.
pub open spec fn load_target(raw_path: Seq<char>, home: Option<Seq<char>>, exists: Seq<bool>) -> Option<
    Seq<char>,
> {
    match candidates_for(raw_path, home) {
        Some(c) => Some(chosen_from(c, exists, 0)),
        None => None,
    }
}

/// The path that settings are saved to.
pub fn save_path() -> (r: String)
    ensures
        r@ == settings_file_name(),
{
    String::from_str("settings.json")
}

/// Joins `rel` onto `base` as `Path::join` does on Unix.
pub fn join_path(base: &str, rel: &str) -> (r: String)
    ensures
        r@ == joined(base@, rel@),
{
    let rel_len = rel.unicode_len();
    if rel_len > 0 && rel.get_char(0) == '/' {
        return String::from_str(rel);
    }
    let base_len = base.unicode_len();
    let mut r = String::from_str(base);
    if base_len > 0 && base.get_char(base_len - 1) != '/' {
        r.append("/");
        proof {
            reveal_strlit("/");
        }
    }
    r.append(rel);
    proof {
        if base@.len() > 0 && base@.last() != '/' {
            assert(r@ =~= base@ + seq!['/'] + rel@);
        }
    }
    r
}

/// The candidate paths for `load`: `raw_path` alone when it is not empty,
/// otherwise the working-directory file and then the per-user file under
/// `home`.
pub fn load_candidates(raw_path: &str, home: Option<&str>) -> (r: Result<
    Vec<String>,
    SettingsError,
>)
    ensures
        match r {
            Ok(v) => candidates_for(raw_path@, home_of(home)) == Some(paths_of(v@)),
            Err(e) => candidates_for(raw_path@, home_of(home)) is None && e
                == SettingsError::HomeDirUnavailable,
        },
{
    if !raw_path.is_empty() {
        let mut v: Vec<String> = Vec::new();
        v.push(String::from_str(raw_path));
        assert(paths_of(v@) =~= seq![raw_path@]);
        return Ok(v);
    }
    match home {
        Some(h) => {
            let mut v: Vec<String> = Vec::new();
            v.push(save_path());
            v.push(join_path(h, ".config/downonspot.json"));
            assert(paths_of(v@) =~= default_locations(h@));
            Ok(v)
        },
        None => Err(SettingsError::HomeDirUnavailable),
    }
}

/// The candidate that `load` reads: the first one found on disk
/// (`exists[i]` tells whether `candidates[i]` was), or the last one when
/// none was. `None` only when there are no candidates.
pub fn select_location(candidates: &Vec<String>, exists: &Vec<bool>) -> (r: Option<String>)
    ensures
        match r {
            Some(p) => candidates@.len() > 0 && p@ == chosen_from(
                paths_of(candidates@),
                exists@,
                0,
            ) && exists|i: int|
                0 <= i < candidates@.len() && p@ == candidates@[i]@ && (present(exists@, i) || i
                    == candidates@.len() - 1) && forall|j: int| 0 <= j < i ==> !present(exists@, j),
            None => candidates@.len() == 0,
        },
{
    let n = candidates.len();
    if n == 0 {
        return None;
    }
    let mut i: usize = 0;
    while i + 1 < n && !(i < exists.len() && exists[i])
        invariant
            n == candidates@.len(),
            0 <= i < n,
            forall|j: int| 0 <= j < i ==> !present(exists@, j),
            chosen_from(paths_of(candidates@), exists@, 0) == chosen_from(
                paths_of(candidates@),
                exists@,
                i as int,
            ),
        decreases n - i,
    {
        i = i + 1;
    }
    let r = candidates[i].clone();
    assert(present(exists@, i as int) || i == n - 1);
    assert(exists|k: int|
        0 <= k < candidates@.len() && r@ == candidates@[k]@ && (present(exists@, k) || k
            == candidates@.len() - 1) && forall|j: int| 0 <= j < k ==> !present(exists@, j)) by {
        assert(r@ == candidates@[i as int]@);
    }
    Some(r)
}

/// A path handed to `load` is the file read, whatever the home directory and
/// whichever default locations exist: no search takes place.
pub proof fn lemma_explicit_path_wins(
    raw_path: Seq<char>,
    home: Option<Seq<char>>,
    exists: Seq<bool>,
)
    requires
        raw_path.len() > 0,
    ensures
        load_target(raw_path, home, exists) == Some(raw_path),
{
}

/// With no path given and both default locations on disk, `load` reads the
/// file in the working directory, never the per-user one.
pub proof fn lemma_working_directory_first(home: Seq<char>, exists: Seq<bool>)
    requires
        exists.len() == 2,
        exists[0],
        exists[1],
    ensures
        load_target(Seq::empty(), Some(home), exists) == Some(settings_file_name()),
{
}

/// With no path given and neither default location on disk, `load` still
/// picks a file: the last default location, the per-user one.
pub proof fn lemma_fallback_to_last(home: Seq<char>, exists: Seq<bool>)
    requires
        exists.len() == 2,
        !exists[0],
        !exists[1],
    ensures
        load_target(Seq::empty(), Some(home), exists) == Some(
            joined(home, user_config_subpath()),
        ),
{
    assert(chosen_from(default_locations(home), exists, 1) == joined(home, user_config_subpath()));
}

/// The file that `save` writes is the one that `load` reads when handed its
/// path, and also when handed no path once that file exists.
pub proof fn lemma_saved_file_is_read(home: Option<Seq<char>>, exists: Seq<bool>)
    ensures
        load_target(settings_file_name(), home, exists) == Some(settings_file_name()),
        home is Some && present(exists, 0) ==> load_target(Seq::empty(), home, exists) == Some(
            settings_file_name(),
        ),
{
    reveal_strlit("settings.json");
}

} // verus!
