//! Where the programs are that the application runs: the interpreter of the
//! workers, the worker scripts, and the tools found on the user's search
//! path.

use vstd::prelude::*;
use crate::reconciler::CommandResult;
use crate::text::{
    chars_of, is_blank, lemma_texts_push, opt_text, pieces, slice_string, split, text_of, texts,
    trim_bounds, trimmed, Delimiter,
};
use crate::versioning::{child_of, child_path};

verus! {

/// The interpreter that runs the workers, in an environment of its own below
/// the base directory of the application.
pub struct PythonExecutor {
    python_path: String,
    base_dir: String,
}

/// The base directory of the application below the home directory.
pub open spec fn base_dir_of(home: Option<Seq<char>>) -> Seq<char> {
    child_path(
        match home {
            Some(h) => h,
            None => "."@,
        },
        "Courtyard"@,
    )
}

/// The directory of the interpreter's environment below the base directory.
pub open spec fn venv_of(base_dir: Seq<char>) -> Seq<char> {
    child_path(child_path(base_dir, "python"@), ".venv"@)
}

/// The interpreter within its environment.
pub open spec fn python_of(base_dir: Seq<char>) -> Seq<char> {
    child_path(child_path(venv_of(base_dir), "bin"@), "python"@)
}

impl PythonExecutor {
    /// The path of the interpreter.
    pub closed spec fn python_path(&self) -> Seq<char> {
        self.python_path@
    }

    /// The base directory of the application.
    pub closed spec fn base_dir(&self) -> Seq<char> {
        self.base_dir@
    }

    /// The executor for the home directory given, or for the current
    /// directory where no home is known.
    pub fn new(home: Option<&str>) -> (r: PythonExecutor)
        ensures
            r.base_dir() == base_dir_of(opt_text(home)),
            r.python_path() == python_of(base_dir_of(opt_text(home))),
    {
        let base_dir = match home {
            Some(h) => child_of(h, "Courtyard"),
            None => child_of(".", "Courtyard"),
        };
        let python = child_of(base_dir.as_str(), "python");
        let venv = child_of(python.as_str(), ".venv");
        let bin = child_of(venv.as_str(), "bin");
        let python_path = child_of(bin.as_str(), "python");
        PythonExecutor { python_path, base_dir }
    }

    /// The path of the interpreter.
    pub fn python_bin(&self) -> (r: &String)
        ensures
            r@ == self.python_path(),
    {
        &self.python_path
    }

    /// The directory of the interpreter's environment.
    pub fn venv_dir(&self) -> (r: String)
        ensures
            r@ == venv_of(self.base_dir()),
    {
        let python = child_of(self.base_dir.as_str(), "python");
        child_of(python.as_str(), ".venv")
    }

    /// The places where the package manager `uv` is looked for first: the
    /// usual places of its installers.
    pub open spec fn uv_places(home: Seq<char>) -> Seq<Seq<char>> {
        seq![
            "/usr/local/bin/uv"@,
            "/opt/homebrew/bin/uv"@,
            home + "/.cargo/bin/uv"@,
            home + "/.local/bin/uv"@,
            home + "/.uv/bin/uv"@,
            "/opt/homebrew/Caskroom/miniconda/base/bin/uv"@,
            home + "/miniconda3/bin/uv"@,
            home + "/miniforge3/bin/uv"@,
            home + "/anaconda3/bin/uv"@,
            home + "/mambaforge/bin/uv"@,
        ]
    }

    /// The places where the package manager `uv` is looked for, in order:
    /// the usual places of its installers, then the directories of the
    /// search path.
    pub fn find_uv(home: &str, search_path: &str) -> (r: Vec<String>)
        ensures
            texts(r@) == Self::uv_places(home@) + on_search_path("uv"@, search_path@),
    {
        let mut first: Vec<String> = Vec::new();
        first.push("/usr/local/bin/uv".to_owned());
        first.push("/opt/homebrew/bin/uv".to_owned());
        first.push(crate::text::chain(home, "/.cargo/bin/uv"));
        first.push(crate::text::chain(home, "/.local/bin/uv"));
        first.push(crate::text::chain(home, "/.uv/bin/uv"));
        first.push("/opt/homebrew/Caskroom/miniconda/base/bin/uv".to_owned());
        first.push(crate::text::chain(home, "/miniconda3/bin/uv"));
        first.push(crate::text::chain(home, "/miniforge3/bin/uv"));
        first.push(crate::text::chain(home, "/anaconda3/bin/uv"));
        first.push(crate::text::chain(home, "/mambaforge/bin/uv"));
        assert(texts(first@) =~= Self::uv_places(home@));
        find_binary("uv", first, search_path)
    }

    /// The places where the model daemon's program is looked for first.
    pub open spec fn ollama_candidates() -> Seq<Seq<char>> {
        seq!["/usr/local/bin/ollama"@, "/opt/homebrew/bin/ollama"@]
    }

    /// The places where the model daemon's program is looked for, in order:
    /// the two usual places, then the directories of the search path.
    pub fn find_ollama(search_path: &str) -> (r: Vec<String>)
        ensures
            texts(r@) == Self::ollama_candidates() + on_search_path("ollama"@, search_path@),
    {
        let mut first: Vec<String> = Vec::new();
        first.push("/usr/local/bin/ollama".to_owned());
        first.push("/opt/homebrew/bin/ollama".to_owned());
        assert(texts(first@) =~= Self::ollama_candidates());
        find_binary("ollama", first, search_path)
    }
}

/// The candidates for the program `name` below the directories `dirs`, in
/// order; a directory without a name gives none.
pub open spec fn below_each(name: Seq<char>, dirs: Seq<Seq<char>>) -> Seq<Seq<char>>
    decreases dirs.len(),
{
    if dirs.len() == 0 {
        Seq::empty()
    } else if dirs.last().len() == 0 {
        below_each(name, dirs.drop_last())
    } else {
        below_each(name, dirs.drop_last()).push(child_path(dirs.last(), name))
    }
}

/// The candidates for the program `name` on a search path, whose directories
/// stand between colons.
pub open spec fn on_search_path(name: Seq<char>, search_path: Seq<char>) -> Seq<Seq<char>> {
    below_each(name, pieces(search_path, Delimiter::Char(':')))
}

/// The places where the program `name` is looked for, in order: the places
/// of `first`, then the directories of the search path. The program is at
/// the first of them that exists.
pub fn find_binary(name: &str, first: Vec<String>, search_path: &str) -> (r: Vec<String>)
    ensures
        texts(r@) == texts(first@) + on_search_path(name@, search_path@),
{
    let mut r = first;
    let v = chars_of(search_path);
    let dirs = split(&v, Delimiter::Char(':'));
    let mut i: usize = 0;
    assert(texts(dirs@).take(0) == Seq::<Seq<char>>::empty());
    assert(texts(first@) + Seq::<Seq<char>>::empty() == texts(first@));
    while i < dirs.len()
        invariant
            i <= dirs.len(),
            texts(r@) == texts(first@) + below_each(name@, texts(dirs@).take(i as int)),
        decreases dirs.len() - i,
    {
        proof {
            assert(texts(dirs@).take(i + 1).drop_last() == texts(dirs@).take(i as int));
            assert(texts(dirs@).take(i + 1).last() == dirs@[i as int]@);
        }
        if dirs[i].as_str().unicode_len() > 0 {
            let c = child_of(dirs[i].as_str(), name);
            proof {
                lemma_texts_push(r@, c);
                assert((texts(first@) + below_each(name@, texts(dirs@).take(i as int))).push(c@)
                    == texts(first@) + below_each(name@, texts(dirs@).take(i as int)).push(c@));
            }
            r.push(c);
        }
        i += 1;
    }
    assert(texts(dirs@).take(dirs@.len() as int) == texts(dirs@));
    r
}

/// The first of `candidates` that exists, where `exists` says of each, in
/// order, whether it does.
pub open spec fn first_found(candidates: Seq<Seq<char>>, exists: Seq<bool>) -> Option<Seq<char>>
    decreases candidates.len(),
{
    if candidates.len() == 0 || exists.len() == 0 {
        None
    } else if exists[0] {
        Some(candidates[0])
    } else {
        first_found(candidates.drop_first(), exists.drop_first())
    }
}

/// Picks the first of `candidates` that exists.
pub fn first_existing(candidates: &Vec<String>, exists: &Vec<bool>) -> (r: Option<String>)
    ensures
        text_of(r) == first_found(texts(candidates@), exists@),
{
    let mut i: usize = 0;
    assert(texts(candidates@).skip(0) == texts(candidates@));
    assert(exists@.skip(0) == exists@);
    while i < candidates.len() && i < exists.len()
        invariant
            i <= candidates.len(),
            i <= exists.len(),
            first_found(texts(candidates@), exists@) == first_found(
                texts(candidates@).skip(i as int),
                exists@.skip(i as int),
            ),
        decreases candidates.len() - i,
    {
        proof {
            assert(texts(candidates@).skip(i as int)[0] == candidates@[i as int]@);
            assert(exists@.skip(i as int)[0] == exists@[i as int]);
            assert(texts(candidates@).skip(i as int).drop_first() == texts(candidates@).skip(
                i + 1,
            ));
            assert(exists@.skip(i as int).drop_first() == exists@.skip(i + 1));
        }
        if exists[i] {
            return Some(candidates[i].clone());
        }
        i += 1;
    }
    None
}

/// The search path in force: what the user's login shell printed, trimmed;
/// and the search path of the application itself where the shell failed or
/// printed nothing.
pub open spec fn search_path_of(printed: CommandResult, own: Seq<char>) -> Seq<char> {
    match printed {
        CommandResult::Finished { success: true, stdout, .. } => if is_blank(stdout@) {
            own
        } else {
            trimmed(stdout@)
        },
        _ => own,
    }
}

/// Reads the search path in force from what the user's login shell printed.
pub fn get_shell_path(printed: &CommandResult, own: &str) -> (r: String)
    ensures
        r@ == search_path_of(*printed, own@),
{
    match printed {
        CommandResult::Finished { success, stdout, .. } => {
            if *success {
                let v = chars_of(stdout.as_str());
                let (from, to) = trim_bounds(&v);
                if from < to {
                    return slice_string(&v, from, to);
                }
            }
        },
        _ => {},
    }
    own.to_owned()
}

/// The places where the worker scripts are looked for, in order, for an
/// application whose program lies in the directory `exe_dir`.
pub open spec fn script_dirs(exe_dir: Seq<char>) -> Seq<Seq<char>> {
    seq![
        child_path(exe_dir, "../Resources/scripts"@),
        child_path(exe_dir, "scripts"@),
        child_path(exe_dir, "../scripts"@),
        child_path(exe_dir, "../../scripts"@),
    ]
}

/// Names the places where the worker scripts are looked for.
pub fn scripts_dir_candidates(exe_dir: &str) -> (r: Vec<String>)
    ensures
        texts(r@) == script_dirs(exe_dir@),
{
    let mut r: Vec<String> = Vec::new();
    r.push(child_of(exe_dir, "../Resources/scripts"));
    r.push(child_of(exe_dir, "scripts"));
    r.push(child_of(exe_dir, "../scripts"));
    r.push(child_of(exe_dir, "../../scripts"));
    assert(texts(r@) =~= script_dirs(exe_dir@));
    r
}

/// The directory of the worker scripts: the first of the places looked in
/// that exists, and the directory `fallback` where none does.
pub fn scripts_dir(exe_dir: Option<&str>, exists: &Vec<bool>, fallback: &str) -> (r: String)
    ensures
        r@ == (match exe_dir {
            Some(d) => match first_found(script_dirs(d@), exists@) {
                Some(found) => found,
                None => fallback@,
            },
            None => fallback@,
        }),
{
    match exe_dir {
        Some(d) => {
            let candidates = scripts_dir_candidates(d);
            match first_existing(&candidates, exists) {
                Some(found) => found,
                None => fallback.to_owned(),
            }
        },
        None => fallback.to_owned(),
    }
}

} // verus!
