//! The files of a model, and the names under which they are kept. Paths are texts whose parts are
//! parted by `/`; those of a platform that parts them by `\` as well go through [`portable_path`]
//! first. Drive letters and other prefixes are not told apart from names.

use vstd::prelude::*;
use crate::error::Qwen3TtsError;
#[allow(unused_imports)]
use crate::error::ErrorModel;
use crate::text::{chars_of, text_of};

verus! {

/// A path with its parts parted by `/` alone, on a platform where `\` may part them too.
pub open spec fn portable(path: Seq<char>, backslashes: bool) -> Seq<char> {
    Seq::new(
        path.len(),
        |i: int|
            if backslashes && path[i] == '\\' {
                '/'
            } else {
                path[i]
            },
    )
}

/// A path with its parts parted by `/` alone. `backslashes` tells whether `\` parts them on the
/// platform that the path comes from.
pub fn portable_path(path: &str, backslashes: bool) -> (r: String)
    ensures
        r@ == portable(path@, backslashes),
{
    let chars = chars_of(path);
    let mut r = String::new();
    let mut i: usize = 0;
    assert(portable(chars@, backslashes).take(0) == Seq::<char>::empty());
    while i < chars.len()
        invariant
            i <= chars@.len(),
            r@ == portable(chars@, backslashes).take(i as int),
        decreases chars@.len() - i,
    {
        r.push(
            if backslashes && chars[i] == '\\' {
                '/'
            } else {
                chars[i]
            },
        );
        i = i + 1;
        assert(r@ == portable(chars@, backslashes).take(i as int));
    }
    assert(portable(chars@, backslashes).take(i as int) == portable(chars@, backslashes));
    r
}

/// The path of `name` seen from `dir`: `name` itself where it is absolute.
pub open spec fn joined(dir: Seq<char>, name: Seq<char>) -> Seq<char> {
    if name.len() > 0 && name[0] == '/' {
        name
    } else if dir.len() == 0 || dir.last() == '/' {
        dir + name
    } else {
        dir.push('/') + name
    }
}

/// The path of `name` seen from `dir`.
pub fn join(dir: &str, name: &str) -> (path: String)
    ensures
        path@ == joined(dir@, name@),
{
    let dir_chars = chars_of(dir);
    let name_chars = chars_of(name);
    if name_chars.len() > 0 && name_chars[0] == '/' {
        return name.to_string();
    }
    let mut path = dir.to_string();
    if dir_chars.len() > 0 && dir_chars[dir_chars.len() - 1] != '/' {
        path.push('/');
    }
    path.append(name);
    path
}

/// Where the last part of a path begins once separators and current-directory parts at its end
/// are left out, and where it ends.
pub open spec fn last_part(path: Seq<char>, end: int) -> (int, int)
    recommends
        0 <= end <= path.len(),
    decreases end,
{
    if end <= 0 {
        (0, 0)
    } else if path[end - 1] == '/' {
        last_part(path, end - 1)
    } else {
        let from = part_start(path, end);
        // A lone dot at the start of a relative path is its first part, and no name either.
        if end - from == 1 && path[from] == '.' {
            if from == 0 {
                (0, 0)
            } else {
                last_part(path, from)
            }
        } else {
            (from, end)
        }
    }
}

/// Where the part of a path that ends at `end` begins.
pub open spec fn part_start(path: Seq<char>, end: int) -> int
    decreases end,
{
    if end <= 0 || path[end - 1] == '/' {
        end
    } else {
        part_start(path, end - 1)
    }
}

/// The file name of a path: its last part, where there is one and it is not the parent directory.
pub open spec fn file_name_of(path: Seq<char>) -> Option<Seq<char>> {
    let (from, to) = last_part(path, path.len() as int);
    if from >= to || path.subrange(from, to) == ".."@ {
        None
    } else {
        Some(path.subrange(from, to))
    }
}

proof fn lemma_part_start(path: Seq<char>, end: int)
    requires
        0 <= end <= path.len(),
    ensures
        0 <= part_start(path, end) <= end,
        forall|i: int| part_start(path, end) <= i < end ==> path[i] != '/',
        end > 0 && path[end - 1] != '/' ==> part_start(path, end) < end,
    decreases end,
{
    if end > 0 && path[end - 1] != '/' {
        lemma_part_start(path, end - 1);
    }
}

proof fn lemma_last_part(path: Seq<char>, end: int)
    requires
        0 <= end <= path.len(),
    ensures
        ({
            let (from, to) = last_part(path, end);
            &&& 0 <= from <= to <= end
            &&& forall|i: int| from <= i < to ==> path[i] != '/'
        }),
    decreases end,
{
    if end > 0 {
        if path[end - 1] == '/' {
            lemma_last_part(path, end - 1);
        } else {
            let from = part_start(path, end);
            lemma_part_start(path, end);
            if end - from == 1 && path[from] == '.' && from != 0 {
                lemma_last_part(path, from);
            }
        }
    }
}

/// A file name holds no separator and is not empty, so joining it to a directory stays directly
/// under that directory.
pub proof fn lemma_file_name_stays_below(path: Seq<char>, dir: Seq<char>)
    requires
        file_name_of(path) is Some,
    ensures
        ({
            let name = file_name_of(path)->Some_0;
            &&& name.len() > 0
            &&& name != ".."@
            &&& name != "."@
            &&& !name.contains('/')
            &&& dir.len() > 0 ==> joined(dir, name) == (if dir.last() == '/' {
                dir + name
            } else {
                dir.push('/') + name
            })
        }),
{
    let end = path.len() as int;
    let (from, to) = last_part(path, end);
    lemma_last_part(path, end);
    let name = path.subrange(from, to);
    assert(!name.contains('/')) by {
        if name.contains('/') {
            let i = choose|i: int| 0 <= i < name.len() && name[i] == '/';
            assert(path[from + i] == '/');
        }
    }
    assert(name != "."@) by {
        lemma_last_part_is_no_dot(path, end);
        reveal_strlit(".");
        if name == "."@ {
            assert(name[0] == '.');
            assert(path[from] == '.');
        }
    }
}

proof fn lemma_last_part_is_no_dot(path: Seq<char>, end: int)
    requires
        0 <= end <= path.len(),
    ensures
        ({
            let (from, to) = last_part(path, end);
            !(to - from == 1 && path[from] == '.')
        }),
    decreases end,
{
    if end > 0 {
        if path[end - 1] == '/' {
            lemma_last_part_is_no_dot(path, end - 1);
        } else {
            let from = part_start(path, end);
            lemma_part_start(path, end);
            if end - from == 1 && path[from] == '.' && from != 0 {
                lemma_last_part_is_no_dot(path, from);
            }
        }
    }
}

/// The file name of a path: its last part, where there is one and it is not the parent directory.
pub fn file_name(path: &str) -> (name: Option<String>)
    ensures
        match name {
            Some(text) => file_name_of(path@) == Some(text@),
            None => file_name_of(path@) is None,
        },
{
    let chars = chars_of(path);
    let ghost whole = last_part(chars@, chars@.len() as int);
    let mut end: usize = chars.len();
    let mut from: usize = 0;
    let mut found = false;
    while end > 0 && !found
        invariant
            chars@ == path@,
            whole == last_part(chars@, chars@.len() as int),
            0 <= from <= end <= chars@.len(),
            found ==> whole == (from as int, end as int) && from < end,
            !found ==> whole == last_part(chars@, end as int),
        decreases end, (if found {
            0int
        } else {
            1int
        }),
    {
        if chars[end - 1] == '/' {
            end = end - 1;
            from = 0;
        } else {
            from = end;
            while from > 0 && chars[from - 1] != '/'
                invariant
                    0 <= from <= end <= chars@.len(),
                    part_start(chars@, from as int) == part_start(chars@, end as int),
                decreases from,
            {
                from = from - 1;
            }
            assert(from == part_start(chars@, end as int));
            if end - from == 1 && chars[from] == '.' {
                if from == 0 {
                    return None;
                }
                end = from;
            } else {
                found = true;
            }
        }
    }
    if !found {
        return None;
    }
    assert(last_part(path@, path@.len() as int) == (from as int, end as int));
    if end - from == 2 && chars[from] == '.' && chars[from + 1] == '.' {
        proof {
            reveal_strlit("..");
            assert(chars@.subrange(from as int, end as int) =~= ".."@);
        }
        return None;
    }
    proof {
        reveal_strlit("..");
        if chars@.subrange(from as int, end as int) == ".."@ {
            let name = chars@.subrange(from as int, end as int);
            assert(name.len() == 2);
            assert(name[0] == chars@[from as int] && name[1] == chars@[from + 1]);
        }
    }
    Some(text_of(&chars, from, end))
}

/// Where a file downloaded under a repository's file name goes: directly into `dest_dir`.
pub fn download_target(filename: &str, dest_dir: &str) -> (r: Result<String, Qwen3TtsError>)
    ensures
        match r {
            Ok(path) => file_name_of(filename@) is Some && path@ == joined(
                dest_dir@,
                file_name_of(filename@)->Some_0,
            ),
            Err(e) => file_name_of(filename@) is None && e@ == ErrorModel::InvalidPath,
        },
{
    match file_name(filename) {
        Some(name) => Ok(join(dest_dir, name.as_str())),
        None => Err(Qwen3TtsError::InvalidPath),
    }
}

/// The quantisations of a model file, most precise first.
pub open spec fn quantisations() -> Seq<Seq<char>> {
    seq!["f16"@, "q8_0"@, "q6_k"@, "q5_k"@, "q4_k"@]
}

/// The names under which a model file is kept, in the order in which they are looked for.
pub open spec fn candidates(stem: Seq<char>) -> Seq<Seq<char>> {
    Seq::new(quantisations().len(), |i: int| stem + quantisations()[i] + ".gguf"@)
}

/// The stem of the main checkpoint's names.
pub open spec fn main_stem() -> Seq<char> {
    "qwen3-tts-0.6b-"@
}

/// The stem of the vocoder's names.
pub open spec fn vocoder_stem() -> Seq<char> {
    "qwen3-tts-tokenizer-"@
}

/// The first candidate that is present, or the first candidate of all where none is.
pub open spec fn first_present(present: Seq<bool>) -> int {
    first_present_from(present, 0)
}

/// The first candidate from index `i` on that is present, or the first candidate of all.
pub open spec fn first_present_from(present: Seq<bool>, i: int) -> int
    decreases present.len() - i,
{
    if i < 0 || i >= present.len() {
        0
    } else if present[i] {
        i
    } else {
        first_present_from(present, i + 1)
    }
}

/// What [`first_present`] picks: a present candidate before which none is present, or, where none
/// is present at all, the first.
pub proof fn lemma_first_present(present: Seq<bool>)
    ensures
        ({
            let k = first_present(present);
            ||| 0 <= k < present.len() && present[k] && forall|j: int|
                0 <= j < k ==> !#[trigger] present[j]
            ||| k == 0 && forall|j: int| 0 <= j < present.len() ==> !#[trigger] present[j]
        }),
{
    lemma_first_present_from(present, 0);
}

proof fn lemma_first_present_from(present: Seq<bool>, i: int)
    requires
        0 <= i <= present.len(),
    ensures
        ({
            let k = first_present_from(present, i);
            ||| i <= k < present.len() && present[k] && forall|j: int|
                i <= j < k ==> !#[trigger] present[j]
            ||| k == 0 && forall|j: int| i <= j < present.len() ==> !#[trigger] present[j]
        }),
    decreases present.len() - i,
{
    if i < present.len() && !present[i] {
        lemma_first_present_from(present, i + 1);
    }
}

/// The candidate names of a model file.
fn candidate_names(stem: &str) -> (names: Vec<String>)
    ensures
        names@.len() == 5,
        forall|i: int| 0 <= i < 5 ==> (#[trigger] names@[i])@ == candidates(stem@)[i],
{
    let mut suffixes: Vec<&str> = Vec::new();
    suffixes.push("f16");
    suffixes.push("q8_0");
    suffixes.push("q6_k");
    suffixes.push("q5_k");
    suffixes.push("q4_k");
    let mut names: Vec<String> = Vec::new();
    let mut i: usize = 0;
    while i < suffixes.len()
        invariant
            i <= suffixes@.len(),
            suffixes@.len() == 5,
            names@.len() == i,
            forall|j: int| 0 <= j < 5 ==> (#[trigger] suffixes@[j])@ == quantisations()[j],
            forall|j: int| 0 <= j < i ==> (#[trigger] names@[j])@ == candidates(stem@)[j],
        decreases suffixes@.len() - i,
    {
        let mut name = stem.to_string();
        name.append(suffixes[i]);
        name.append(".gguf");
        names.push(name);
        i = i + 1;
    }
    names
}

/// Calls [`std::path::Path::is_file`]. Nothing is claimed of the answer, which rests on what is on
/// disk at the time of the call.
#[verifier::external_body]
fn is_file(path: &str) -> (yes: bool)
{
    std::path::Path::new(path).is_file()
}

/// Whether `yes` is what was answered when it was asked whether a file is at `path`. The answer
/// itself rests on the disk, and another call may come to another one.
pub closed spec fn answered(path: Seq<char>, yes: bool) -> bool {
    exists|p: &str| p@ == path && #[trigger] call_ensures(is_file, (p,), yes)
}

/// Whether `present` is what was answered for the candidates of a model file in a directory.
pub open spec fn probed(dir: Seq<char>, stem: Seq<char>, present: Seq<bool>) -> bool {
    &&& present.len() == quantisations().len()
    &&& forall|i: int|
        0 <= i < present.len() ==> answered(
            joined(dir, candidates(stem)[i]),
            #[trigger] present[i],
        )
}

/// Asks whether a file is at a path.
fn ask(path: &str) -> (yes: bool)
    ensures
        answered(path@, yes),
{
    let yes = is_file(path);
    assert(call_ensures(is_file, (path,), yes));
    yes
}

/// Which of the candidates of a model file are in a directory.
fn probe(dir: &str, stem: &str) -> (present: Vec<bool>)
    ensures
        probed(dir@, stem@, present@),
{
    let names = candidate_names(stem);
    let mut present: Vec<bool> = Vec::new();
    let mut i: usize = 0;
    while i < names.len()
        invariant
            i <= names@.len(),
            names@.len() == 5,
            forall|k: int| 0 <= k < 5 ==> (#[trigger] names@[k])@ == candidates(stem@)[k],
            present@.len() == i,
            forall|k: int|
                0 <= k < i ==> answered(
                    joined(dir@, candidates(stem@)[k]),
                    #[trigger] present@[k],
                ),
        decreases names@.len() - i,
    {
        let path = join(dir, names[i].as_str());
        present.push(ask(path.as_str()));
        i = i + 1;
    }
    present
}

/// The path of the model file to use, told which of its candidates are in the directory.
pub fn choose_model_file(dir: &str, stem: &str, present: &Vec<bool>) -> (path: String)
    requires
        present@.len() == quantisations().len(),
    ensures
        path@ == joined(dir@, candidates(stem@)[first_present(present@)]),
{
    let names = candidate_names(stem);
    let mut i: usize = 0;
    while i < present.len()
        invariant
            i <= present@.len(),
            present@.len() == 5,
            names@.len() == 5,
            forall|j: int| 0 <= j < 5 ==> (#[trigger] names@[j])@ == candidates(stem@)[j],
            first_present(present@) == first_present_from(present@, i as int),
        decreases present@.len() - i,
    {
        if present[i] {
            return join(dir, names[i].as_str());
        }
        i = i + 1;
    }
    join(dir, names[0].as_str())
}

/// The paths of the two files of a model.
#[derive(Debug, Clone)]
pub struct ModelPaths {
    /// The main checkpoint (e.g. `qwen3-tts-0.6b-f16.gguf`).
    pub main_gguf: String,
    /// The vocoder's weights (e.g. `qwen3-tts-tokenizer-f16.gguf`).
    pub vocoder_gguf: String,
}

impl ModelPaths {
    /// The model with the given files.
    pub fn new(main_gguf: String, vocoder_gguf: String) -> (r: ModelPaths)
        ensures
            r.main_gguf == main_gguf,
            r.vocoder_gguf == vocoder_gguf,
    {
        ModelPaths { main_gguf, vocoder_gguf }
    }

    /// The model in a directory, told which of the candidates of its two files are there.
    pub fn resolve(dir: &str, main_present: &Vec<bool>, vocoder_present: &Vec<bool>) -> (r:
        ModelPaths)
        requires
            main_present@.len() == quantisations().len(),
            vocoder_present@.len() == quantisations().len(),
        ensures
            r.main_gguf@ == joined(dir@, candidates(main_stem())[first_present(main_present@)]),
            r.vocoder_gguf@ == joined(
                dir@,
                candidates(vocoder_stem())[first_present(vocoder_present@)],
            ),
    {
        ModelPaths {
            main_gguf: choose_model_file(dir, "qwen3-tts-0.6b-", main_present),
            vocoder_gguf: choose_model_file(dir, "qwen3-tts-tokenizer-", vocoder_present),
        }
    }

    /// The model in a directory, under the conventional file names. Of each file the first candidate
    /// is taken that is on disk, by what was answered for the candidates, and the first of all where
    /// none is.
    pub fn from_model_dir(dir: &str) -> (r: ModelPaths)
        ensures
            exists|main_present: Seq<bool>|
                #[trigger] probed(dir@, main_stem(), main_present) && r.main_gguf@ == joined(
                    dir@,
                    candidates(main_stem())[first_present(main_present)],
                ),
            exists|vocoder_present: Seq<bool>|
                #[trigger] probed(dir@, vocoder_stem(), vocoder_present) && r.vocoder_gguf@
                    == joined(dir@, candidates(vocoder_stem())[first_present(vocoder_present)]),
    {
        let main_present = probe(dir, "qwen3-tts-0.6b-");
        let vocoder_present = probe(dir, "qwen3-tts-tokenizer-");
        assert(probed(dir@, main_stem(), main_present@));
        assert(probed(dir@, vocoder_stem(), vocoder_present@));
        ModelPaths::resolve(dir, &main_present, &vocoder_present)
    }

    /// Whether a file is at `main_gguf`, as it was answered. The answer rests on what is on disk at
    /// the time of the call.
    pub fn main_exists(&self) -> (yes: bool)
        ensures
            answered(self.main_gguf@, yes),
    {
        ask(self.main_gguf.as_str())
    }

    /// Whether a file is at `vocoder_gguf`, as it was answered. The answer rests on what is on disk
    /// at the time of the call.
    pub fn vocoder_exists(&self) -> (yes: bool)
        ensures
            answered(self.vocoder_gguf@, yes),
    {
        ask(self.vocoder_gguf.as_str())
    }
}

/// A path keeps its length and its characters, but for the `\` that part it.
pub proof fn lemma_portable_path(path: &str, backslashes: bool, r: String)
    requires
        call_ensures(portable_path, (path, backslashes), r),
    ensures
        r@.len() == path@.len(),
        forall|i: int|
            0 <= i < path@.len() ==> if backslashes && path@[i] == '\\' {
                #[trigger] r@[i] == '/'
            } else {
                r@[i] == path@[i]
            },
{
}

/// Whether a name is one part of a path, and neither the directory that it is in nor that above.
pub open spec fn plain_name(name: Seq<char>) -> bool {
    &&& name.len() > 0
    &&& !name.contains('/')
    &&& name != "."@
    &&& name != ".."@
}

proof fn lemma_part_start_at(path: Seq<char>, from: int, end: int)
    requires
        0 <= from < end <= path.len(),
        from == 0 || path[from - 1] == '/',
        forall|i: int| from <= i < end ==> path[i] != '/',
    ensures
        part_start(path, end) == from,
    decreases end - from,
{
    if end - 1 > from {
        lemma_part_start_at(path, from, end - 1);
    } else {
        assert(part_start(path, from) == from);
    }
}

/// The file name of a path that ends in a plain name, at its start or behind a separator, is that
/// name.
pub proof fn lemma_file_name_is_last(path: &str, dir: Seq<char>, name: Seq<char>, r: Option<String>)
    requires
        call_ensures(file_name, (path,), r),
        path@ == dir + name,
        dir.len() == 0 || dir.last() == '/',
        plain_name(name),
    ensures
        r is Some && r->0@ == name,
{
    let whole = path@;
    let from = dir.len() as int;
    let end = whole.len() as int;
    assert forall|i: int| from <= i < end implies whole[i] != '/' by {
        assert(whole[i] == name[i - from]);
        if whole[i] == '/' {
            assert(name.contains('/'));
        }
    }
    if from > 0 {
        assert(whole[from - 1] == dir.last());
    }
    lemma_part_start_at(whole, from, end);
    assert(whole[end - 1] != '/');
    if end - from == 1 && whole[from] == '.' {
        reveal_strlit(".");
        assert(name =~= "."@);
    }
    assert(last_part(whole, end) == (from, end));
    assert(whole.subrange(from, end) =~= name);
}

/// What is joined to a directory is that directory's file: the path begins with the directory, the
/// name stands behind one separator, and it is the path's file name.
pub proof fn lemma_join_then_file_name(
    dir: &str,
    name: &str,
    path: String,
    text: &str,
    r: Option<String>,
)
    requires
        call_ensures(join, (dir, name), path),
        text@ == path@,
        call_ensures(file_name, (text,), r),
        plain_name(name@),
    ensures
        dir@.len() == 0 ==> path@ == name@,
        dir@.len() > 0 && dir@.last() == '/' ==> path@ == dir@ + name@,
        dir@.len() > 0 && dir@.last() != '/' ==> path@ == dir@ + seq!['/'] + name@,
        r is Some && r->0@ == name@,
{
    if name@[0] == '/' {
        assert(name@.contains('/'));
    }
    if dir@.len() == 0 || dir@.last() == '/' {
        assert(dir@.len() == 0 ==> path@ =~= name@);
        lemma_file_name_is_last(text, dir@, name@, r);
    } else {
        assert(dir@.push('/') =~= dir@ + seq!['/']);
        assert(path@ =~= dir@ + seq!['/'] + name@);
        lemma_file_name_is_last(text, dir@ + seq!['/'], name@, r);
    }
}

/// An absolute name is joined to no directory.
pub proof fn lemma_absolute_stays(dir: &str, name: &str, path: String)
    requires
        call_ensures(join, (dir, name), path),
        name@.len() > 0 && name@[0] == '/',
    ensures
        path@ == name@,
{
}

/// A download goes directly into the directory that it is meant for, under the last part of its name
/// in the repository.
pub proof fn lemma_download_goes_below(
    filename: &str,
    dest_dir: &str,
    above: Seq<char>,
    name: Seq<char>,
    r: Result<String, Qwen3TtsError>,
)
    requires
        call_ensures(download_target, (filename, dest_dir), r),
        filename@ == above + name,
        above.len() == 0 || above.last() == '/',
        plain_name(name),
        dest_dir@.len() > 0,
    ensures
        r is Ok,
        dest_dir@.last() == '/' ==> r->Ok_0@ == dest_dir@ + name,
        dest_dir@.last() != '/' ==> r->Ok_0@ == dest_dir@ + seq!['/'] + name,
{
    let whole = filename@;
    let from = above.len() as int;
    let end = whole.len() as int;
    assert forall|i: int| from <= i < end implies whole[i] != '/' by {
        assert(whole[i] == name[i - from]);
        if whole[i] == '/' {
            assert(name.contains('/'));
        }
    }
    if from > 0 {
        assert(whole[from - 1] == above.last());
    }
    lemma_part_start_at(whole, from, end);
    if end - from == 1 && whole[from] == '.' {
        reveal_strlit(".");
        assert(name =~= "."@);
    }
    assert(last_part(whole, end) == (from, end));
    assert(whole.subrange(from, end) =~= name);
    if name[0] == '/' {
        assert(name.contains('/'));
    }
    assert(dest_dir@.push('/') =~= dest_dir@ + seq!['/']);
}

/// A name that comes to no file is refused: one without parts, and one that ends in the parent
/// directory.
pub proof fn lemma_download_refused(
    filename: &str,
    dest_dir: &str,
    above: Seq<char>,
    r: Result<String, Qwen3TtsError>,
)
    requires
        call_ensures(download_target, (filename, dest_dir), r),
        filename@.len() == 0 || filename@ == above + ".."@ && (above.len() == 0 || above.last()
            == '/'),
    ensures
        r is Err && r->Err_0@ == ErrorModel::InvalidPath,
{
    reveal_strlit("..");
    let whole = filename@;
    if whole.len() > 0 {
        let from = above.len() as int;
        let end = whole.len() as int;
        assert(whole[from] == '.' && whole[from + 1] == '.');
        if from > 0 {
            assert(whole[from - 1] == above.last());
        }
        lemma_part_start_at(whole, from, end);
        assert(last_part(whole, end) == (from, end));
        assert(whole.subrange(from, end) =~= ".."@);
    }
}

/// Which of the five names of a file is taken: the first that is present, else the first of all.
pub open spec fn first_of(present: Seq<bool>, names: Seq<Seq<char>>, taken: Seq<char>) -> bool {
    &&& forall|k: int|
        0 <= k < names.len() && present[k] && (forall|j: int| 0 <= j < k ==> !#[trigger] present[j])
            ==> taken == #[trigger] names[k]
    &&& (forall|j: int| 0 <= j < names.len() ==> !#[trigger] present[j]) ==> taken == names[0]
}

/// The files of a model are the most precise ones that are in its directory, under the names that
/// they are published by.
pub proof fn lemma_model_file_names(
    dir: &str,
    main_present: Vec<bool>,
    vocoder_present: Vec<bool>,
    r: ModelPaths,
)
    requires
        call_ensures(ModelPaths::resolve, (dir, &main_present, &vocoder_present), r),
        main_present@.len() == 5,
        vocoder_present@.len() == 5,
        dir@.len() > 0,
        dir@.last() != '/',
    ensures
        first_of(
            main_present@,
            seq![
                dir@ + "/qwen3-tts-0.6b-f16.gguf"@,
                dir@ + "/qwen3-tts-0.6b-q8_0.gguf"@,
                dir@ + "/qwen3-tts-0.6b-q6_k.gguf"@,
                dir@ + "/qwen3-tts-0.6b-q5_k.gguf"@,
                dir@ + "/qwen3-tts-0.6b-q4_k.gguf"@,
            ],
            r.main_gguf@,
        ),
        first_of(
            vocoder_present@,
            seq![
                dir@ + "/qwen3-tts-tokenizer-f16.gguf"@,
                dir@ + "/qwen3-tts-tokenizer-q8_0.gguf"@,
                dir@ + "/qwen3-tts-tokenizer-q6_k.gguf"@,
                dir@ + "/qwen3-tts-tokenizer-q5_k.gguf"@,
                dir@ + "/qwen3-tts-tokenizer-q4_k.gguf"@,
            ],
            r.vocoder_gguf@,
        ),
{
    lemma_candidate_literals();
    assert forall|stem: Seq<char>, rest: Seq<char>|
        stem.len() > 0 && stem[0] != '/' implies #[trigger] joined(dir@, stem + rest) == dir@ + (
    seq!['/'] + stem + rest) by {
        assert((stem + rest)[0] == stem[0]);
        assert(dir@.push('/') + (stem + rest) =~= dir@ + (seq!['/'] + stem + rest));
    }
    let main = candidates(main_stem());
    let voc = candidates(vocoder_stem());
    assert forall|k: int| 0 <= k < 5 implies #[trigger] joined(dir@, main[k]) == dir@ + (seq!['/']
        + main[k]) by {
        reveal_strlit("qwen3-tts-0.6b-");
        assert(dir@.push('/') + main[k] =~= dir@ + (seq!['/'] + main[k]));
    }
    assert forall|k: int| 0 <= k < 5 implies #[trigger] joined(dir@, voc[k]) == dir@ + (seq!['/']
        + voc[k]) by {
        reveal_strlit("qwen3-tts-tokenizer-");
        assert(dir@.push('/') + voc[k] =~= dir@ + (seq!['/'] + voc[k]));
    }
    lemma_first_present(main_present@);
    lemma_first_present(vocoder_present@);
    lemma_first_taken(main_present@);
    lemma_first_taken(vocoder_present@);
}

proof fn lemma_first_taken(present: Seq<bool>)
    requires
        present.len() == 5,
    ensures
        forall|k: int|
            #![trigger present[k]]
            0 <= k < 5 && present[k] && (forall|j: int| 0 <= j < k ==> !#[trigger] present[j])
                ==> first_present(present) == k,
        0 <= first_present(present) < 5,
{
    lemma_first_present(present);
    let f = first_present(present);
    assert forall|k: int|
        #![trigger present[k]]
        0 <= k < 5 && present[k] && (forall|j: int|
            0 <= j < k ==> !#[trigger] present[j]) implies f == k by {
        if f < k {
            assert(!present[f]);
        }
        if k < f {
            assert(!present[k]);
        }
    }
}

proof fn lemma_candidate_literals()
    ensures
        ({
            let main = candidates(main_stem());
            let voc = candidates(vocoder_stem());
            &&& seq!['/'] + main[0] == "/qwen3-tts-0.6b-f16.gguf"@
            &&& seq!['/'] + main[1] == "/qwen3-tts-0.6b-q8_0.gguf"@
            &&& seq!['/'] + main[2] == "/qwen3-tts-0.6b-q6_k.gguf"@
            &&& seq!['/'] + main[3] == "/qwen3-tts-0.6b-q5_k.gguf"@
            &&& seq!['/'] + main[4] == "/qwen3-tts-0.6b-q4_k.gguf"@
            &&& seq!['/'] + voc[0] == "/qwen3-tts-tokenizer-f16.gguf"@
            &&& seq!['/'] + voc[1] == "/qwen3-tts-tokenizer-q8_0.gguf"@
            &&& seq!['/'] + voc[2] == "/qwen3-tts-tokenizer-q6_k.gguf"@
            &&& seq!['/'] + voc[3] == "/qwen3-tts-tokenizer-q5_k.gguf"@
            &&& seq!['/'] + voc[4] == "/qwen3-tts-tokenizer-q4_k.gguf"@
        }),
{
    reveal_strlit("qwen3-tts-0.6b-");
    reveal_strlit("qwen3-tts-tokenizer-");
    reveal_strlit("f16");
    reveal_strlit("q8_0");
    reveal_strlit("q6_k");
    reveal_strlit("q5_k");
    reveal_strlit("q4_k");
    reveal_strlit(".gguf");
    reveal_strlit("/qwen3-tts-0.6b-f16.gguf");
    reveal_strlit("/qwen3-tts-0.6b-q8_0.gguf");
    reveal_strlit("/qwen3-tts-0.6b-q6_k.gguf");
    reveal_strlit("/qwen3-tts-0.6b-q5_k.gguf");
    reveal_strlit("/qwen3-tts-0.6b-q4_k.gguf");
    reveal_strlit("/qwen3-tts-tokenizer-f16.gguf");
    reveal_strlit("/qwen3-tts-tokenizer-q8_0.gguf");
    reveal_strlit("/qwen3-tts-tokenizer-q6_k.gguf");
    reveal_strlit("/qwen3-tts-tokenizer-q5_k.gguf");
    reveal_strlit("/qwen3-tts-tokenizer-q4_k.gguf");
}

/// Whether a path is the first of some at which a file is, by what was answered for each of them.
pub open spec fn found_first(names: Seq<Seq<char>>, present: Seq<bool>, taken: Seq<char>) -> bool {
    &&& present.len() == names.len()
    &&& forall|k: int| 0 <= k < names.len() ==> answered(#[trigger] names[k], present[k])
    &&& first_of(present, names, taken)
}

/// The five names of a model file in a directory, most precise first.
pub open spec fn five_names(
    dir: Seq<char>,
    a: Seq<char>,
    b: Seq<char>,
    c: Seq<char>,
    d: Seq<char>,
    e: Seq<char>,
) -> Seq<Seq<char>> {
    seq![dir + a, dir + b, dir + c, dir + d, dir + e]
}

proof fn lemma_found_first(dir: Seq<char>, stem: Seq<char>, present: Seq<bool>, names: Seq<Seq<char>>)
    requires
        probed(dir, stem, present),
        dir.len() > 0,
        dir.last() != '/',
        stem.len() > 0,
        stem[0] != '/',
        names.len() == 5,
        forall|k: int|
            0 <= k < 5 ==> #[trigger] names[k] == dir + (seq!['/'] + candidates(stem)[k]),
    ensures
        found_first(names, present, joined(dir, candidates(stem)[first_present(present)])),
{
    let all = candidates(stem);
    assert forall|k: int| 0 <= k < 5 implies #[trigger] joined(dir, all[k]) == names[k] by {
        assert(all[k][0] == stem[0]);
        assert(dir.push('/') + all[k] =~= dir + (seq!['/'] + all[k]));
    }
    lemma_first_present(present);
    lemma_first_taken(present);
    assert forall|k: int| 0 <= k < names.len() implies answered(
        #[trigger] names[k],
        present[k],
    ) by {
        assert(answered(joined(dir, all[k]), present[k]));
    }
}

/// The files of the model in a directory are the most precise ones that are there, by what was
/// answered for the names that they are published by. A file of it is asked for at its own path.
pub proof fn lemma_model_dir_is_resolved(
    dir: &str,
    r: ModelPaths,
    main_there: bool,
    vocoder_there: bool,
)
    requires
        call_ensures(ModelPaths::from_model_dir, (dir,), r),
        call_ensures(ModelPaths::main_exists, (&r,), main_there),
        call_ensures(ModelPaths::vocoder_exists, (&r,), vocoder_there),
        dir@.len() > 0,
        dir@.last() != '/',
    ensures
        ({
            let main = five_names(
                dir@,
                "/qwen3-tts-0.6b-f16.gguf"@,
                "/qwen3-tts-0.6b-q8_0.gguf"@,
                "/qwen3-tts-0.6b-q6_k.gguf"@,
                "/qwen3-tts-0.6b-q5_k.gguf"@,
                "/qwen3-tts-0.6b-q4_k.gguf"@,
            );
            let voc = five_names(
                dir@,
                "/qwen3-tts-tokenizer-f16.gguf"@,
                "/qwen3-tts-tokenizer-q8_0.gguf"@,
                "/qwen3-tts-tokenizer-q6_k.gguf"@,
                "/qwen3-tts-tokenizer-q5_k.gguf"@,
                "/qwen3-tts-tokenizer-q4_k.gguf"@,
            );
            &&& exists|present: Seq<bool>| #[trigger] found_first(main, present, r.main_gguf@)
            &&& exists|present: Seq<bool>| #[trigger] found_first(voc, present, r.vocoder_gguf@)
        }),
        answered(r.main_gguf@, main_there),
        answered(r.vocoder_gguf@, vocoder_there),
{
    lemma_candidate_literals();
    reveal_strlit("qwen3-tts-0.6b-");
    reveal_strlit("qwen3-tts-tokenizer-");
    let main = five_names(
        dir@,
        "/qwen3-tts-0.6b-f16.gguf"@,
        "/qwen3-tts-0.6b-q8_0.gguf"@,
        "/qwen3-tts-0.6b-q6_k.gguf"@,
        "/qwen3-tts-0.6b-q5_k.gguf"@,
        "/qwen3-tts-0.6b-q4_k.gguf"@,
    );
    let voc = five_names(
        dir@,
        "/qwen3-tts-tokenizer-f16.gguf"@,
        "/qwen3-tts-tokenizer-q8_0.gguf"@,
        "/qwen3-tts-tokenizer-q6_k.gguf"@,
        "/qwen3-tts-tokenizer-q5_k.gguf"@,
        "/qwen3-tts-tokenizer-q4_k.gguf"@,
    );
    let a = choose|p: Seq<bool>|
        #[trigger] probed(dir@, main_stem(), p) && r.main_gguf@ == joined(
            dir@,
            candidates(main_stem())[first_present(p)],
        );
    let b = choose|p: Seq<bool>|
        #[trigger] probed(dir@, vocoder_stem(), p) && r.vocoder_gguf@ == joined(
            dir@,
            candidates(vocoder_stem())[first_present(p)],
        );
    lemma_found_first(dir@, main_stem(), a, main);
    lemma_found_first(dir@, vocoder_stem(), b, voc);
}

} // verus!
