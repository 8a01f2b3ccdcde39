//! Where the compiled `.wasm` of a crate lies.
//!
//! Cargo puts the artifact of a crate under the target directory, in the
//! directory of the target triple, in `release` or `debug`, under the
//! crate's name with the extension `wasm`. Paths are text with `/` between
//! their segments.

use crate::profile::BuildProfile;
use vstd::prelude::*;
use vstd::string::*;

verus! {

/// The triple of the target that the crate is compiled for.
pub const WASM_TARGET: &'static str = "wasm32-unknown-unknown";

/// The extension of the artifact, with its dot.
pub const WASM_EXTENSION: &'static str = ".wasm";

/// The directory, under that of the target triple, that cargo uses for
/// `profile`: only the `dev` profile builds into `debug`.
pub open spec fn profile_dir(profile: BuildProfile) -> Seq<char> {
    match profile {
        BuildProfile::Release | BuildProfile::Profiling => "release"@,
        BuildProfile::Dev => "debug"@,
    }
}

/// `name` below the directory `base`: one `/` stands between the two,
/// unless `base` is empty or already ends in one.
pub open spec fn joined(base: Seq<char>, name: Seq<char>) -> Seq<char> {
    if base.len() == 0 || base.last() == '/' {
        base + name
    } else {
        base + seq!['/'] + name
    }
}

/// Whether the extension of `name` starts with the dot at index `i`: it is
/// the last dot of `name`, and not its first character.
pub open spec fn extension_dot(name: Seq<char>, i: int) -> bool {
    &&& 0 < i < name.len()
    &&& name[i] == '.'
    &&& forall|j: int| i < j < name.len() ==> name[j] != '.'
}

/// `name` without its extension, if it has one.
pub open spec fn file_stem(name: Seq<char>) -> Seq<char> {
    if exists|i: int| extension_dot(name, i) {
        name.subrange(0, choose|i: int| extension_dot(name, i))
    } else {
        name
    }
}

/// The file name of the artifact of the crate `crate_name`: an extension
/// that the name has is replaced.
pub open spec fn wasm_file_name(crate_name: Seq<char>) -> Seq<char> {
    file_stem(crate_name) + WASM_EXTENSION@
}

/// The path of the artifact that cargo builds for the crate `crate_name`
/// under `profile`, below `target_directory`.
pub open spec fn artifact_path(
    target_directory: Seq<char>,
    crate_name: Seq<char>,
    profile: BuildProfile,
) -> Seq<char> {
    joined(
        joined(joined(target_directory, WASM_TARGET@), profile_dir(profile)),
        wasm_file_name(crate_name),
    )
}

/// The segments of `path`, that is the pieces between its separators. A
/// path without a separator is one segment; a separator at either end has
/// an empty segment beside it.
pub open spec fn segments(path: Seq<char>) -> Seq<Seq<char>>
    decreases path.len(),
{
    if path.len() == 0 {
        seq![Seq::<char>::empty()]
    } else {
        let before = segments(path.drop_last());
        if path.last() == '/' {
            before.push(Seq::<char>::empty())
        } else {
            before.drop_last().push(before.last().push(path.last()))
        }
    }
}

/// At most one index is the extension dot of a name.
pub proof fn lemma_extension_dot_unique(name: Seq<char>, i: int, j: int)
    requires
        extension_dot(name, i),
        extension_dot(name, j),
    ensures
        i == j,
{
    if i < j {
        assert(name[j] != '.');
    }
    if j < i {
        assert(name[i] != '.');
    }
}

/// Every path has at least one segment.
pub proof fn lemma_segments_nonempty(path: Seq<char>)
    ensures
        segments(path).len() >= 1,
    decreases path.len(),
{
    if path.len() > 0 {
        lemma_segments_nonempty(path.drop_last());
    }
}

/// Text without a separator is one segment.
pub proof fn lemma_segments_of_plain(text: Seq<char>)
    requires
        !text.contains('/'),
    ensures
        segments(text) == seq![text],
    decreases text.len(),
{
    if text.len() == 0 {
        assert(text =~= Seq::<char>::empty());
    } else {
        let shorter = text.drop_last();
        assert forall|i: int| 0 <= i < shorter.len() implies shorter[i] != '/' by {
            assert(text.contains(text[i]));
        }
        assert(text.contains(text.last()));
        lemma_segments_of_plain(shorter);
        assert(shorter.push(text.last()) =~= text);
        assert(seq![shorter].drop_last().push(text) =~= seq![text]);
    }
}

/// The segments of a name below a directory are those of the directory,
/// then those of the name.
pub proof fn lemma_segments_of_child(path: Seq<char>, name: Seq<char>)
    ensures
        segments(path + seq!['/'] + name) == segments(path) + segments(name),
    decreases name.len(),
{
    let dir = path + seq!['/'];
    if name.len() == 0 {
        assert(dir + name =~= dir);
        assert(dir.drop_last() =~= path);
        assert(segments(path).push(Seq::<char>::empty()) =~= segments(path) + segments(name));
    } else {
        let shorter = name.drop_last();
        lemma_segments_of_child(path, shorter);
        lemma_segments_nonempty(shorter);
        assert((dir + name).drop_last() =~= dir + shorter);
        let before = segments(path) + segments(shorter);
        if name.last() == '/' {
            assert(before.push(Seq::<char>::empty()) =~= segments(path) + segments(name));
        } else {
            assert(before.drop_last() =~= segments(path) + segments(shorter).drop_last());
            assert(before.drop_last().push(before.last().push(name.last())) =~= segments(path)
                + segments(name));
        }
    }
}

/// The segments of an artifact's path: those of the directory of the
/// target triple, then the directory of the profile, then those of the
/// file name.
pub proof fn lemma_artifact_segments(
    target_directory: Seq<char>,
    crate_name: Seq<char>,
    profile: BuildProfile,
)
    ensures
        segments(artifact_path(target_directory, crate_name, profile)) == segments(
            joined(target_directory, WASM_TARGET@),
        ).push(profile_dir(profile)) + segments(wasm_file_name(crate_name)),
{
    reveal_strlit("wasm32-unknown-unknown");
    reveal_strlit("release");
    reveal_strlit("debug");
    let dir = profile_dir(profile);
    let file = wasm_file_name(crate_name);
    let in_target = joined(target_directory, WASM_TARGET@);
    let in_profile = joined(in_target, dir);
    assert(in_target.len() > 0 && in_target.last() == 'n');
    assert(in_profile =~= in_target + seq!['/'] + dir);
    assert(in_profile.len() > 0 && in_profile.last() != '/');
    lemma_segments_of_plain(dir);
    lemma_segments_of_child(in_target, dir);
    lemma_segments_of_child(in_profile, file);
    assert(segments(in_target) + seq![dir] =~= segments(in_target).push(dir));
}

/// The artifact lies in the directory of its profile: the segment before
/// the last of its path is `release` for the release and the profiling
/// profile and `debug` for the dev profile. This holds where the file name
/// is one segment, as it is for every crate name without a separator, and
/// where the name holds a directory that happens to be the profile's.
pub proof fn lemma_artifact_in_profile_directory(
    target_directory: Seq<char>,
    crate_name: Seq<char>,
    profile: BuildProfile,
)
    requires
        ({
            let file = segments(wasm_file_name(crate_name));
            file.len() == 1 || file[file.len() - 2] == profile_dir(profile)
        }),
    ensures
        ({
            let path = segments(artifact_path(target_directory, crate_name, profile));
            &&& path.len() >= 2
            &&& profile is Release || profile is Profiling ==> path[path.len() - 2] == "release"@
            &&& profile is Dev ==> path[path.len() - 2] == "debug"@
        }),
{
    lemma_artifact_segments(target_directory, crate_name, profile);
    lemma_segments_nonempty(joined(target_directory, WASM_TARGET@));
    lemma_segments_nonempty(wasm_file_name(crate_name));
}

/// The file name of a crate whose name holds no separator is one segment.
pub proof fn lemma_plain_name_is_one_segment(crate_name: Seq<char>)
    requires
        !crate_name.contains('/'),
    ensures
        segments(wasm_file_name(crate_name)) == seq![wasm_file_name(crate_name)],
{
    reveal_strlit(".wasm");
    let cut = file_stem(crate_name);
    let file = wasm_file_name(crate_name);
    assert forall|i: int| 0 <= i < file.len() implies file[i] != '/' by {
        if i < cut.len() {
            assert(cut[i] == crate_name[i]);
            assert(crate_name.contains(crate_name[i]));
        }
    }
    lemma_segments_of_plain(file);
}

/// The path of an artifact is never empty, and it ends as its extension
/// does.
pub proof fn lemma_artifact_path_ends_in_extension(
    target_directory: Seq<char>,
    crate_name: Seq<char>,
    profile: BuildProfile,
)
    ensures
        artifact_path(target_directory, crate_name, profile).len() >= WASM_EXTENSION@.len(),
        WASM_EXTENSION@.len() > 0,
        artifact_path(target_directory, crate_name, profile).last() == WASM_EXTENSION@.last(),
{
    reveal_strlit(".wasm");
}

/// The directory name of a profile.
pub fn profile_directory(profile: BuildProfile) -> (dir: &'static str)
    ensures
        dir@ == profile_dir(profile),
{
    match profile {
        BuildProfile::Release | BuildProfile::Profiling => "release",
        BuildProfile::Dev => "debug",
    }
}

/// Puts `name` below the directory `base`.
pub fn join(base: &str, name: &str) -> (path: String)
    ensures
        path@ == joined(base@, name@),
{
    let len = base.unicode_len();
    let mut path = String::from_str(base);
    if len > 0 && base.get_char(len - 1) != '/' {
        proof {
            reveal_strlit("/");
            assert("/"@ =~= seq!['/']);
        }
        path.append("/");
    }
    path.append(name);
    path
}

/// Cuts the extension off `name`.
pub fn stem<'a>(name: &'a str) -> (cut: &'a str)
    ensures
        cut@ == file_stem(name@),
{
    let len = name.unicode_len();
    let mut dot: usize = 0;
    let mut index: usize = 0;
    for c in it: name.chars()
        invariant
            it.seq() == name@,
            index == it.index(),
            len == name@.len(),
            dot == 0 || dot < index,
            dot > 0 ==> name@[dot as int] == '.',
            forall|j: int| dot < j < index ==> name@[j] != '.',
    {
        if c == '.' && index > 0 {
            dot = index;
        }
        index = index + 1;
    }
    if dot > 0 {
        proof {
            let chosen = choose|i: int| extension_dot(name@, i);
            assert(extension_dot(name@, dot as int));
            lemma_extension_dot_unique(name@, dot as int, chosen);
        }
        name.substring_char(0, dot)
    } else {
        assert forall|i: int| !extension_dot(name@, i) by {
            if 0 < i < len {
                assert(name@[i] != '.');
            }
        }
        name
    }
}

/// The path of the `.wasm` that cargo builds for the crate `crate_name`
/// under `profile`, below `target_directory`.
pub fn locate_artifact(target_directory: &str, crate_name: &str, profile: BuildProfile) -> (path:
    String)
    ensures
        path@ == artifact_path(target_directory@, crate_name@, profile),
{
    let mut file = String::from_str(stem(crate_name));
    file.append(WASM_EXTENSION);
    let in_target = join(target_directory, WASM_TARGET);
    let in_profile = join(in_target.as_str(), profile_directory(profile));
    join(in_profile.as_str(), file.as_str())
}

} // verus!
