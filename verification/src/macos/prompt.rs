//! What is made of the paths that a user chose in the system's panels.

use vstd::prelude::*;

use crate::macos::version::OsVersion;
use crate::text::{copy_range, same_bytes};

verus! {

/// A URL that was chosen.
#[derive(Debug)]
pub struct ChosenUrl {
    pub is_file: bool,
    /// The path it stands for, if it could be had.
    pub path: Option<String>,
}

/// The paths among chosen URLs.
pub open spec fn file_paths(urls: Seq<ChosenUrl>) -> Seq<String>
    decreases urls.len(),
{
    if urls.len() == 0 {
        seq![]
    } else {
        let before = file_paths(urls.drop_last());
        match urls.last() {
            ChosenUrl { is_file: true, path: Some(path) } => before.push(path),
            _ => before,
        }
    }
}

/// The paths that were chosen, in order, if the panel was confirmed.
pub fn prompt_for_paths(confirmed: bool, urls: &Vec<ChosenUrl>) -> (paths: Option<Vec<String>>)
    ensures
        match paths {
            Some(paths) => confirmed && paths@ == file_paths(urls@),
            None => !confirmed,
        },
{
    if !confirmed {
        return None;
    }
    let mut paths: Vec<String> = Vec::new();
    let mut i: usize = 0;
    assert(urls@.take(0) =~= Seq::<ChosenUrl>::empty());
    while i < urls.len()
        invariant
            i <= urls@.len(),
            paths@ == file_paths(urls@.take(i as int)),
        decreases urls@.len() - i,
    {
        let url: &ChosenUrl = &urls[i];
        assert(urls@.take(i + 1).drop_last() =~= urls@.take(i as int));
        assert(urls@.take(i + 1).last() == *url);
        if url.is_file {
            if let Some(path) = &url.path {
                paths.push(path.clone());
            }
        }
        i += 1;
    }
    assert(urls@.take(i as int) =~= urls@);
    Some(paths)
}

/// The index of the first dot from `from` on; `name.len()` where there is none.
pub open spec fn next_dot(name: Seq<u8>, from: int) -> int
    decreases name.len() - from,
{
    if from < 0 || from >= name.len() {
        name.len() as int
    } else if name[from] == '.' as u8 {
        from
    } else {
        next_dot(name, from + 1)
    }
}

/// Whether a name has an extension too many: it has exactly two, and the second is
/// the first or its beginning.
pub open spec fn has_extra_extension(name: Seq<u8>) -> bool {
    let first = next_dot(name, 0);
    let second = next_dot(name, first + 1);
    &&& second < name.len()
    &&& next_dot(name, second + 1) == name.len()
    &&& name.skip(second + 1).len() <= second - first - 1
    &&& name.subrange(first + 1, first + 1 + name.skip(second + 1).len()) == name.skip(second + 1)
}

/// A file name as the user meant it. From version 15 on the system sometimes adds a
/// second extension that repeats the first or its beginning; it is dropped.
pub open spec fn corrected_name(name: Seq<u8>, os: OsVersion) -> Seq<u8> {
    if has_extra_extension(name) && os.reaches(OsVersion { major: 15, minor: 0, patch: 0 }) {
        name.take(next_dot(name, next_dot(name, 0) + 1))
    } else {
        name
    }
}

fn find_dot(name: &[u8], from: usize) -> (at: usize)
    ensures
        at == next_dot(name@, from as int),
{
    let mut at: usize = from;
    while at < name.len()
        invariant
            from <= at,
            at <= name@.len() || at == from,
            next_dot(name@, from as int) == next_dot(name@, at as int),
        decreases name@.len() - at,
    {
        if name[at] == '.' as u8 {
            return at;
        }
        at += 1;
    }
    name.len()
}

proof fn dot_bounds(name: Seq<u8>, from: int)
    requires
        0 <= from <= name.len(),
    ensures
        from <= next_dot(name, from) <= name.len(),
    decreases name.len() - from,
{
    if from < name.len() {
        if name[from] != '.' as u8 {
            dot_bounds(name, from + 1);
        }
    }
}

/// A file name as the user meant it.
pub fn correct_name(name: &[u8], os: OsVersion) -> (corrected: Vec<u8>)
    ensures
        corrected@ == corrected_name(name@, os),
{
    let len: usize = name.len();
    let first: usize = find_dot(name, 0);
    proof {
        dot_bounds(name@, 0);
    }
    if first < len {
        proof {
            dot_bounds(name@, first + 1);
        }
        let second: usize = find_dot(name, first + 1);
        if second < len {
            let third: usize = find_dot(name, second + 1);
            let extra: usize = len - second - 1;
            if third == len && extra <= second - first - 1 {
                let repeated: bool = same_bytes(
                    vstd::slice::slice_subrange(name, first + 1, first + 1 + extra),
                    vstd::slice::slice_subrange(name, second + 1, len),
                );
                assert(name@.skip(second + 1) =~= name@.subrange(second + 1, len as int));
                if repeated && os.at_least(15, 0, 0) {
                    let kept = copy_range(name, 0, second);
                    assert(kept@ =~= name@.take(second as int));
                    return kept;
                }
            }
        }
    }
    let kept = copy_range(name, 0, len);
    assert(kept@ =~= name@);
    kept
}

/// A path that was chosen for a new file.
#[derive(Debug)]
pub struct ChosenPath {
    /// The directory it is in.
    pub parent: Vec<u8>,
    /// What it ends in, unless that is no name.
    pub name: Option<Vec<u8>>,
}

/// Whether a path is another one with its name corrected.
pub open spec fn corrects(chosen: ChosenPath, path: ChosenPath, os: OsVersion) -> bool {
    &&& chosen.parent == path.parent
    &&& match (path.name, chosen.name) {
        (Some(name), Some(corrected)) => corrected@ == corrected_name(name@, os),
        (None, None) => true,
        _ => false,
    }
}

/// The path that was chosen for a new file, as the user meant it, if the panel was
/// confirmed and what it gave is a file's URL. `path` is the path that stands for, if
/// it could be had.
pub fn prompt_for_new_path(
    confirmed: bool,
    is_file: bool,
    path: Option<ChosenPath>,
    os: OsVersion,
) -> (chosen: Option<ChosenPath>)
    ensures
        match (path, chosen) {
            (Some(path), Some(chosen)) => confirmed && is_file && corrects(chosen, path, os),
            (Some(_), None) => !confirmed || !is_file,
            (None, chosen) => chosen is None,
        },
{
    if !confirmed || !is_file {
        return None;
    }
    match path {
        Some(path) => {
            let name: Option<Vec<u8>> = match &path.name {
                Some(name) => Some(correct_name(name.as_slice(), os)),
                None => None,
            };
            Some(ChosenPath { parent: path.parent, name })
        },
        None => None,
    }
}

/// Correcting only ever cuts off: what is left is how the name began.
pub proof fn correcting_only_cuts_off(name: Seq<u8>, os: OsVersion)
    ensures
        corrected_name(name, os).is_prefix_of(name),
{
    if has_extra_extension(name) {
        dot_bounds(name, 0);
        let first = next_dot(name, 0);
        if first < name.len() {
            dot_bounds(name, first + 1);
        }
        let second = next_dot(name, first + 1);
        assert(name.take(second) =~= name.subrange(0, second));
    }
}

/// Of the URLs that were chosen the paths come in their order: each file whose path could be
/// had gives it, and nothing else gives any.
pub proof fn chosen_files_come_in_order(before: Seq<ChosenUrl>, url: ChosenUrl)
    ensures
        file_paths(Seq::empty()) == Seq::<String>::empty(),
        url.is_file ==> (url.path matches Some(path) ==> file_paths(before.push(url)) == file_paths(
            before,
        ).push(path)),
        !url.is_file || url.path is None ==> file_paths(before.push(url)) == file_paths(before),
{
    assert(before.push(url).drop_last() =~= before);
}

/// Whether no dot is among bytes.
pub open spec fn has_no_dot(part: Seq<u8>) -> bool {
    forall|i: int| 0 <= i < part.len() ==> part[i] != 0x2E
}

proof fn dot_is_found(name: Seq<u8>, from: int, at: int)
    requires
        0 <= from <= at <= name.len(),
        forall|i: int| from <= i < at ==> name[i] != 0x2E,
        at < name.len() ==> name[at] == 0x2E,
    ensures
        next_dot(name, from) == at,
    decreases at - from,
{
    if from < at {
        dot_is_found(name, from + 1, at);
    }
}

/// Three parts with a dot between each two.
pub open spec fn joined(stem: Seq<u8>, extension: Seq<u8>, extra: Seq<u8>) -> Seq<u8> {
    stem + seq![0x2Eu8] + extension + seq![0x2Eu8] + extra
}

/// A name that ends in a second extension which is how the first begins loses it, from
/// version 15 on and on no earlier system. A second extension that is something else stays.
#[verifier::rlimit(50)]
pub proof fn a_repeated_extension_is_dropped(
    stem: Seq<u8>,
    extension: Seq<u8>,
    extra: Seq<u8>,
    os: OsVersion,
)
    requires
        has_no_dot(stem),
        has_no_dot(extension),
        has_no_dot(extra),
    ensures
        corrected_name(joined(stem, extension, extra), os) == if os.major >= 15
            && extra.is_prefix_of(extension) {
            stem + seq![0x2Eu8] + extension
        } else {
            joined(stem, extension, extra)
        },
{
    let name = joined(stem, extension, extra);
    let first = stem.len() as int;
    let second = first + 1 + extension.len();
    assert(name[first] == 0x2E && name[second] == 0x2E);
    assert forall|i: int| 0 <= i < first implies name[i] != 0x2E by {
        assert(name[i] == stem[i]);
    }
    assert forall|i: int| first < i < second implies name[i] != 0x2E by {
        assert(name[i] == extension[i - first - 1]);
    }
    assert forall|i: int| second < i < name.len() implies name[i] != 0x2E by {
        assert(name[i] == extra[i - second - 1]);
    }
    dot_is_found(name, 0, first);
    dot_is_found(name, first + 1, second);
    dot_is_found(name, second + 1, name.len() as int);
    assert(name.skip(second + 1) =~= extra);
    assert(name.take(second) =~= stem + seq![0x2Eu8] + extension);
    if extra.len() <= extension.len() {
        let beginning = name.subrange(first + 1, first + 1 + extra.len());
        assert(beginning =~= extension.subrange(0, extra.len() as int));
        assert(extra.is_prefix_of(extension) <==> extra == extension.subrange(
            0,
            extra.len() as int,
        ));
    }
}

/// A name without a dot, with one, or with more than two is what the user meant.
#[verifier::rlimit(50)]
pub proof fn other_names_are_kept(
    stem: Seq<u8>,
    extension: Seq<u8>,
    extra: Seq<u8>,
    more: Seq<u8>,
    os: OsVersion,
)
    requires
        has_no_dot(stem),
        has_no_dot(extension),
        has_no_dot(extra),
    ensures
        corrected_name(stem, os) == stem,
        corrected_name(stem + seq![0x2Eu8] + extension, os) == stem + seq![0x2Eu8] + extension,
        corrected_name(joined(stem, extension, extra) + seq![0x2Eu8] + more, os) == joined(
            stem,
            extension,
            extra,
        ) + seq![0x2Eu8] + more,
{
    dot_is_found(stem, 0, stem.len() as int);
    let one = stem + seq![0x2Eu8] + extension;
    let first = stem.len() as int;
    assert forall|i: int| 0 <= i < first implies one[i] != 0x2E by {
        assert(one[i] == stem[i]);
    }
    assert forall|i: int| first < i < one.len() implies one[i] != 0x2E by {
        assert(one[i] == extension[i - first - 1]);
    }
    dot_is_found(one, 0, first);
    dot_is_found(one, first + 1, one.len() as int);
    let many = joined(stem, extension, extra) + seq![0x2Eu8] + more;
    let second = first + 1 + extension.len();
    let third = second + 1 + extra.len();
    assert(many[first] == 0x2E && many[second] == 0x2E && many[third] == 0x2E);
    assert forall|i: int| 0 <= i < first implies many[i] != 0x2E by {
        assert(many[i] == stem[i]);
    }
    assert forall|i: int| first < i < second implies many[i] != 0x2E by {
        assert(many[i] == extension[i - first - 1]);
    }
    assert forall|i: int| second < i < third implies many[i] != 0x2E by {
        assert(many[i] == extra[i - second - 1]);
    }
    dot_is_found(many, 0, first);
    dot_is_found(many, first + 1, second);
    dot_is_found(many, second + 1, third);
}

/// Correcting a path leaves the directory that it is in, and a path without a name has none
/// afterwards.
pub proof fn correcting_stays_in_the_directory(
    chosen: ChosenPath,
    path: ChosenPath,
    os: OsVersion,
)
    requires
        corrects(chosen, path, os),
    ensures
        chosen.parent@ == path.parent@,
        chosen.name is Some <==> path.name is Some,
        os.major < 15 ==> (path.name matches Some(name) ==> (chosen.name matches Some(same)
            && same@ == name@)),
{
}

} // verus!
