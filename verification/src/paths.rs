//! The directories in which tools are looked for: the usual places of the
//! platform are put before what the search path already holds, without
//! listing any directory twice.

use vstd::prelude::*;
use vstd::string::StringExecFns;
use crate::command::Platform;
use crate::text::{option_text, texts};

verus! {

/// A directory given as a base path and the names to descend by.
#[derive(Clone, Debug, PartialEq, Eq)]
pub struct SearchDir {
    pub base: String,
    pub segments: Vec<String>,
}

pub struct SearchDirView {
    pub base: Seq<char>,
    pub segments: Seq<Seq<char>>,
}

impl View for SearchDir {
    type V = SearchDirView;

    open spec fn view(&self) -> SearchDirView {
        SearchDirView { base: self.base@, segments: texts(self.segments@) }
    }
}

pub open spec fn dir_views(dirs: Seq<SearchDir>) -> Seq<SearchDirView> {
    dirs.map_values(|dir: SearchDir| dir@)
}

/// What the environment says that matters for the search path.
#[derive(Clone, Debug, PartialEq, Eq)]
pub struct PathEnvironment {
    /// The directories that the operator added, in order.
    pub additional: Vec<String>,
    pub program_files: Option<String>,
    pub program_files_x86: Option<String>,
    pub system_root: Option<String>,
    pub home: Option<String>,
    pub user_profile: Option<String>,
}

pub struct PathEnvironmentView {
    pub additional: Seq<Seq<char>>,
    pub program_files: Option<Seq<char>>,
    pub program_files_x86: Option<Seq<char>>,
    pub system_root: Option<Seq<char>>,
    pub home: Option<Seq<char>>,
    pub user_profile: Option<Seq<char>>,
}

impl View for PathEnvironment {
    type V = PathEnvironmentView;

    open spec fn view(&self) -> PathEnvironmentView {
        PathEnvironmentView {
            additional: texts(self.additional@),
            program_files: option_text(self.program_files),
            program_files_x86: option_text(self.program_files_x86),
            system_root: option_text(self.system_root),
            home: option_text(self.home),
            user_profile: option_text(self.user_profile),
        }
    }
}

/// The directory `base` itself.
pub open spec fn plain(base: Seq<char>) -> SearchDirView {
    SearchDirView { base, segments: Seq::empty() }
}

/// The directories given by their paths.
pub open spec fn plain_dirs(bases: Seq<Seq<char>>) -> Seq<SearchDirView> {
    bases.map_values(|base: Seq<char>| plain(base))
}

/// The usual places on macOS.
pub open spec fn mac_places() -> Seq<SearchDirView> {
    seq![
        plain("/opt/homebrew/bin"@),
        plain("/opt/homebrew/sbin"@),
        plain("/usr/local/bin"@),
        plain("/usr/local/sbin"@),
        plain("/usr/bin"@),
        plain("/bin"@),
        plain("/usr/sbin"@),
        plain("/sbin"@),
    ]
}

/// The usual places on Linux.
pub open spec fn linux_places() -> Seq<SearchDirView> {
    seq![
        plain("/usr/local/bin"@),
        plain("/usr/local/sbin"@),
        plain("/usr/bin"@),
        plain("/bin"@),
        plain("/usr/sbin"@),
        plain("/sbin"@),
    ]
}

/// Where the version control is installed below a program directory.
pub open spec fn git_places(program_files: Option<Seq<char>>) -> Seq<SearchDirView> {
    match program_files {
        Some(base) => seq![
            SearchDirView { base, segments: seq!["Git"@, "cmd"@] },
            SearchDirView { base, segments: seq!["Git"@, "bin"@] },
            SearchDirView { base, segments: seq!["Git LFS"@] },
        ],
        None => Seq::empty(),
    }
}

/// The usual places on Windows.
pub open spec fn windows_places(env: PathEnvironmentView) -> Seq<SearchDirView> {
    git_places(env.program_files) + git_places(env.program_files_x86) + (match env.system_root {
        Some(base) => seq![SearchDirView { base, segments: seq!["System32"@] }],
        None => Seq::empty(),
    })
}

/// The places below the home directory, which is taken from `HOME` and,
/// where that is not set, from the user profile.
pub open spec fn home_places(platform: Platform, env: PathEnvironmentView) -> Seq<SearchDirView> {
    let home = match env.home {
        Some(home) => Some(home),
        None => env.user_profile,
    };
    match home {
        Some(base) => if platform == Platform::Windows {
            seq![SearchDirView { base, segments: seq!["AppData"@, "Local"@, "Programs"@] }]
        } else {
            seq![
                SearchDirView { base, segments: seq![".local"@, "bin"@] },
                SearchDirView { base, segments: seq!["bin"@] },
            ]
        },
        None => Seq::empty(),
    }
}

/// The directories to look in besides the search path: what the operator
/// added, then the usual places of the platform, then the places below the
/// home directory.
pub open spec fn spec_fallback_path_entries(platform: Platform, env: PathEnvironmentView) -> Seq<
    SearchDirView,
> {
    plain_dirs(env.additional) + (match platform {
        Platform::MacOs => mac_places(),
        Platform::Linux => linux_places(),
        Platform::Windows => windows_places(env),
        _ => Seq::empty(),
    }) + home_places(platform, env)
}

fn push_plain(dirs: &mut Vec<SearchDir>, base: &str)
    ensures
        dir_views(final(dirs)@) == dir_views(old(dirs)@).push(plain(base@)),
{
    let dir = SearchDir { base: String::from_str(base), segments: Vec::new() };
    assert(dir@.segments =~= Seq::empty());
    let ghost before = dirs@;
    dirs.push(dir);
    assert(dir_views(dirs@) =~= dir_views(before).push(plain(base@)));
}

fn push_below(dirs: &mut Vec<SearchDir>, base: &String, first: &str, rest: Option<(&str, Option<&str>)>)
    ensures
        dir_views(final(dirs)@) == dir_views(old(dirs)@).push(
            SearchDirView {
                base: base@,
                segments: match rest {
                    None => seq![first@],
                    Some((second, None)) => seq![first@, second@],
                    Some((second, Some(third))) => seq![first@, second@, third@],
                },
            },
        ),
{
    let mut segments: Vec<String> = Vec::new();
    segments.push(String::from_str(first));
    match rest {
        None => {},
        Some((second, more)) => {
            segments.push(String::from_str(second));
            match more {
                None => {},
                Some(third) => {
                    segments.push(String::from_str(third));
                },
            }
        },
    }
    let dir = SearchDir { base: base.clone(), segments };
    assert(dir@.segments =~= (match rest {
        None => seq![first@],
        Some((second, None)) => seq![first@, second@],
        Some((second, Some(third))) => seq![first@, second@, third@],
    }));
    let ghost before = dirs@;
    dirs.push(dir);
    assert(dir_views(dirs@) =~= dir_views(before).push(dir@));
}

fn push_git_places(dirs: &mut Vec<SearchDir>, program_files: &Option<String>)
    ensures
        dir_views(final(dirs)@) == dir_views(old(dirs)@) + git_places(option_text(*program_files)),
{
    let ghost before = dir_views(dirs@);
    match program_files {
        Some(base) => {
            push_below(dirs, base, "Git", Some(("cmd", None)));
            push_below(dirs, base, "Git", Some(("bin", None)));
            push_below(dirs, base, "Git LFS", None);
            assert(dir_views(dirs@) =~= before + git_places(Some(base@)));
        },
        None => {
            assert(dir_views(dirs@) =~= before + Seq::<SearchDirView>::empty());
        },
    }
}

/// The directories to look in besides the search path.
pub fn fallback_path_entries(platform: Platform, env: &PathEnvironment) -> (dirs: Vec<SearchDir>)
    ensures
        dir_views(dirs@) == spec_fallback_path_entries(platform, env@),
{
    let mut dirs: Vec<SearchDir> = Vec::new();
    let mut i: usize = 0;
    assert(dir_views(dirs@) =~= plain_dirs(texts(env.additional@).take(0)));
    while i < env.additional.len()
        invariant
            i <= env.additional.len(),
            dir_views(dirs@) == plain_dirs(texts(env.additional@).take(i as int)),
        decreases env.additional.len() - i,
    {
        push_plain(&mut dirs, env.additional[i].as_str());
        assert(plain_dirs(texts(env.additional@).take(i + 1)) =~= plain_dirs(
            texts(env.additional@).take(i as int),
        ).push(plain(env.additional@[i as int]@)));
        i = i + 1;
    }
    assert(texts(env.additional@).take(env.additional@.len() as int) == texts(env.additional@));
    let ghost added = dir_views(dirs@);
    match platform {
        Platform::MacOs => {
            push_plain(&mut dirs, "/opt/homebrew/bin");
            push_plain(&mut dirs, "/opt/homebrew/sbin");
            push_plain(&mut dirs, "/usr/local/bin");
            push_plain(&mut dirs, "/usr/local/sbin");
            push_plain(&mut dirs, "/usr/bin");
            push_plain(&mut dirs, "/bin");
            push_plain(&mut dirs, "/usr/sbin");
            push_plain(&mut dirs, "/sbin");
            assert(dir_views(dirs@) =~= added + mac_places());
        },
        Platform::Linux => {
            push_plain(&mut dirs, "/usr/local/bin");
            push_plain(&mut dirs, "/usr/local/sbin");
            push_plain(&mut dirs, "/usr/bin");
            push_plain(&mut dirs, "/bin");
            push_plain(&mut dirs, "/usr/sbin");
            push_plain(&mut dirs, "/sbin");
            assert(dir_views(dirs@) =~= added + linux_places());
        },
        Platform::Windows => {
            push_git_places(&mut dirs, &env.program_files);
            push_git_places(&mut dirs, &env.program_files_x86);
            match &env.system_root {
                Some(base) => {
                    push_below(&mut dirs, base, "System32", None);
                },
                None => {},
            }
            assert(dir_views(dirs@) =~= added + windows_places(env@));
        },
        _ => {
            assert(dir_views(dirs@) =~= added + Seq::<SearchDirView>::empty());
        },
    }
    let ghost usual = dir_views(dirs@);
    let home = match &env.home {
        Some(home) => Some(home),
        None => match &env.user_profile {
            Some(profile) => Some(profile),
            None => None,
        },
    };
    match home {
        Some(base) => match platform {
            Platform::Windows => {
                push_below(&mut dirs, base, "AppData", Some(("Local", Some("Programs"))));
                assert(dir_views(dirs@) =~= usual + home_places(platform, env@));
            },
            _ => {
                push_below(&mut dirs, base, ".local", Some(("bin", None)));
                push_below(&mut dirs, base, "bin", None);
                assert(dir_views(dirs@) =~= usual + home_places(platform, env@));
            },
        },
        None => {
            assert(dir_views(dirs@) =~= usual + home_places(platform, env@));
        },
    }
    dirs
}

/// `items` with `item` at the end, unless it is there already.
pub open spec fn add_unique(items: Seq<Seq<char>>, item: Seq<char>) -> Seq<Seq<char>> {
    if items.contains(item) {
        items
    } else {
        items.push(item)
    }
}

/// `items` with each of `more` added in order, unless it is there already.
pub open spec fn add_all(items: Seq<Seq<char>>, more: Seq<Seq<char>>) -> Seq<Seq<char>>
    decreases more.len(),
{
    if more.len() == 0 {
        items
    } else {
        add_unique(add_all(items, more.drop_last()), more.last())
    }
}

/// Those of `candidates` whose flag in `present` is set, in order. A
/// candidate without a flag counts as absent.
pub open spec fn present_ones(candidates: Seq<Seq<char>>, present: Seq<bool>) -> Seq<Seq<char>>
    decreases candidates.len(),
{
    if candidates.len() == 0 {
        Seq::empty()
    } else {
        let before = present_ones(candidates.drop_last(), present);
        let last = candidates.len() - 1;
        if last < present.len() && present[last] {
            before.push(candidates.last())
        } else {
            before
        }
    }
}

/// The search path that results: the candidates that exist, then what the
/// search path holds, each directory once, at its first place.
pub open spec fn spec_merged_path(
    candidates: Seq<Seq<char>>,
    present: Seq<bool>,
    current: Seq<Seq<char>>,
) -> Seq<Seq<char>> {
    add_all(add_all(Seq::empty(), present_ones(candidates, present)), current)
}

/// No directory is listed twice.
pub open spec fn distinct(items: Seq<Seq<char>>) -> bool {
    forall|i: int, j: int| 0 <= i < j < items.len() ==> items[i] != items[j]
}

/// Adding keeps a list free of repetitions, keeps what it held where it
/// was, and makes it hold everything that was added and nothing else.
pub proof fn lemma_add_all(items: Seq<Seq<char>>, more: Seq<Seq<char>>)
    requires
        distinct(items),
    ensures
        distinct(add_all(items, more)),
        items.len() <= add_all(items, more).len(),
        add_all(items, more).take(items.len() as int) == items,
        forall|i: int| 0 <= i < more.len() ==> add_all(items, more).contains(#[trigger] more[i]),
        forall|item: Seq<char>| #[trigger]
            add_all(items, more).contains(item) ==> items.contains(item) || more.contains(item),
    decreases more.len(),
{
    if more.len() == 0 {
        assert(items.take(items.len() as int) == items);
    } else {
        let front = more.drop_last();
        lemma_add_all(items, front);
        let before = add_all(items, front);
        let after = add_all(items, more);
        assert(after.take(items.len() as int) =~= before.take(items.len() as int));
        assert forall|i: int| 0 <= i < more.len() implies after.contains(#[trigger] more[i]) by {
            if i < front.len() {
                assert(front[i] == more[i]);
                let at = choose|k: int| 0 <= k < before.len() && before[k] == front[i];
                assert(after[at] == more[i]);
            } else if before.contains(more.last()) {
            } else {
                assert(after[before.len() as int] == more[i]);
            }
        }
        assert forall|item: Seq<char>| #[trigger] after.contains(item) implies items.contains(item)
            || more.contains(item) by {
            let at = choose|k: int| 0 <= k < after.len() && after[k] == item;
            if at < before.len() {
                assert(before[at] == item);
                assert(before.contains(item));
                if !items.contains(item) {
                    let source = choose|k: int| 0 <= k < front.len() && front[k] == item;
                    assert(more[source] == item);
                }
            } else {
                assert(more[more.len() - 1] == item);
            }
        }
    }
}

/// The merged search path lists no directory twice, begins with the
/// candidates that exist, and holds every directory of the search path.
pub proof fn lemma_merged_path(
    candidates: Seq<Seq<char>>,
    present: Seq<bool>,
    current: Seq<Seq<char>>,
)
    ensures
        distinct(spec_merged_path(candidates, present, current)),
        forall|i: int| 0 <= i < current.len() ==> spec_merged_path(
            candidates,
            present,
            current,
        ).contains(#[trigger] current[i]),
        forall|i: int|
            0 <= i < candidates.len() && i < present.len() && present[i] ==> spec_merged_path(
                candidates,
                present,
                current,
            ).contains(#[trigger] candidates[i]),
{
    let chosen = present_ones(candidates, present);
    let first = add_all(Seq::empty(), chosen);
    lemma_add_all(Seq::empty(), chosen);
    lemma_add_all(first, current);
    let merged = spec_merged_path(candidates, present, current);
    assert forall|i: int|
        0 <= i < candidates.len() && i < present.len() && present[i] implies merged.contains(
        #[trigger] candidates[i],
    ) by {
        lemma_present_ones(candidates, present, i);
        let at = choose|k: int| 0 <= k < chosen.len() && chosen[k] == candidates[i];
        assert(first.contains(chosen[at]));
        let place = choose|k: int| 0 <= k < first.len() && first[k] == candidates[i];
        assert(merged.take(first.len() as int)[place] == merged[place]);
    }
}

proof fn lemma_present_ones(candidates: Seq<Seq<char>>, present: Seq<bool>, index: int)
    requires
        0 <= index < candidates.len(),
        index < present.len(),
        present[index],
    ensures
        present_ones(candidates, present).contains(candidates[index]),
    decreases candidates.len(),
{
    let before = present_ones(candidates.drop_last(), present);
    let all = present_ones(candidates, present);
    if index == candidates.len() - 1 {
        assert(all[before.len() as int] == candidates[index]);
    } else {
        lemma_present_ones(candidates.drop_last(), present, index);
        let at = choose|k: int| 0 <= k < before.len() && before[k] == candidates[index];
        assert(all[at] == candidates[index]);
    }
}

/// Whether `item` is one of `items`.
fn holds(items: &Vec<String>, item: &String) -> (found: bool)
    ensures
        found == texts(items@).contains(item@),
{
    let mut i: usize = 0;
    while i < items.len()
        invariant
            i <= items.len(),
            forall|k: int| 0 <= k < i ==> texts(items@)[k] != item@,
        decreases items.len() - i,
    {
        if items[i] == *item {
            assert(texts(items@)[i as int] == item@);
            return true;
        }
        i = i + 1;
    }
    false
}

/// Puts the candidates that exist before what the search path holds and
/// drops repetitions. `present` says of each candidate whether it exists.
/// The result is `None` where there is nothing to search in, in which case
/// the search path is to be left alone.
pub fn extend_system_path_with_defaults(
    candidates: &Vec<String>,
    present: &Vec<bool>,
    current: &Vec<String>,
) -> (merged: Option<Vec<String>>)
    ensures
        match merged {
            Some(dirs) => texts(dirs@) == spec_merged_path(
                texts(candidates@),
                present@,
                texts(current@),
            ) && dirs@.len() > 0,
            None => spec_merged_path(texts(candidates@), present@, texts(current@)).len() == 0,
        },
{
    let mut combined: Vec<String> = Vec::new();
    let mut i: usize = 0;
    let ghost all = texts(candidates@);
    assert(texts(combined@) =~= Seq::<Seq<char>>::empty());
    assert(all.take(0) == Seq::<Seq<char>>::empty());
    while i < candidates.len()
        invariant
            i <= candidates.len(),
            all == texts(candidates@),
            texts(combined@) == add_all(Seq::empty(), present_ones(all.take(i as int), present@)),
        decreases candidates.len() - i,
    {
        let ghost before = combined@;
        let ghost chosen = present_ones(all.take(i as int), present@);
        proof {
            assert(all.take(i + 1).drop_last() == all.take(i as int));
            assert(all.take(i + 1).last() == candidates@[i as int]@);
        }
        if i < present.len() && present[i] {
            proof {
                assert(chosen.push(all[i as int]).drop_last() == chosen);
            }
            if !holds(&combined, &candidates[i]) {
                combined.push(candidates[i].clone());
                assert(texts(combined@) =~= texts(before).push(all[i as int]));
            }
        }
        i = i + 1;
    }
    assert(all.take(candidates@.len() as int) == all);
    let ghost first = texts(combined@);
    let ghost rest = texts(current@);
    let mut k: usize = 0;
    assert(rest.take(0) == Seq::<Seq<char>>::empty());
    while k < current.len()
        invariant
            k <= current.len(),
            rest == texts(current@),
            texts(combined@) == add_all(first, rest.take(k as int)),
        decreases current.len() - k,
    {
        let ghost before = combined@;
        proof {
            assert(rest.take(k + 1).drop_last() == rest.take(k as int));
            assert(rest.take(k + 1).last() == current@[k as int]@);
        }
        if !holds(&combined, &current[k]) {
            combined.push(current[k].clone());
            assert(texts(combined@) =~= texts(before).push(rest[k as int]));
        }
        k = k + 1;
    }
    assert(rest.take(current@.len() as int) == rest);
    if combined.len() == 0 {
        None
    } else {
        Some(combined)
    }
}

} // verus!
