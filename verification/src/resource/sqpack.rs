//! Game files in their SqPack-compressed format: the repositories of a game directory, how its
//! platform and release are told from file names, and the repairs its version files need.
use vstd::prelude::*;
use crate::common::{platform_list, platform_shortname, Platform};
use crate::repository::{
    base_repository, category_of, expansion_repository, index_name, opt_text, string_to_category,
    Category, Repository, RepositoryType, RepositoryView,
};
use vstd::utf8::{encode_utf8, is_char_boundary};
use crate::split::{find, find_in, split, split_chars};
use crate::text::{chars_of, push_str, same_chars, string_from_chars, trim, trim_chars};

verus! {

/// Possible actions to repair game files.
#[derive(Debug, PartialEq, Eq, Structural, Clone, Copy)]
pub enum RepairAction {
    /// Indicates a version file is missing for a repository.
    VersionFileMissing,
    /// The version file is missing, but it can be restored via a backup.
    VersionFileCanRestore,
    /// Indicates a version file has extra newlines or spaces.
    VersionFileExtraSpacing,
}

/// Possible errors emitted through the repair process.
#[derive(Debug, PartialEq)]
pub enum RepairError<'a> {
    /// Failed to repair a repository.
    FailedRepair(&'a Repository),
}

/// Which release these SqPacks are from.
#[derive(Debug, Clone, Copy, PartialEq, Eq, Structural)]
pub enum SqPackRelease {
    /// SqPack files that are generally available from retail.
    Retail,
    /// SqPack files usually only available in debug builds, and are suffixed with ".d"
    Debug,
}

/// The filename suffix of a release.
pub open spec fn release_suffix(r: SqPackRelease) -> Seq<char> {
    match r {
        SqPackRelease::Retail => ""@,
        SqPackRelease::Debug => ".d"@,
    }
}

impl SqPackRelease {
    /// The filename suffix for this release.
    pub fn suffix(&self) -> (r: &'static str)
        ensures
            r@ == release_suffix(*self),
    {
        match self {
            SqPackRelease::Retail => "",
            SqPackRelease::Debug => ".d",
        }
    }
}

/// Used to read files from the retail game, in their SqPack-compressed format.
#[derive(Debug, Clone)]
pub struct SqPackResource {
    /// The game directory to operate on.
    pub game_directory: String,
    /// Repositories in the game directory.
    pub repositories: Vec<Repository>,
    /// The platform this resource was designed for.
    pub platform: Platform,
    /// How these SqPack files were released.
    pub release: SqPackRelease,
}

/// Whether `p` occurs in `s`.
pub open spec fn occurs_in(s: Seq<char>, p: Seq<char>) -> bool {
    find(s, p) is Some
}

/// The first platform, in the order of the platform list, whose short name occurs in `name`.
pub open spec fn platform_named_in(name: Seq<char>) -> Option<Platform> {
    if occurs_in(name, platform_shortname(Platform::Win32)) {
        Some(Platform::Win32)
    } else if occurs_in(name, platform_shortname(Platform::PS3)) {
        Some(Platform::PS3)
    } else if occurs_in(name, platform_shortname(Platform::PS4)) {
        Some(Platform::PS4)
    } else if occurs_in(name, platform_shortname(Platform::PS5)) {
        Some(Platform::PS5)
    } else if occurs_in(name, platform_shortname(Platform::Xbox)) {
        Some(Platform::Xbox)
    } else {
        None
    }
}

/// The platform and release that the name of an index file of a game directory tells: the
/// first platform whose short name occurs in it, and the debug release if ".d" occurs in it.
/// Without such a name, or without a platform in it, Win32 and the retail release.
pub open spec fn platform_release_of(index_file: Option<Seq<char>>) -> (Platform, SqPackRelease) {
    match index_file {
        Some(name) => match platform_named_in(name) {
            Some(p) => (p, if occurs_in(name, release_suffix(SqPackRelease::Debug)) {
                SqPackRelease::Debug
            } else {
                SqPackRelease::Retail
            }),
            None => (Platform::Win32, SqPackRelease::Retail),
        },
        None => (Platform::Win32, SqPackRelease::Retail),
    }
}

/// Whether `p` occurs in `s`.
fn occurs(s: &Vec<char>, p: &str) -> (r: bool)
    ensures
        r == occurs_in(s@, p@),
{
    let pc = chars_of(p);
    find_in(s, &pc, 0).is_some()
}

impl SqPackResource {
    /// Returns the platform associated with this resource.
    pub fn platform(&self) -> (r: Platform)
        ensures
            r == self.platform,
    {
        self.platform
    }

    /// Determines the platform and release of a game directory from the name of one of its
    /// index files, `None` where the directory has none. Since all installations are assumed
    /// valid, and it never makes sense to mix platforms or releases, one name suffices.
    pub fn determine_platform_release(index_file: Option<&str>) -> (r: (Platform, SqPackRelease))
        ensures
            index_file matches Some(name) ==> r == platform_release_of(Some(name@)),
            index_file is None ==> r == platform_release_of(None),
    {
        match index_file {
            None => (Platform::Win32, SqPackRelease::Retail),
            Some(name) => {
                let s = chars_of(name);
                let list = platform_list();
                let mut i: usize = 0;
                while i < 5
                    invariant
                        i <= 5,
                        index_file == Some(name),
                        s@ == name@,
                        list@ == seq![
                            Platform::Win32,
                            Platform::PS3,
                            Platform::PS4,
                            Platform::PS5,
                            Platform::Xbox,
                        ],
                        forall|j: int|
                            0 <= j < i ==> !occurs_in(s@, platform_shortname(#[trigger] list@[j])),
                    decreases 5 - i,
                {
                    let p = list[i];
                    if occurs(&s, p.shortname()) {
                        assert(!occurs_in(s@, platform_shortname(list@[0])) || i == 0);
                        assert(i <= 1 || !occurs_in(s@, platform_shortname(list@[1])));
                        assert(i <= 2 || !occurs_in(s@, platform_shortname(list@[2])));
                        assert(i <= 3 || !occurs_in(s@, platform_shortname(list@[3])));
                        assert(platform_named_in(s@) == Some(p));
                        if occurs(&s, SqPackRelease::Debug.suffix()) {
                            return (p, SqPackRelease::Debug);
                        } else {
                            return (p, SqPackRelease::Retail);
                        }
                    }
                    i = i + 1;
                }
                assert(!occurs_in(s@, platform_shortname(list@[0])));
                assert(!occurs_in(s@, platform_shortname(list@[1])));
                assert(!occurs_in(s@, platform_shortname(list@[2])));
                assert(!occurs_in(s@, platform_shortname(list@[3])));
                assert(!occurs_in(s@, platform_shortname(list@[4])));
                (Platform::Win32, SqPackRelease::Retail)
            },
        }
    }
}

/// The repair a repository needs: a version with leading or trailing white space is trimmed,
/// and a missing version is restored from its backup if that can be read, else recreated.
pub open spec fn repair_for(repo: Repository, backup_readable: bool) -> Option<RepairAction> {
    match repo.version {
        Some(v) => if trim(v@) != v@ {
            Some(RepairAction::VersionFileExtraSpacing)
        } else {
            None
        },
        None => Some(
            if backup_readable {
                RepairAction::VersionFileCanRestore
            } else {
                RepairAction::VersionFileMissing
            },
        ),
    }
}

/// The repositories that need a repair, by their index, with the repair each needs, in the
/// order of the repositories. `backups[k]` tells whether the backup of the version file of
/// repository `k` can be read.
pub open spec fn repair_plan(repos: Seq<Repository>, backups: Seq<bool>) -> Seq<(int, RepairAction)>
    decreases repos.len(),
{
    if repos.len() == 0 {
        seq![]
    } else {
        let n = repos.len() - 1;
        let before = repair_plan(repos.drop_last(), backups.drop_last());
        match repair_for(repos[n], backups[n]) {
            Some(a) => before.push((n, a)),
            None => before,
        }
    }
}

/// Whether `found` lists, in order, the repositories of `repos` that `plan` names, each with
/// the repair the plan gives it.
pub open spec fn lists_plan(
    found: Seq<(&Repository, RepairAction)>,
    repos: Seq<Repository>,
    plan: Seq<(int, RepairAction)>,
) -> bool {
    &&& found.len() == plan.len()
    &&& forall|i: int|
        0 <= i < plan.len() ==> *(#[trigger] found[i]).0 == repos[plan[i].0] && found[i].1
            == plan[i].1
}

/// A repair plan names repositories of the list only, each at most once, in the order of the
/// list.
pub proof fn law_repair_plan_in_order(repos: Seq<Repository>, backups: Seq<bool>)
    requires
        backups.len() == repos.len(),
    ensures
        forall|i: int|
            0 <= i < repair_plan(repos, backups).len() ==> 0 <= #[trigger] repair_plan(
                repos,
                backups,
            )[i].0 < repos.len(),
        forall|i: int, j: int|
            0 <= i < j < repair_plan(repos, backups).len() ==> repair_plan(repos, backups)[i].0
                < repair_plan(repos, backups)[j].0,
    decreases repos.len(),
{
    if repos.len() > 0 {
        let n = repos.len() - 1;
        let before = repair_plan(repos.drop_last(), backups.drop_last());
        law_repair_plan_in_order(repos.drop_last(), backups.drop_last());
        if let Some(a) = repair_for(repos[n], backups[n]) {
            let plan = before.push((n, a));
            assert(repair_plan(repos, backups) == plan);
            assert forall|i: int| 0 <= i < plan.len() implies 0 <= #[trigger] plan[i].0 < repos.len() by {
                if i < before.len() {
                    assert(plan[i] == before[i]);
                }
            }
            assert forall|i: int, j: int| 0 <= i < j < plan.len() implies plan[i].0 < plan[j].0 by {
                assert(plan[i] == before[i]);
                if j < before.len() {
                    assert(plan[j] == before[j]);
                }
            }
        }
    }
}

/// The path `b` inside the directory `a`, as `PathBuf::push` forms it for a relative `b`.
pub open spec fn join_path(a: Seq<char>, b: Seq<char>) -> Seq<char> {
    if a.len() > 0 && a.last() != '/' {
        a + "/"@ + b
    } else {
        a + b
    }
}

/// The directory of a repository: `sqpack/<name>` in the game directory.
pub open spec fn repository_dir(game_directory: Seq<char>, name: Seq<char>) -> Seq<char> {
    join_path(join_path(game_directory, "sqpack"@), name)
}

/// The version file of a repository: `ffxivgame.ver` in the game directory for the base game,
/// `<name>.ver` in the repository's directory for an expansion.
pub open spec fn version_file_path(game_directory: Seq<char>, repo: RepositoryView) -> Seq<char> {
    match repo.repo_type {
        RepositoryType::Base => join_path(game_directory, "ffxivgame.ver"@),
        RepositoryType::Expansion { .. } => join_path(
            repository_dir(game_directory, repo.name),
            repo.name + ".ver"@,
        ),
    }
}

/// The backup of the version file of a repository: `<name>.bck` in its directory.
pub open spec fn backup_file_path(game_directory: Seq<char>, name: Seq<char>) -> Seq<char> {
    join_path(repository_dir(game_directory, name), name + ".bck"@)
}

/// The version a recreated repository is given.
pub open spec fn fresh_version() -> Seq<char> {
    "2012.01.01.0000.0000"@
}

/// Where a repaired version file gets its text from.
#[derive(Debug)]
pub enum VersionSource {
    /// This version.
    Fixed(String),
    /// The version in the backup file at this path.
    Backup(String),
    /// The text the version file holds now, without leading and trailing white space.
    Trimmed,
}

/// What repairing one repository takes: first the directory to empty, if any, then the text
/// to write to the version file.
#[derive(Debug)]
pub struct RepairStep {
    /// The version file to write.
    pub version_file: String,
    /// The directory to remove and create again, empty.
    pub recreate_directory: Option<String>,
    /// Where the new text of the version file comes from.
    pub source: VersionSource,
}

/// Whether `step` is what repairing `repo` in `game_directory` with `action` takes.
pub open spec fn is_step_for(
    step: RepairStep,
    game_directory: Seq<char>,
    repo: RepositoryView,
    action: RepairAction,
) -> bool {
    &&& step.version_file@ == version_file_path(game_directory, repo)
    &&& match action {
        RepairAction::VersionFileMissing => {
            &&& step.recreate_directory matches Some(d) && d@ == repository_dir(
                game_directory,
                repo.name,
            )
            &&& step.source matches VersionSource::Fixed(v) && v@ == fresh_version()
        },
        RepairAction::VersionFileCanRestore => {
            &&& step.recreate_directory is None
            &&& step.source matches VersionSource::Backup(p) && p@ == backup_file_path(
                game_directory,
                repo.name,
            )
        },
        RepairAction::VersionFileExtraSpacing => {
            &&& step.recreate_directory is None
            &&& step.source is Trimmed
        },
    }
}

/// The path `b` inside the directory `a`.
pub(crate) fn join(a: &Vec<char>, b: &Vec<char>) -> (r: Vec<char>)
    ensures
        r@ == join_path(a@, b@),
{
    let mut r: Vec<char> = Vec::new();
    let mut i: usize = 0;
    while i < a.len()
        invariant
            i <= a@.len(),
            r@ == a@.take(i as int),
        decreases a@.len() - i,
    {
        r.push(a[i]);
        i = i + 1;
        assert(r@ =~= a@.take(i as int));
    }
    assert(a@.take(a@.len() as int) =~= a@);
    if a.len() > 0 && a[a.len() - 1] != '/' {
        r.push('/');
        assert(r@ =~= a@ + "/"@) by {
            reveal_strlit("/");
        }
    }
    let mut k: usize = 0;
    let ghost start = r@;
    while k < b.len()
        invariant
            k <= b@.len(),
            r@ == start + b@.take(k as int),
        decreases b@.len() - k,
    {
        r.push(b[k]);
        k = k + 1;
        assert(r@ =~= start + b@.take(k as int));
    }
    assert(b@.take(b@.len() as int) =~= b@);
    r
}

/// The characters of `a` followed by those of `b`.
fn concat(a: &Vec<char>, b: &str) -> (r: Vec<char>)
    ensures
        r@ == a@ + b@,
{
    let mut r = join(&Vec::new(), a);
    assert(r@ =~= a@);
    push_str(&mut r, b);
    r
}

impl SqPackResource {
    /// The directory of the repository named `name`.
    fn repository_directory(&self, name: &Vec<char>) -> (r: Vec<char>)
        ensures
            r@ == repository_dir(self.game_directory@, name@),
    {
        let sqpack = join(&chars_of(self.game_directory.as_str()), &chars_of("sqpack"));
        join(&sqpack, name)
    }

    /// The path of the backup of the version file of `repository`.
    pub fn backup_file(&self, repository: &Repository) -> (r: String)
        ensures
            r@ == backup_file_path(self.game_directory@, repository.name@),
    {
        let name = chars_of(repository.name.as_str());
        let dir = self.repository_directory(&name);
        string_from_chars(&join(&dir, &concat(&name, ".bck")))
    }

    /// The path of the version file of `repository`.
    pub fn version_file(&self, repository: &Repository) -> (r: String)
        ensures
            r@ == version_file_path(self.game_directory@, repository@),
    {
        match repository.repo_type {
            RepositoryType::Base => string_from_chars(
                &join(&chars_of(self.game_directory.as_str()), &chars_of("ffxivgame.ver")),
            ),
            RepositoryType::Expansion { .. } => {
                let name = chars_of(repository.name.as_str());
                let dir = self.repository_directory(&name);
                string_from_chars(&join(&dir, &concat(&name, ".ver")))
            },
        }
    }

    /// Detects whether or not the game files need a repair; for now it only checks for
    /// invalid version files. `backups[k]` tells whether the backup of the version file of
    /// repository `k` can be read (see `backup_file`). If a repair is needed, the
    /// repositories that need one are given, each with its repair.
    pub fn needs_repair(&self, backups: &Vec<bool>) -> (r: Option<Vec<(&Repository, RepairAction)>>)
        requires
            backups@.len() == self.repositories@.len(),
        ensures
            r is None <==> repair_plan(self.repositories@, backups@).len() == 0,
            r matches Some(v) ==> lists_plan(
                v@,
                self.repositories@,
                repair_plan(self.repositories@, backups@),
            ),
    {
        let mut out: Vec<(&Repository, RepairAction)> = Vec::new();
        let n = self.repositories.len();
        let mut k: usize = 0;
        while k < n
            invariant
                k <= n,
                n == self.repositories@.len(),
                backups@.len() == n,
                lists_plan(
                    out@,
                    self.repositories@,
                    repair_plan(self.repositories@.take(k as int), backups@.take(k as int)),
                ),
            decreases n - k,
        {
            let repository = &self.repositories[k];
            let ghost repos_next = self.repositories@.take(k + 1);
            let ghost backups_next = backups@.take(k + 1);
            assert(repos_next.drop_last() =~= self.repositories@.take(k as int));
            assert(backups_next.drop_last() =~= backups@.take(k as int));
            assert(repos_next[k as int] == self.repositories@[k as int]);
            assert(backups_next[k as int] == backups@[k as int]);
            let action = match &repository.version {
                Some(version) => {
                    let v = chars_of(version.as_str());
                    if !same_chars(&trim_chars(&v), &v) {
                        Some(RepairAction::VersionFileExtraSpacing)
                    } else {
                        None
                    }
                },
                None => {
                    if backups[k] {
                        Some(RepairAction::VersionFileCanRestore)
                    } else {
                        Some(RepairAction::VersionFileMissing)
                    }
                },
            };
            assert(action == repair_for(self.repositories@[k as int], backups@[k as int]));
            let ghost plan_k = repair_plan(self.repositories@.take(k as int), backups@.take(k as int));
            let ghost out_k = out@;
            assert(repair_plan(repos_next, backups_next) == match action {
                Some(a) => plan_k.push((k as int, a)),
                None => plan_k,
            });
            if let Some(a) = action {
                out.push((repository, a));
                let ghost plan_next = repair_plan(repos_next, backups_next);
                assert forall|i: int| 0 <= i < plan_next.len() implies *(#[trigger] out@[i]).0
                    == self.repositories@[plan_next[i].0] && out@[i].1 == plan_next[i].1 by {
                    if i < out_k.len() {
                        assert(out@[i] == out_k[i]);
                        assert(plan_k.push((k as int, a))[i] == plan_k[i]);
                    } else {
                        assert(out@[i] == (repository, a));
                        assert(plan_k.len() == out_k.len());
                        assert(repair_plan(repos_next, backups_next)[i] == (k as int, a));
                        assert(*repository == self.repositories@[k as int]);
                    }
                }
            }
            k = k + 1;
            assert(repos_next == self.repositories@.take(k as int));
            assert(backups_next == backups@.take(k as int));
        }
        assert(self.repositories@.take(n as int) =~= self.repositories@);
        assert(backups@.take(n as int) =~= backups@);
        if out.len() == 0 {
            None
        } else {
            Some(out)
        }
    }

    /// What repairing each of `repairs` takes, in order. The repairs are assumed damaging:
    /// a repository whose version file is missing, with no backup, has its directory emptied.
    pub fn repair_steps(&self, repairs: &Vec<(&Repository, RepairAction)>) -> (r: Vec<RepairStep>)
        ensures
            r@.len() == repairs@.len(),
            forall|i: int|
                0 <= i < r@.len() ==> is_step_for(
                    #[trigger] r@[i],
                    self.game_directory@,
                    (*repairs@[i].0)@,
                    repairs@[i].1,
                ),
    {
        let mut out: Vec<RepairStep> = Vec::new();
        let mut i: usize = 0;
        while i < repairs.len()
            invariant
                i <= repairs@.len(),
                out@.len() == i,
                forall|j: int|
                    0 <= j < i ==> is_step_for(
                        #[trigger] out@[j],
                        self.game_directory@,
                        (*repairs@[j].0)@,
                        repairs@[j].1,
                    ),
            decreases repairs@.len() - i,
        {
            let repository = repairs[i].0;
            let action = repairs[i].1;
            let version_file = self.version_file(repository);
            let step = match action {
                RepairAction::VersionFileMissing => {
                    let dir = self.repository_directory(&chars_of(repository.name.as_str()));
                    let fresh = string_from_chars(&chars_of("2012.01.01.0000.0000"));
                    RepairStep {
                        version_file,
                        recreate_directory: Some(string_from_chars(&dir)),
                        source: VersionSource::Fixed(fresh),
                    }
                },
                RepairAction::VersionFileCanRestore => RepairStep {
                    version_file,
                    recreate_directory: None,
                    source: VersionSource::Backup(self.backup_file(repository)),
                },
                RepairAction::VersionFileExtraSpacing => RepairStep {
                    version_file,
                    recreate_directory: None,
                    source: VersionSource::Trimmed,
                },
            };
            out.push(step);
            i = i + 1;
        }
        out
    }
}

/// The plain values of a list of repositories.
pub open spec fn views(s: Seq<Repository>) -> Seq<RepositoryView> {
    s.map_values(|r: Repository| r@)
}

/// Where a repository type sorts: the base game first, then the expansions by number.
pub open spec fn sort_rank(t: RepositoryType) -> int {
    match t {
        RepositoryType::Base => -1,
        RepositoryType::Expansion { number } => number as int,
    }
}

/// How many of `s` sort at or before `rank`.
pub open spec fn count_ranked_at_most(s: Seq<RepositoryView>, rank: int) -> nat
    decreases s.len(),
{
    if s.len() == 0 {
        0
    } else {
        count_ranked_at_most(s.drop_last(), rank) + if sort_rank(s.last().repo_type) <= rank {
            1nat
        } else {
            0nat
        }
    }
}

/// `s` sorted by rank, repositories of equal rank kept in their order, as a stable sort such
/// as `slice::sort` gives it: each repository in turn goes after every one before it that
/// sorts at or before it.
pub open spec fn sorted_repositories(s: Seq<RepositoryView>) -> Seq<RepositoryView>
    decreases s.len(),
{
    if s.len() == 0 {
        s
    } else {
        let before = sorted_repositories(s.drop_last());
        before.insert(count_ranked_at_most(before, sort_rank(s.last().repo_type)) as int, s.last())
    }
}

/// Whether `s` is ordered by rank.
pub open spec fn ranked_in_order(s: Seq<RepositoryView>) -> bool {
    forall|i: int, j: int|
        0 <= i < j < s.len() ==> sort_rank(s[i].repo_type) <= sort_rank(s[j].repo_type)
}

/// In a list ordered by rank, those at or before `rank` come first.
proof fn lemma_count_ranked(s: Seq<RepositoryView>, rank: int)
    requires
        ranked_in_order(s),
    ensures
        count_ranked_at_most(s, rank) <= s.len(),
        forall|i: int|
            0 <= i < count_ranked_at_most(s, rank) ==> sort_rank(#[trigger] s[i].repo_type)
                <= rank,
        forall|i: int|
            count_ranked_at_most(s, rank) <= i < s.len() ==> sort_rank(#[trigger] s[i].repo_type)
                > rank,
    decreases s.len(),
{
    if s.len() > 0 {
        let t = s.drop_last();
        assert(ranked_in_order(t));
        lemma_count_ranked(t, rank);
        let ct = count_ranked_at_most(t, rank) as int;
        let n = s.len() - 1;
        if sort_rank(s.last().repo_type) <= rank {
            if ct < t.len() {
                assert(sort_rank(t[ct].repo_type) > rank);
                assert(sort_rank(s[ct].repo_type) <= sort_rank(s[n].repo_type));
                assert(s[ct] == t[ct]);
            }
            assert forall|i: int| 0 <= i < count_ranked_at_most(s, rank) implies sort_rank(
                #[trigger] s[i].repo_type,
            ) <= rank by {
                if i < n {
                    assert(s[i] == t[i]);
                }
            }
        } else {
            assert forall|i: int| 0 <= i < count_ranked_at_most(s, rank) implies sort_rank(
                #[trigger] s[i].repo_type,
            ) <= rank by {
                assert(s[i] == t[i]);
            }
            assert forall|i: int| count_ranked_at_most(s, rank) <= i < s.len() implies sort_rank(
                #[trigger] s[i].repo_type,
            ) > rank by {
                if i < n {
                    assert(s[i] == t[i]);
                }
            }
        }
    }
}

/// Sorting repositories orders them by rank, the base game first and then the expansions by
/// number, and keeps every repository.
pub proof fn law_sorted_repositories(s: Seq<RepositoryView>)
    ensures
        ranked_in_order(sorted_repositories(s)),
        sorted_repositories(s).to_multiset() == s.to_multiset(),
        sorted_repositories(s).len() == s.len(),
    decreases s.len(),
{
    broadcast use vstd::seq_lib::to_multiset_build, vstd::seq_lib::to_multiset_insert;

    if s.len() > 0 {
        let before = sorted_repositories(s.drop_last());
        law_sorted_repositories(s.drop_last());
        let x = s.last();
        let k = sort_rank(x.repo_type);
        lemma_count_ranked(before, k);
        let c = count_ranked_at_most(before, k) as int;
        let after = before.insert(c, x);
        assert(after == sorted_repositories(s));
        assert forall|i: int, j: int| 0 <= i < j < after.len() implies sort_rank(
            after[i].repo_type,
        ) <= sort_rank(after[j].repo_type) by {
            if i < c {
                assert(after[i] == before[i]);
            } else if i > c {
                assert(after[i] == before[i - 1]);
            }
            if j < c {
                assert(after[j] == before[j]);
            } else if j > c {
                assert(after[j] == before[j - 1]);
            }
        }
        assert(s == s.drop_last().push(x));
    }
}

/// The expansion repositories among the directories `expansions` (name and version file
/// text of each), in order.
pub open spec fn expansion_views(
    platform: Platform,
    release: SqPackRelease,
    expansions: Seq<(String, Option<String>)>,
) -> Seq<RepositoryView>
    decreases expansions.len(),
{
    if expansions.len() == 0 {
        seq![]
    } else {
        let before = expansion_views(platform, release, expansions.drop_last());
        let last = expansions.last();
        match expansion_repository(platform, release, last.0@, opt_text(last.1)) {
            Some(r) => before.push(r),
            None => before,
        }
    }
}

/// The repositories of a valid game directory, before sorting: the base game, then the
/// expansions.
pub open spec fn found_repositories(
    platform: Platform,
    release: SqPackRelease,
    base_version: Option<Seq<char>>,
    expansions: Seq<(String, Option<String>)>,
) -> Seq<RepositoryView> {
    seq![base_repository(platform, release, base_version)] + expansion_views(
        platform,
        release,
        expansions,
    )
}

/// Whether a directory name has the three bytes that an expansion name is read from, the
/// third a whole character.
pub open spec fn expansion_name_readable(name: Seq<char>) -> bool {
    let b = encode_utf8(name);
    &&& b.len() >= 3
    &&& is_char_boundary(b, 2)
    &&& is_char_boundary(b, 3)
}

/// The text of an optional string.
pub open spec fn opt_str(o: Option<&str>) -> Option<Seq<char>> {
    match o {
        Some(s) => Some(s@),
        None => None,
    }
}

/// Where a repository type sorts.
fn rank_of(t: RepositoryType) -> (r: i64)
    ensures
        r == sort_rank(t),
{
    match t {
        RepositoryType::Base => -1,
        RepositoryType::Expansion { number } => number as i64,
    }
}

/// How many of `s` sort at or before `rank`.
fn count_at_most(s: &Vec<Repository>, rank: i64) -> (r: usize)
    ensures
        r == count_ranked_at_most(views(s@), rank as int),
        r <= s@.len(),
{
    let mut c: usize = 0;
    let mut k: usize = 0;
    while k < s.len()
        invariant
            k <= s@.len(),
            c <= k,
            c == count_ranked_at_most(views(s@.take(k as int)), rank as int),
        decreases s@.len() - k,
    {
        assert(views(s@.take(k + 1)).drop_last() =~= views(s@.take(k as int)));
        if rank_of(s[k].repo_type) <= rank {
            c = c + 1;
        }
        k = k + 1;
    }
    assert(s@.take(s@.len() as int) =~= s@);
    c
}

/// The repositories of `v` sorted by rank, keeping the order of those of equal rank.
fn sort_repositories(v: Vec<Repository>) -> (r: Vec<Repository>)
    ensures
        views(r@) == sorted_repositories(views(v@)),
{
    let ghost orig = v@;
    let mut out: Vec<Repository> = Vec::new();
    let mut rest = v;
    let ghost mut k: int = 0;
    assert(views(orig.take(0)) =~= Seq::<RepositoryView>::empty());
    assert(views(out@) =~= Seq::<RepositoryView>::empty());
    while rest.len() > 0
        invariant
            0 <= k <= orig.len(),
            rest@ == orig.skip(k),
            views(out@) == sorted_repositories(views(orig.take(k))),
        decreases rest@.len(),
    {
        let x = rest.remove(0);
        let pos = count_at_most(&out, rank_of(x.repo_type));
        let ghost before = out@;
        out.insert(pos, x);
        proof {
            assert(x == orig[k]);
            assert(views(orig.take(k + 1)).drop_last() =~= views(orig.take(k)));
            assert(views(orig.take(k + 1)).last() == x@);
            assert(views(out@) =~= views(before).insert(pos as int, x@));
            assert(rest@ =~= orig.skip(k + 1));
            k = k + 1;
        }
    }
    assert(orig.take(k) =~= orig);
    out
}

impl SqPackResource {
    /// Creates a resource for the game directory `directory`. Its platform and release are
    /// told from the name of one of its index files, `index_file` (`None` where it has
    /// none); Win32 and the retail release where nothing tells. A directory that does not
    /// exist (`valid` false) is treated as a new install, with no repositories. Else the
    /// repositories are the base game, with the text of its version file `base_version`,
    /// and one per directory of `expansions` (the name of the directory, such as "ex1",
    /// and the text of its version file) whose name gives an expansion number, sorted: the
    /// base game first, then the expansions by number.
    pub fn from_existing(
        directory: &str,
        index_file: Option<&str>,
        valid: bool,
        base_version: Option<String>,
        expansions: Vec<(String, Option<String>)>,
    ) -> (r: Self)
        requires
            valid ==> forall|i: int|
                0 <= i < expansions@.len() ==> expansion_name_readable(
                    (#[trigger] expansions@[i]).0@,
                ),
        ensures
            r.game_directory@ == directory@,
            (r.platform, r.release) == platform_release_of(opt_str(index_file)),
            valid ==> views(r.repositories@) == sorted_repositories(
                found_repositories(r.platform, r.release, opt_text(base_version), expansions@),
            ),
            !valid ==> r.repositories@.len() == 0,
    {
        let (platform, release) = Self::determine_platform_release(index_file);
        let mut data = Self {
            game_directory: string_from_chars(&chars_of(directory)),
            repositories: Vec::new(),
            platform,
            release,
        };
        if valid {
            data.reload_repositories(base_version, expansions);
        }
        data
    }

    /// Replaces the repositories by those of a valid game directory, sorted.
    fn reload_repositories(
        &mut self,
        base_version: Option<String>,
        expansions: Vec<(String, Option<String>)>,
    )
        requires
            forall|i: int|
                0 <= i < expansions@.len() ==> expansion_name_readable(
                    (#[trigger] expansions@[i]).0@,
                ),
        ensures
            final(self).game_directory == old(self).game_directory,
            final(self).platform == old(self).platform,
            final(self).release == old(self).release,
            views(final(self).repositories@) == sorted_repositories(
                found_repositories(
                    old(self).platform,
                    old(self).release,
                    opt_text(base_version),
                    expansions@,
                ),
            ),
    {
        let platform = self.platform;
        let release = self.release;
        let ghost bv = opt_text(base_version);
        let mut found: Vec<Repository> = Vec::new();
        if let Some(base) = Repository::from_existing_base(platform, release, true, base_version) {
            found.push(base);
        }
        let ghost orig = expansions@;
        let mut rest = expansions;
        let ghost mut k: int = 0;
        assert(views(found@) =~= seq![base_repository(platform, release, bv)]);
        assert(orig.take(0) =~= Seq::<(String, Option<String>)>::empty());
        while rest.len() > 0
            invariant
                0 <= k <= orig.len(),
                rest@ == orig.skip(k),
                forall|i: int|
                    0 <= i < orig.len() ==> expansion_name_readable((#[trigger] orig[i]).0@),
                views(found@) == seq![base_repository(platform, release, bv)] + expansion_views(
                    platform,
                    release,
                    orig.take(k),
                ),
            decreases rest@.len(),
        {
            let (name, version) = rest.remove(0);
            proof {
                assert(orig[k] == (name, version));
                assert(orig.take(k + 1).drop_last() =~= orig.take(k));
                assert(orig.take(k + 1).last() == orig[k]);
            }
            let ghost vv = opt_text(version);
            let ghost before = found@;
            if let Some(repo) = Repository::from_existing_expansion(
                platform,
                release,
                name.as_str(),
                true,
                version,
            ) {
                found.push(repo);
                assert(views(found@) =~= views(before).push(repo@));
            }
            proof {
                assert(rest@ =~= orig.skip(k + 1));
                k = k + 1;
            }
        }
        assert(orig.take(k) =~= orig);
        self.repositories = sort_repositories(found);
    }
}

/// The first repository at or after `from` named `name`.
pub open spec fn named_index(repos: Seq<Repository>, name: Seq<char>, from: int) -> Option<int>
    decreases repos.len() - from,
{
    if from < 0 || from >= repos.len() {
        None
    } else if repos[from].name@ == name {
        Some(from)
    } else {
        named_index(repos, name, from + 1)
    }
}

/// The repository and category a path such as "bg/ex1/..." is in: the category its first
/// component names, and the first repository named by its second component, else the first
/// repository. `None` without repositories or without such a category.
pub open spec fn repository_category_of(repos: Seq<Repository>, path: Seq<char>) -> Option<
    (int, Category),
> {
    if repos.len() == 0 {
        None
    } else {
        let tokens = split(path, "/"@);
        let k = match named_index(repos, tokens[1], 0) {
            Some(k) => k,
            None => 0,
        };
        match category_of(tokens[0]) {
            Some(c) => Some((k, c)),
            None => None,
        }
    }
}

/// The path of an index file of a repository.
pub open spec fn index_file_path(
    game_directory: Seq<char>,
    repo: RepositoryView,
    chunk: u8,
    category: Category,
) -> Seq<char> {
    join_path(
        repository_dir(game_directory, repo.name),
        index_name(repo.platform, repo.release, repo.repo_type, chunk, category),
    )
}

/// The number of chunks whose index files are looked for.
pub const INDEX_CHUNKS: u8 = 255;

impl SqPackResource {
    /// Parses a path and gives the repository and category it is in; see
    /// `repository_category_of`.
    pub fn parse_repository_category(&self, path: &str) -> (r: Option<(&Repository, Category)>)
        requires
            self.repositories@.len() > 0 ==> split(path@, "/"@).len() >= 2,
        ensures
            r is Some <==> repository_category_of(self.repositories@, path@) is Some,
            r matches Some((repo, c)) ==> {
                let k = repository_category_of(self.repositories@, path@).unwrap().0;
                &&& 0 <= k < self.repositories@.len()
                &&& *repo == self.repositories@[k]
                &&& c == repository_category_of(self.repositories@, path@).unwrap().1
            },
    {
        if self.repositories.len() == 0 {
            return None;
        }
        let slash = chars_of("/");
        proof {
            reveal_strlit("/");
        }
        let tokens = split_chars(&chars_of(path), &slash);
        assert(tokens@[1]@ == split(path@, "/"@)[1]);
        assert(tokens@[0]@ == split(path@, "/"@)[0]);
        let category = string_to_category(string_from_chars(&tokens[0]).as_str());
        assert(category == category_of(split(path@, "/"@)[0]));
        let n = self.repositories.len();
        let mut k: usize = 0;
        while k < n
            invariant
                k <= n,
                n == self.repositories@.len(),
                n > 0,
                tokens@.len() >= 2,
                tokens@[1]@ == split(path@, "/"@)[1],
                category == category_of(split(path@, "/"@)[0]),
                named_index(self.repositories@, tokens@[1]@, 0) == named_index(
                    self.repositories@,
                    tokens@[1]@,
                    k as int,
                ),
            decreases n - k,
        {
            if same_chars(&chars_of(self.repositories[k].name.as_str()), &tokens[1]) {
                return match category {
                    Some(c) => Some((&self.repositories[k], c)),
                    None => None,
                };
            }
            k = k + 1;
        }
        match category {
            Some(c) => Some((&self.repositories[0], c)),
            None => None,
        }
    }

    /// The paths of the index files, and index2 files, of each chunk that a path may be in;
    /// `None` where the path names no category. See `repository_category_of`.
    pub fn get_index_filenames(&self, path: &str) -> (r: Option<Vec<String>>)
        requires
            self.repositories@.len() > 0 ==> split(path@, "/"@).len() >= 2,
        ensures
            r is Some <==> repository_category_of(self.repositories@, path@) is Some,
            r matches Some(v) ==> {
                let (k, category) = repository_category_of(self.repositories@, path@).unwrap();
                &&& v@.len() == 2 * INDEX_CHUNKS
                &&& forall|chunk: u8|
                    chunk < INDEX_CHUNKS ==> #[trigger] v@[2 * chunk]@ == index_file_path(
                        self.game_directory@,
                        self.repositories@[k]@,
                        chunk,
                        category,
                    ) && v@[2 * chunk + 1]@ == index_file_path(
                        self.game_directory@,
                        self.repositories@[k]@,
                        chunk,
                        category,
                    ) + "2"@
            },
    {
        let (repository, category) = match self.parse_repository_category(path) {
            Some(found) => found,
            None => return None,
        };
        let dir = self.repository_directory(&chars_of(repository.name.as_str()));
        let mut filenames: Vec<String> = Vec::new();
        let mut chunk: u8 = 0;
        while chunk < INDEX_CHUNKS
            invariant
                chunk <= INDEX_CHUNKS,
                filenames@.len() == 2 * chunk,
                dir@ == repository_dir(self.game_directory@, repository.name@),
                forall|c: u8|
                    c < chunk ==> #[trigger] filenames@[2 * c]@ == index_file_path(
                        self.game_directory@,
                        repository@,
                        c,
                        category,
                    ) && filenames@[2 * c + 1]@ == index_file_path(
                        self.game_directory@,
                        repository@,
                        c,
                        category,
                    ) + "2"@,
            decreases INDEX_CHUNKS - chunk,
        {
            let index = join(&dir, &chars_of(repository.index_filename(chunk, category).as_str()));
            let index2 = join(
                &dir,
                &chars_of(repository.index2_filename(chunk, category).as_str()),
            );
            assert(index2@ =~= index@ + "2"@);
            let ghost before = filenames@;
            filenames.push(string_from_chars(&index));
            filenames.push(string_from_chars(&index2));
            proof {
                assert forall|c: u8| c < chunk + 1 implies #[trigger] filenames@[2 * c]@
                    == index_file_path(self.game_directory@, repository@, c, category)
                    && filenames@[2 * c + 1]@ == index_file_path(
                    self.game_directory@,
                    repository@,
                    c,
                    category,
                ) + "2"@ by {
                    if c < chunk {
                        assert(filenames@[2 * c] == before[2 * c]);
                        assert(filenames@[2 * c + 1] == before[2 * c + 1]);
                    }
                }
            }
            chunk = chunk + 1;
        }
        Some(filenames)
    }
}

} // verus!
