//! What a build service tells about the change it builds.

use vstd::prelude::*;
use vstd::seq_lib::*;

verus! {

/// The build services that are recognised.
#[derive(Debug, Clone, Copy, PartialEq, Eq, Structural)]
pub enum CiProvider {
    /// GitHub Actions
    GitHubActions,
}

/// The change a build service is building.
#[derive(Debug, Clone)]
pub struct CiContext {
    /// The service.
    pub provider: CiProvider,
    /// The event that started the build.
    pub event_name: String,
    /// The branch the change is to be merged into.
    pub base_ref: Option<String>,
    /// The commit that is built.
    pub head_sha: Option<String>,
    /// The files the event names as changed.
    pub changed_files: Option<Vec<String>>,
    /// The number of the pull request.
    pub pr_number: Option<u64>,
    /// The repository.
    pub repository: Option<String>,
}

/// The files one commit of a push names.
#[derive(Debug, Clone)]
pub struct PushCommit {
    /// The files the commit added.
    pub added: Vec<String>,
    /// The files the commit changed.
    pub modified: Vec<String>,
    /// The files the commit removed.
    pub removed: Vec<String>,
}

/// Whether two texts are the same path, as `std::path::Path` compares paths.
pub uninterp spec fn same_path(a: Seq<char>, b: Seq<char>) -> bool;

/// Whether the path `a` comes before the path `b` in the order of
/// `std::path::Path`.
pub uninterp spec fn comes_before(a: Seq<char>, b: Seq<char>) -> bool;

/// Compares two paths for equality with `==` on `std::path::Path`. The
/// result is what `same_path` names; equal texts are equal paths.
#[verifier::external_body]
fn path_equal(a: &str, b: &str) -> (r: bool)
    ensures
        r == same_path(a@, b@),
        a@ == b@ ==> r,
{
    std::path::Path::new(a) == std::path::Path::new(b)
}

/// Compares two paths with `<` on `std::path::Path`. The result is what
/// `comes_before` names. The order is total, as std asks of every `Ord`: a
/// path that comes before another is not the same path; of two paths that
/// are not the same, one comes before the other; and what comes before a
/// path comes before all that follow that path.
#[verifier::external_body]
fn path_less(a: &str, b: &str) -> (r: bool)
    ensures
        r == comes_before(a@, b@),
        r ==> !same_path(a@, b@),
        !r ==> same_path(a@, b@) || comes_before(b@, a@),
        r ==> forall|c: Seq<char>| #[trigger] comes_before(b@, c) ==> comes_before(a@, c),
{
    std::path::Path::new(a) < std::path::Path::new(b)
}

/// The texts of a list of strings.
pub open spec fn path_texts(v: Seq<String>) -> Seq<Seq<char>> {
    v.map_values(|s: String| s@)
}

/// The texts that the commits name, as they are written.
pub open spec fn named_texts(commits: Seq<PushCommit>) -> Set<Seq<char>>
    decreases commits.len(),
{
    if commits.len() == 0 {
        Set::empty()
    } else {
        let c = commits.last();
        named_texts(commits.drop_last()).union(path_texts(c.added@).to_set()).union(
            path_texts(c.modified@).to_set(),
        ).union(path_texts(c.removed@).to_set())
    }
}

/// Whether every path of the list comes before all that follow it; no
/// path then stands twice, however it is written.
pub open spec fn sorted(t: Seq<Seq<char>>) -> bool {
    forall|i: int, j: int| 0 <= i < j < t.len() ==> comes_before(#[trigger] t[i], #[trigger] t[j])
}

/// Whether the list holds each of the texts `named`, or a text that is the same path.
pub open spec fn covers(t: Seq<Seq<char>>, named: Set<Seq<char>>) -> bool {
    forall|x: Seq<char>|
        named.contains(x) ==> exists|i: int|
            0 <= i < t.len() && (#[trigger] t[i] == x || same_path(t[i], x))
}

/// Where a path belongs in a list, given for each path of the list whether
/// it comes before the new one: after the paths at the front that do.
pub open spec fn front_run(before: Seq<bool>) -> int
    decreases before.len(),
{
    if before.len() > 0 && before[0] {
        1 + front_run(before.drop_first())
    } else {
        0
    }
}

/// Finds where a path belongs in a list, given for each path of the list
/// whether it comes before the new one.
pub fn insertion_point(before: &Vec<bool>) -> (r: usize)
    ensures
        r == front_run(before@),
        r <= before@.len(),
        forall|i: int| 0 <= i < r ==> before@[i],
        r < before@.len() ==> !before@[r as int],
{
    let n = before.len();
    let mut j: usize = 0;
    assert(before@.skip(0) =~= before@);
    while j < n && before[j]
        invariant
            n == before@.len(),
            j <= n,
            forall|i: int| 0 <= i < j ==> before@[i],
            front_run(before@) == j + front_run(before@.skip(j as int)),
        decreases n - j,
    {
        assert(before@.skip(j as int).drop_first() =~= before@.skip(j + 1));
        j += 1;
    }
    proof {
        if j < n {
            assert(before@.skip(j as int)[0] == before@[j as int]);
        }
    }
    j
}

/// Puts a path into a sorted list where it belongs, unless the list holds
/// a text that is the same path.
fn insert_path(v: &mut Vec<String>, path: &str)
    requires
        sorted(path_texts(old(v)@)),
    ensures
        sorted(path_texts(final(v)@)),
        path_texts(final(v)@).to_set().subset_of(path_texts(old(v)@).to_set().insert(path@)),
        path_texts(old(v)@).to_set().subset_of(path_texts(final(v)@).to_set()),
        exists|k: int|
            0 <= k < final(v)@.len() && (#[trigger] path_texts(final(v)@)[k] == path@
                || same_path(path_texts(final(v)@)[k], path@)),
{
    let ghost before = path_texts(v@);
    let n = v.len();
    let mut flags: Vec<bool> = Vec::new();
    let mut j: usize = 0;
    while j < n
        invariant
            n == v@.len(),
            j <= n,
            *v == *old(v),
            before == path_texts(v@),
            flags@.len() == j,
            forall|i: int| 0 <= i < j ==> flags@[i] == comes_before(#[trigger] before[i], path@),
            forall|i: int|
                0 <= i < j && !flags@[i] ==> same_path(#[trigger] before[i], path@)
                    || comes_before(path@, before[i]),
        decreases n - j,
    {
        let less = path_less(v[j].as_str(), path);
        assert(before[j as int] == v@[j as int]@);
        flags.push(less);
        j += 1;
    }
    let at = insertion_point(&flags);
    if at < n {
        assert(before[at as int] == v@[at as int]@);
        if path_equal(v[at].as_str(), path) {
            // the path is there already
            assert(path_texts(v@).to_set().insert(path@).contains(path@));
            return ;
        }
        let follows = path_less(path, v[at].as_str());
        assert(follows);
    }
    v.insert(at, path.to_owned());
    proof {
        let after = path_texts(v@);
        assert(after =~= before.insert(at as int, path@));
        assert forall|i: int, k: int| 0 <= i < k < after.len() implies comes_before(
            #[trigger] after[i],
            #[trigger] after[k],
        ) by {
            if k < at {
                assert(after[i] == before[i] && after[k] == before[k]);
            } else if k == at {
                assert(after[i] == before[i]);
            } else if i < at {
                assert(after[i] == before[i] && after[k] == before[k - 1]);
            } else if i == at {
                assert(after[k] == before[k - 1]);
                if k - 1 > at {
                    assert(comes_before(before[at as int], before[k - 1]));
                }
            } else {
                assert(after[i] == before[i - 1] && after[k] == before[k - 1]);
            }
        }
        assert forall|x: Seq<char>| after.to_set().contains(x) implies before.to_set().insert(
            path@,
        ).contains(x) by {
            let k = choose|k: int| 0 <= k < after.len() && after[k] == x;
            if k < at {
                assert(before[k] == x);
            } else if k > at {
                assert(before[k - 1] == x);
            }
        }
        assert forall|x: Seq<char>| before.to_set().contains(x) implies after.to_set().contains(
            x,
        ) by {
            let k = choose|k: int| 0 <= k < before.len() && before[k] == x;
            if k < at {
                assert(after[k] == x);
            } else {
                assert(after[k + 1] == x);
            }
        }
        assert(after[at as int] == path@);
    }
}

/// Puts each path of `src` into the sorted list `v`.
fn insert_paths(v: &mut Vec<String>, src: &Vec<String>, Ghost(named): Ghost<Set<Seq<char>>>)
    requires
        sorted(path_texts(old(v)@)),
        path_texts(old(v)@).to_set().subset_of(named),
        covers(path_texts(old(v)@), named),
    ensures
        sorted(path_texts(final(v)@)),
        path_texts(final(v)@).to_set().subset_of(named.union(path_texts(src@).to_set())),
        covers(path_texts(final(v)@), named.union(path_texts(src@).to_set())),
{
    let n = src.len();
    let mut j: usize = 0;
    assert(path_texts(src@.take(0)).to_set() =~= Set::<Seq<char>>::empty());
    assert(named.union(path_texts(src@.take(0)).to_set()) =~= named);
    while j < n
        invariant
            n == src@.len(),
            j <= n,
            sorted(path_texts(v@)),
            path_texts(v@).to_set().subset_of(
                named.union(path_texts(src@.take(j as int)).to_set()),
            ),
            covers(path_texts(v@), named.union(path_texts(src@.take(j as int)).to_set())),
        decreases n - j,
    {
        let ghost held = path_texts(v@);
        let ghost so_far = named.union(path_texts(src@.take(j as int)).to_set());
        let ghost e = src@[j as int]@;
        proof {
            assert(path_texts(src@.take(j + 1)) =~= path_texts(src@.take(j as int)).push(e));
            path_texts(src@.take(j as int)).lemma_push_to_set_commute(e);
            assert(so_far.insert(e) =~= named.union(path_texts(src@.take(j + 1)).to_set()));
        }
        insert_path(v, src[j].as_str());
        proof {
            let now = path_texts(v@);
            assert forall|x: Seq<char>| so_far.insert(e).contains(x) implies exists|i: int|
                0 <= i < now.len() && (#[trigger] now[i] == x || same_path(now[i], x)) by {
                if x == e {
                } else {
                    let i = choose|i: int|
                        0 <= i < held.len() && (#[trigger] held[i] == x || same_path(held[i], x));
                    assert(held.to_set().contains(held[i]));
                    let k = choose|k: int| 0 <= k < now.len() && now[k] == held[i];
                    assert(now[k] == x || same_path(now[k], x));
                }
            }
        }
        j += 1;
    }
    assert(src@.take(n as int) =~= src@);
}

/// Lists the files that the commits of a push name as added, changed or
/// removed: each path once, in the first form in which it is written, in
/// the order of paths. `None` where the push lists no commits, or the
/// commits name no file.
pub fn extract_push_changed_files(commits: &Option<Vec<PushCommit>>) -> (r: Option<Vec<String>>)
    ensures
        r is Some <==> commits is Some && !(named_texts(commits->0@) =~= Set::empty()),
        r is Some ==> sorted(path_texts(r->0@)),
        r is Some ==> path_texts(r->0@).to_set().subset_of(named_texts(commits->0@)),
        r is Some ==> covers(path_texts(r->0@), named_texts(commits->0@)),
{
    let Some(commits) = commits else {
        return None;
    };
    let mut files: Vec<String> = Vec::new();
    let n = commits.len();
    let mut j: usize = 0;
    assert(commits@.take(0) =~= Seq::<PushCommit>::empty());
    while j < n
        invariant
            n == commits@.len(),
            j <= n,
            sorted(path_texts(files@)),
            path_texts(files@).to_set().subset_of(named_texts(commits@.take(j as int))),
            covers(path_texts(files@), named_texts(commits@.take(j as int))),
        decreases n - j,
    {
        assert(commits@.take(j + 1).drop_last() =~= commits@.take(j as int));
        let ghost a = named_texts(commits@.take(j as int));
        let ghost b = a.union(path_texts(commits@[j as int].added@).to_set());
        let ghost c = b.union(path_texts(commits@[j as int].modified@).to_set());
        insert_paths(&mut files, &commits[j].added, Ghost(a));
        insert_paths(&mut files, &commits[j].modified, Ghost(b));
        insert_paths(&mut files, &commits[j].removed, Ghost(c));
        j += 1;
    }
    assert(commits@.take(n as int) =~= commits@);
    if files.len() == 0 {
        assert forall|x: Seq<char>| !named_texts(commits@).contains(x) by {
            if named_texts(commits@).contains(x) {
                let i = choose|i: int|
                    0 <= i < path_texts(files@).len() && (#[trigger] path_texts(files@)[i] == x
                        || same_path(path_texts(files@)[i], x));
            }
        }
        assert(named_texts(commits@) =~= Set::<Seq<char>>::empty());
        None
    } else {
        assert(path_texts(files@).to_set().contains(path_texts(files@)[0]));
        Some(files)
    }
}

} // verus!
