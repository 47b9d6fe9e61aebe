//! What is known about the macros of a file and of the files it draws on.

use vstd::prelude::*;
use vstd::seq_lib::*;
use petgraph::visit::Walker;
use crate::tools::str_eq;

verus! {

/// Preprocessor data of a `C/C++` file.
#[derive(Debug, Default)]
pub struct PreprocFile {
    /// The files explicitly named in a file, each once
    pub direct_includes: Vec<String>,
    /// The files implicitly drawn into a file
    /// from other files, each once
    pub indirect_includes: Vec<String>,
    /// The macros of a file, each once
    pub macros: Vec<String>,
}

/// Preprocessor data of a series of `C/C++` files.
#[derive(Debug, Default)]
pub struct PreprocResults {
    /// The preprocessor data of each `C/C++` file, by its path
    pub files: Vec<(String, PreprocFile)>,
}

/// The texts of a list of strings.
pub open spec fn texts(v: Seq<String>) -> Seq<Seq<char>> {
    v.map_values(|s: String| s@)
}

/// The set of texts a list of strings holds.
pub open spec fn names(v: Seq<String>) -> Set<Seq<char>> {
    texts(v).to_set()
}

/// The texts of a list of string slices.
pub open spec fn slice_texts(v: Seq<&str>) -> Seq<Seq<char>> {
    v.map_values(|s: &str| s@)
}

/// The data of the first file listed under `path`.
pub open spec fn lookup(files: Seq<(String, PreprocFile)>, path: Seq<char>) -> Option<PreprocFile>
    decreases files.len(),
{
    if files.len() == 0 {
        None
    } else if files[0].0@ == path {
        Some(files[0].1)
    } else {
        lookup(files.drop_first(), path)
    }
}

/// The macros of the files in `paths` that are listed in `files`.
pub open spec fn macros_of_all(paths: Seq<String>, files: Seq<(String, PreprocFile)>) -> Set<
    Seq<char>,
>
    decreases paths.len(),
{
    if paths.len() == 0 {
        Set::empty()
    } else {
        macros_of_all(paths.drop_last(), files).union(
            match lookup(files, paths.last()@) {
                Some(pf) => names(pf.macros@),
                None => Set::empty(),
            },
        )
    }
}

/// The macros of a file: its own, and those of the files drawn into it.
pub open spec fn macros_of(file: Seq<char>, files: Seq<(String, PreprocFile)>) -> Set<Seq<char>> {
    match lookup(files, file) {
        Some(pf) => names(pf.macros@).union(macros_of_all(pf.indirect_includes@, files)),
        None => Set::empty(),
    }
}

/// Tells whether the list holds the text `s`.
fn holds(v: &Vec<String>, s: &str) -> (r: bool)
    ensures
        r == names(v@).contains(s@),
{
    let n = v.len();
    let mut j: usize = 0;
    while j < n
        invariant
            n == v@.len(),
            j <= n,
            forall|i: int| 0 <= i < j ==> texts(v@)[i] != s@,
        decreases n - j,
    {
        if str_eq(v[j].as_str(), s) {
            assert(texts(v@)[j as int] == s@);
            return true;
        }
        j += 1;
    }
    false
}

/// Adds the text `s` to the list unless it holds it.
fn put(v: &mut Vec<String>, s: &str)
    ensures
        names(final(v)@) == names(old(v)@).insert(s@),
        texts(old(v)@).no_duplicates() ==> texts(final(v)@).no_duplicates(),
{
    if !holds(v, s) {
        proof {
            texts(v@).lemma_push_to_set_commute(s@);
        }
        let ghost before = v@;
        v.push(s.to_owned());
        assert(texts(v@) =~= texts(before).push(s@));
        assert forall|i: int| 0 <= i < before.len() implies texts(before)[i] != s@ by {
            assert(names(before).contains(texts(before)[i]));
        }
    } else {
        assert(names(v@).insert(s@) =~= names(v@));
    }
}

/// Adds every text of `src` to `dst`.
fn add_all(dst: &mut Vec<String>, src: &Vec<String>)
    ensures
        names(final(dst)@) == names(old(dst)@).union(names(src@)),
        texts(old(dst)@).no_duplicates() ==> texts(final(dst)@).no_duplicates(),
{
    let n = src.len();
    let mut j: usize = 0;
    assert(names(src@.take(0)) =~= Set::<Seq<char>>::empty());
    assert(names(dst@).union(names(src@.take(0))) =~= names(dst@));
    while j < n
        invariant
            n == src@.len(),
            j <= n,
            texts(old(dst)@).no_duplicates() ==> texts(dst@).no_duplicates(),
            names(dst@) == names(old(dst)@).union(names(src@.take(j as int))),
        decreases n - j,
    {
        proof {
            assert(texts(src@.take(j + 1)) =~= texts(src@.take(j as int)).push(src@[j as int]@));
            texts(src@.take(j as int)).lemma_push_to_set_commute(src@[j as int]@);
            assert(names(old(dst)@).union(names(src@.take(j as int))).insert(src@[j as int]@)
                =~= names(old(dst)@).union(names(src@.take(j + 1))));
        }
        put(dst, src[j].as_str());
        j += 1;
    }
    assert(src@.take(n as int) =~= src@);
}

/// Finds the data of the first file listed under `path`.
fn find<'a>(files: &'a Vec<(String, PreprocFile)>, path: &str) -> (r: Option<&'a PreprocFile>)
    ensures
        r is Some <==> lookup(files@, path@) is Some,
        r is Some ==> *r->0 == lookup(files@, path@)->0,
{
    let n = files.len();
    let mut j: usize = 0;
    assert(files@.skip(0) =~= files@);
    while j < n
        invariant
            n == files@.len(),
            j <= n,
            lookup(files@.skip(j as int), path@) == lookup(files@, path@),
        decreases n - j,
    {
        if str_eq(files[j].0.as_str(), path) {
            return Some(&files[j].1);
        }
        assert(files@.skip(j as int).drop_first() =~= files@.skip(j + 1));
        j += 1;
    }
    None
}

impl PreprocFile {
    /// Adds new macros to the set of macro of a file: each name is kept once.
    pub fn new_macros(macros: &[&str]) -> (pf: Self)
        ensures
            names(pf.macros@) == slice_texts(macros@).to_set(),
            texts(pf.macros@).no_duplicates(),
            pf.direct_includes@.len() == 0,
            pf.indirect_includes@.len() == 0,
    {
        let mut pf = PreprocFile {
            direct_includes: Vec::new(),
            indirect_includes: Vec::new(),
            macros: Vec::new(),
        };
        let n = macros.len();
        let mut j: usize = 0;
        assert(names(pf.macros@) =~= slice_texts(macros@.take(0)).to_set());
        while j < n
            invariant
                n == macros@.len(),
                j <= n,
                pf.direct_includes@.len() == 0,
                pf.indirect_includes@.len() == 0,
                texts(pf.macros@).no_duplicates(),
                names(pf.macros@) == slice_texts(macros@.take(j as int)).to_set(),
            decreases n - j,
        {
            proof {
                assert(slice_texts(macros@.take(j + 1)) =~= slice_texts(
                    macros@.take(j as int),
                ).push(macros@[j as int]@));
                slice_texts(macros@.take(j as int)).lemma_push_to_set_commute(macros@[j as int]@);
            }
            put(&mut pf.macros, macros[j]);
            j += 1;
        }
        assert(macros@.take(n as int) =~= macros@);
        pf
    }
}

/// Returns the macros contained in a `C/C++` file, each once.
pub fn get_macros(file: &str, files: &Vec<(String, PreprocFile)>) -> (macros: Vec<String>)
    ensures
        names(macros@) == macros_of(file@, files@),
        texts(macros@).no_duplicates(),
{
    let mut macros: Vec<String> = Vec::new();
    assert(names(macros@) =~= Set::<Seq<char>>::empty());
    match find(files, file) {
        Some(pf) => {
            add_all(&mut macros, &pf.macros);
            assert(names(macros@) =~= names(pf.macros@));
            let n = pf.indirect_includes.len();
            let mut j: usize = 0;
            assert(names(macros@).union(macros_of_all(pf.indirect_includes@.take(0), files@))
                =~= names(macros@));
            while j < n
                invariant
                    n == pf.indirect_includes@.len(),
                    j <= n,
                    texts(macros@).no_duplicates(),
                    names(macros@) == names(pf.macros@).union(
                        macros_of_all(pf.indirect_includes@.take(j as int), files@),
                    ),
                decreases n - j,
            {
                proof {
                    assert(pf.indirect_includes@.take(j + 1).drop_last()
                        =~= pf.indirect_includes@.take(j as int));
                }
                let ghost before = names(macros@);
                match find(files, pf.indirect_includes[j].as_str()) {
                    Some(other) => {
                        add_all(&mut macros, &other.macros);
                    },
                    None => {},
                }
                proof {
                    let extra = match lookup(files@, pf.indirect_includes@[j as int]@) {
                        Some(o) => names(o.macros@),
                        None => Set::<Seq<char>>::empty(),
                    };
                    assert(names(macros@) =~= before.union(extra));
                    assert(before.union(extra) =~= names(pf.macros@).union(
                        macros_of_all(pf.indirect_includes@.take(j + 1), files@),
                    ));
                }
                j += 1;
            }
            assert(pf.indirect_includes@.take(n as int) =~= pf.indirect_includes@);
        },
        None => {},
    }
    macros
}

/// The texts of a list of links.
pub open spec fn link_texts(links: Seq<(String, String)>) -> Seq<(Seq<char>, Seq<char>)> {
    links.map_values(|l: (String, String)| (l.0@, l.1@))
}

/// Whether a list of names leads from its first to its last along the links.
pub open spec fn follows(links: Seq<(Seq<char>, Seq<char>)>, path: Seq<Seq<char>>) -> bool {
    &&& path.len() >= 1
    &&& forall|i: int| 0 <= i < path.len() - 1 ==> links.contains((#[trigger] path[i], path[i + 1]))
}

/// The names that can be reached from `start` along the links, `start` among them.
pub open spec fn reachable_through(links: Seq<(Seq<char>, Seq<char>)>, start: Seq<char>) -> Set<
    Seq<char>,
> {
    Set::new(
        |x: Seq<char>|
            exists|path: Seq<Seq<char>>|
                #[trigger] follows(links, path) && path[0] == start && path.last() == x,
    )
}

/// Walks a graph of names with `petgraph`: `DiGraphMap::from_edges` builds
/// the graph of the links, and `Dfs` visits what can be reached from
/// `start`, each node once and `start` first. The result holds the names
/// that can be reached along the links.
#[verifier::external_body]
fn reach(links: &Vec<(String, String)>, start: &str) -> (r: Vec<String>)
    ensures
        names(r@) == reachable_through(link_texts(links@), start@),
{
    let g = petgraph::graphmap::DiGraphMap::<&str, ()>::from_edges(
        links.iter().map(|l| (l.0.as_str(), l.1.as_str())),
    );
    petgraph::visit::Dfs::new(&g, start).iter(&g).map(|n| n.to_owned()).collect()
}

/// The files an include directive may stand for: those listed under it.
pub open spec fn found_files(all_files: Seq<(String, Vec<String>)>, name: Seq<char>) -> Seq<String>
    decreases all_files.len(),
{
    if all_files.len() == 0 {
        Seq::empty()
    } else if all_files[0].0@ == name {
        all_files[0].1@
    } else {
        found_files(all_files.drop_first(), name)
    }
}

/// The links from a file to the files one of its include directives may
/// stand for, the file itself left out.
pub open spec fn include_links(file: Seq<char>, found: Seq<String>) -> Seq<(Seq<char>, Seq<char>)>
    decreases found.len(),
{
    if found.len() == 0 {
        Seq::empty()
    } else {
        let rest = include_links(file, found.drop_last());
        if found.last()@ != file {
            rest.push((file, found.last()@))
        } else {
            rest
        }
    }
}

/// The links from a file to the files its include directives may stand for.
pub open spec fn file_links(
    file: Seq<char>,
    includes: Seq<String>,
    all_files: Seq<(String, Vec<String>)>,
) -> Seq<(Seq<char>, Seq<char>)>
    decreases includes.len(),
{
    if includes.len() == 0 {
        Seq::empty()
    } else {
        file_links(file, includes.drop_last(), all_files) + include_links(
            file,
            found_files(all_files, includes.last()@),
        )
    }
}

/// The links from every file to the files its include directives may stand for.
pub open spec fn all_links(
    files: Seq<(String, PreprocFile)>,
    all_files: Seq<(String, Vec<String>)>,
) -> Seq<(Seq<char>, Seq<char>)>
    decreases files.len(),
{
    if files.len() == 0 {
        Seq::empty()
    } else {
        all_links(files.drop_last(), all_files) + file_links(
            files.last().0@,
            files.last().1.direct_includes@,
            all_files,
        )
    }
}

/// The files drawn into the file `name`: the file itself, and every file
/// that can be reached from it through include directives, the members of
/// a cycle among them.
pub open spec fn reachable(
    files: Seq<(String, PreprocFile)>,
    all_files: Seq<(String, Vec<String>)>,
    name: Seq<char>,
) -> Set<Seq<char>> {
    reachable_through(all_links(files, all_files), name)
}

/// Finds the list of the files an include directive may stand for.
fn find_files(all_files: &Vec<(String, Vec<String>)>, name: &str) -> (r: Option<usize>)
    ensures
        r is Some ==> r->0 < all_files@.len() && all_files@[r->0 as int].1@ == found_files(
            all_files@,
            name@,
        ),
        r is None ==> found_files(all_files@, name@) == Seq::<String>::empty(),
{
    let n = all_files.len();
    let mut j: usize = 0;
    assert(all_files@.skip(0) =~= all_files@);
    while j < n
        invariant
            n == all_files@.len(),
            j <= n,
            found_files(all_files@.skip(j as int), name@) == found_files(all_files@, name@),
        decreases n - j,
    {
        assert(all_files@.skip(j as int)[0] == all_files@[j as int]);
        if str_eq(all_files[j].0.as_str(), name) {
            return Some(j);
        }
        assert(all_files@.skip(j as int).drop_first() =~= all_files@.skip(j + 1));
        j += 1;
    }
    None
}

/// Adds the links from a file to the files one include directive may stand for.
fn push_include_links(links: &mut Vec<(String, String)>, file: &str, found: &Vec<String>)
    ensures
        link_texts(final(links)@) == link_texts(old(links)@) + include_links(file@, found@),
{
    let n = found.len();
    let mut k: usize = 0;
    assert(found@.take(0) =~= Seq::<String>::empty());
    assert(link_texts(links@) + include_links(file@, found@.take(0)) =~= link_texts(links@));
    while k < n
        invariant
            n == found@.len(),
            k <= n,
            link_texts(links@) == link_texts(old(links)@) + include_links(
                file@,
                found@.take(k as int),
            ),
        decreases n - k,
    {
        assert(found@.take(k + 1).drop_last() =~= found@.take(k as int));
        assert(found@.take(k + 1).last() == found@[k as int]);
        if !str_eq(found[k].as_str(), file) {
            let ghost before = link_texts(links@);
            links.push((file.to_owned(), found[k].clone()));
            assert(link_texts(links@) =~= before.push((file@, found@[k as int]@)));
            assert(link_texts(links@) =~= link_texts(old(links)@) + include_links(
                file@,
                found@.take(k + 1),
            ));
        }
        k += 1;
    }
    assert(found@.take(n as int) =~= found@);
}

/// Adds the links from a file to the files its include directives may stand for.
fn push_file_links(
    links: &mut Vec<(String, String)>,
    file: &str,
    includes: &Vec<String>,
    all_files: &Vec<(String, Vec<String>)>,
)
    ensures
        link_texts(final(links)@) == link_texts(old(links)@) + file_links(
            file@,
            includes@,
            all_files@,
        ),
{
    let n = includes.len();
    let mut j: usize = 0;
    assert(includes@.take(0) =~= Seq::<String>::empty());
    assert(link_texts(links@) + file_links(file@, includes@.take(0), all_files@) =~= link_texts(
        links@,
    ));
    while j < n
        invariant
            n == includes@.len(),
            j <= n,
            link_texts(links@) == link_texts(old(links)@) + file_links(
                file@,
                includes@.take(j as int),
                all_files@,
            ),
        decreases n - j,
    {
        assert(includes@.take(j + 1).drop_last() =~= includes@.take(j as int));
        assert(includes@.take(j + 1).last() == includes@[j as int]);
        let ghost before = link_texts(links@);
        let ghost more = include_links(file@, found_files(all_files@, includes@[j as int]@));
        match find_files(all_files, includes[j].as_str()) {
            Some(at) => {
                push_include_links(links, file, &all_files[at].1);
            },
            None => {
                assert(before + more =~= before);
            },
        }
        assert(link_texts(links@) =~= link_texts(old(links)@) + (file_links(
            file@,
            includes@.take(j as int),
            all_files@,
        ) + more));
        j += 1;
    }
    assert(includes@.take(n as int) =~= includes@);
}

/// Lists the links from every file to the files its include directives may stand for.
fn build_links(files: &Vec<(String, PreprocFile)>, all_files: &Vec<(String, Vec<String>)>) -> (links:
    Vec<(String, String)>)
    ensures
        link_texts(links@) == all_links(files@, all_files@),
{
    let mut links: Vec<(String, String)> = Vec::new();
    let n = files.len();
    let mut i: usize = 0;
    assert(files@.take(0) =~= Seq::<(String, PreprocFile)>::empty());
    assert(link_texts(links@) =~= all_links(files@.take(0), all_files@));
    while i < n
        invariant
            n == files@.len(),
            i <= n,
            link_texts(links@) == all_links(files@.take(i as int), all_files@),
        decreases n - i,
    {
        assert(files@.take(i + 1).drop_last() =~= files@.take(i as int));
        assert(files@.take(i + 1).last() == files@[i as int]);
        push_file_links(&mut links, files[i].0.as_str(), &files[i].1.direct_includes, all_files);
        i += 1;
    }
    assert(files@.take(n as int) =~= files@);
    links
}

/// Constructs a dependency graph of the include directives
/// in a `C/C++` file, and adds to every file the files drawn into it: the
/// file itself, and every file that can be reached from it through include
/// directives.
pub fn fix_includes(files: &mut Vec<(String, PreprocFile)>, all_files: &Vec<(String, Vec<String>)>)
    ensures
        final(files)@.len() == old(files)@.len(),
        forall|i: int|
            0 <= i < old(files)@.len() ==> {
                &&& (#[trigger] final(files)@[i]).0@ == old(files)@[i].0@
                &&& final(files)@[i].1.macros@ == old(files)@[i].1.macros@
                &&& final(files)@[i].1.direct_includes@ == old(files)@[i].1.direct_includes@
                &&& names(final(files)@[i].1.indirect_includes@) == names(
                    old(files)@[i].1.indirect_includes@,
                ).union(reachable(old(files)@, all_files@, old(files)@[i].0@))
                &&& (texts(old(files)@[i].1.indirect_includes@).no_duplicates() ==> texts(
                    final(files)@[i].1.indirect_includes@,
                ).no_duplicates())
            },
{
    let links = build_links(files, all_files);
    let n = files.len();
    let mut i: usize = 0;
    while i < n
        invariant
            n == files@.len(),
            n == old(files)@.len(),
            i <= n,
            link_texts(links@) == all_links(old(files)@, all_files@),
            forall|k: int| i <= k < n ==> files@[k] == old(files)@[k],
            forall|k: int|
                0 <= k < i ==> {
                    &&& (#[trigger] files@[k]).0@ == old(files)@[k].0@
                    &&& files@[k].1.macros@ == old(files)@[k].1.macros@
                    &&& files@[k].1.direct_includes@ == old(files)@[k].1.direct_includes@
                    &&& names(files@[k].1.indirect_includes@) == names(
                        old(files)@[k].1.indirect_includes@,
                    ).union(reachable(old(files)@, all_files@, old(files)@[k].0@))
                    &&& (texts(old(files)@[k].1.indirect_includes@).no_duplicates() ==> texts(
                        files@[k].1.indirect_includes@,
                    ).no_duplicates())
                },
        decreases n - i,
    {
        let drawn = reach(&links, files[i].0.as_str());
        let ghost before = files@;
        add_all(&mut files[i].1.indirect_includes, &drawn);
        assert(files@.len() == before.len());
        i += 1;
    }
}

/// Does nothing: none of the supported languages has a preprocessor.
pub fn preprocess(_path: &str, _results: &mut PreprocResults)
    ensures
        *final(_results) == *old(_results),
{
}

} // verus!
