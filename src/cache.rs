//! On-disk layout of one version's language-server bundle.
use vstd::prelude::*;

verus! {

/// The directory under which every cached version has its own directory.
pub open spec fn cache_namespace() -> Seq<char> {
    "lsp-cache"@
}

/// `<namespace>/<version>`: the directory owned by one version.
pub open spec fn cache_root_of(version: Seq<char>) -> Seq<char> {
    cache_namespace() + "/"@ + version
}

/// The directory into which the bundle is unpacked.
pub open spec fn target_dir_of(version: Seq<char>) -> Seq<char> {
    cache_root_of(version) + "/dist"@
}

/// The entry script of the bundle, relative to the working directory.
pub open spec fn script_path_of(version: Seq<char>) -> Seq<char> {
    target_dir_of(version) + "/start-server.js"@
}

/// `base` joined with the relative path `rel`, as a path join writes it.
pub open spec fn join_path(base: Seq<char>, rel: Seq<char>) -> Seq<char> {
    if base.len() == 0 {
        rel
    } else if base.last() == '/' {
        base + rel
    } else {
        base + "/"@ + rel
    }
}

/// The directories that cleanup removes, in listing order: the directory of
/// every listed version other than `current`.
pub open spec fn stale_dirs(current: Seq<char>, names: Seq<Seq<char>>) -> Seq<Seq<char>>
    decreases names.len(),
{
    if names.len() == 0 {
        Seq::empty()
    } else {
        let rest = stale_dirs(current, names.drop_last());
        if names.last() == current {
            rest
        } else {
            rest.push(cache_root_of(names.last()))
        }
    }
}

/// The views of a list of strings.
pub open spec fn views_of(v: Seq<String>) -> Seq<Seq<char>> {
    v.map_values(|s: String| s@)
}

/// Distinct versions own distinct directories.
pub proof fn lemma_cache_root_injective(a: Seq<char>, b: Seq<char>)
    requires
        cache_root_of(a) == cache_root_of(b),
    ensures
        a == b,
{
    let p = cache_namespace() + "/"@;
    assert(cache_root_of(a).subrange(p.len() as int, cache_root_of(a).len() as int) =~= a);
    assert(cache_root_of(b).subrange(p.len() as int, cache_root_of(b).len() as int) =~= b);
}

/// The unpack directory and the entry script are functions of the version
/// alone: two caches of one version agree on both, whatever else differs.
pub proof fn lemma_paths_depend_on_version_only(a: Cache, b: Cache)
    requires
        a.version() == b.version(),
    ensures
        target_dir_of(a.version()) == target_dir_of(b.version()),
        script_path_of(a.version()) == script_path_of(b.version()),
{
}

/// Cleanup selects the directory of every listed version but the current
/// one, and nothing else: never the current version's own directory.
pub proof fn lemma_cleanup_spares_current(current: Seq<char>, names: Seq<Seq<char>>)
    ensures
        !stale_dirs(current, names).contains(cache_root_of(current)),
        forall|n: Seq<char>| #[trigger] names.contains(n) && n != current ==> stale_dirs(current, names).contains(cache_root_of(n)),
        forall|x: Seq<char>| #[trigger] stale_dirs(current, names).contains(x) ==> exists|n: Seq<char>|
            #[trigger] names.contains(n) && n != current && x == cache_root_of(n),
    decreases names.len(),
{
    if names.len() > 0 {
        let init = names.drop_last();
        let last = names.last();
        lemma_cleanup_spares_current(current, init);
        let rest = stale_dirs(current, init);
        assert(names =~= init.push(last));
        assert forall|n: Seq<char>| #[trigger] names.contains(n) && n != current implies stale_dirs(current, names).contains(cache_root_of(n)) by {
            let k = choose|k: int| 0 <= k < names.len() && names[k] == n;
            let r = cache_root_of(n);
            if k < init.len() {
                assert(init[k] == n);
                assert(init.contains(n));
                assert(rest.contains(r));
                let j = choose|j: int| 0 <= j < rest.len() && rest[j] == r;
                if last != current {
                    assert(rest.push(cache_root_of(last))[j] == r);
                }
            } else {
                assert(n == last);
                assert(rest.push(cache_root_of(last))[rest.len() as int] == r);
            }
        }
        assert forall|x: Seq<char>| #[trigger] stale_dirs(current, names).contains(x) implies exists|n: Seq<char>|
            #[trigger] names.contains(n) && n != current && x == cache_root_of(n) by {
            if rest.contains(x) {
                let n = choose|n: Seq<char>| #[trigger] init.contains(n) && n != current && x == cache_root_of(n);
                let k = choose|k: int| 0 <= k < init.len() && init[k] == n;
                assert(names[k] == n);
                assert(names.contains(n));
            } else {
                assert(last != current && x == cache_root_of(last));
                assert(names[names.len() - 1] == last);
                assert(names.contains(last));
            }
        }
        if stale_dirs(current, names).contains(cache_root_of(current)) {
            let n = choose|n: Seq<char>| #[trigger] names.contains(n) && n != current && cache_root_of(current) == cache_root_of(n);
            lemma_cache_root_injective(current, n);
        }
    }
}

/// The cache of one language-server version.
pub struct Cache {
    lsp_version: String,
    version_dir: String,
    work_dir: String,
}

impl Cache {
    #[verifier::type_invariant]
    spec fn layout(self) -> bool {
        self.version_dir@ == cache_root_of(self.lsp_version@)
    }

    /// The version this cache holds.
    pub closed spec fn version(&self) -> Seq<char> {
        self.lsp_version@
    }

    /// The working directory against which absolute paths are formed.
    pub closed spec fn work_dir(&self) -> Seq<char> {
        self.work_dir@
    }

    /// The cache of `lsp_version`, with absolute paths formed under `work_dir`
    /// (an empty `work_dir` leaves them relative).
    pub fn new(lsp_version: &str, work_dir: String) -> (r: Cache)
        ensures
            r.version() == lsp_version@,
            r.work_dir() == work_dir@,
    {
        let mut version_dir = String::from_str("lsp-cache");
        version_dir.append("/");
        version_dir.append(lsp_version);
        Cache { lsp_version: String::from_str(lsp_version), version_dir, work_dir }
    }

    /// The directory owned by this version.
    pub fn version_dir(&self) -> (r: &str)
        ensures
            r@ == cache_root_of(self.version()),
    {
        proof {
            use_type_invariant(self);
        }
        self.version_dir.as_str()
    }

    /// The directory under which all versions live.
    pub fn namespace_dir(&self) -> (r: String)
        ensures
            r@ == cache_namespace(),
    {
        String::from_str("lsp-cache")
    }

    /// The directory the fetched archive is unpacked into.
    pub fn target_dir(&self) -> (r: String)
        ensures
            r@ == target_dir_of(self.version()),
    {
        let mut s = String::from_str(self.version_dir());
        s.append("/dist");
        s
    }

    /// The entry script, relative to the working directory.
    pub fn relative_server_path(&self) -> (r: String)
        ensures
            r@ == script_path_of(self.version()),
    {
        let mut s = self.target_dir();
        s.append("/start-server.js");
        s
    }

    /// The entry script, joined to the working directory.
    pub fn server_path(&self) -> (r: String)
        ensures
            r@ == join_path(self.work_dir(), script_path_of(self.version())),
    {
        let rel = self.relative_server_path();
        let n = self.work_dir.as_str().unicode_len();
        if n == 0 {
            rel
        } else if self.work_dir.as_str().get_char(n - 1) == '/' {
            let mut s = self.work_dir.clone();
            s.append(rel.as_str());
            s
        } else {
            let mut s = self.work_dir.clone();
            s.append("/");
            s.append(rel.as_str());
            s
        }
    }

    /// The cached build, given whether the entry script is a regular file
    /// right now: its path if it is, else nothing.
    pub fn find_cached_build(&self, script_is_file: bool) -> (r: Option<String>)
        ensures
            script_is_file ==> (r matches Some(p) && p@ == join_path(self.work_dir(), script_path_of(self.version()))),
            !script_is_file ==> r is None,
    {
        if script_is_file {
            Some(self.server_path())
        } else {
            None
        }
    }

    /// Given the names listed under the namespace directory, the directories
    /// to remove: every listed version but this one.
    pub fn cleanup_old_versions(&self, names: &Vec<String>) -> (r: Vec<String>)
        ensures
            views_of(r@) == stale_dirs(self.version(), views_of(names@)),
    {
        let mut out: Vec<String> = Vec::new();
        let mut i: usize = 0;
        while i < names.len()
            invariant
                i <= names@.len(),
                views_of(out@) == stale_dirs(self.version(), views_of(names@).take(i as int)),
            decreases names@.len() - i,
        {
            let name = &names[i];
            proof {
                let all = views_of(names@);
                assert(all.take(i as int + 1).drop_last() =~= all.take(i as int));
                assert(all.take(i as int + 1).last() == name@);
            }
            if name.eq(&self.lsp_version) {
            } else {
                let mut dir = String::from_str("lsp-cache");
                dir.append("/");
                dir.append(name.as_str());
                out.push(dir);
                assert(views_of(out@) =~= views_of(out@.drop_last()).push(dir@));
            }
            i = i + 1;
        }
        assert(views_of(names@).take(names@.len() as int) =~= views_of(names@));
        out
    }
}

} // verus!
