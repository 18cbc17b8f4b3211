//! Filesystem paths of the launcher. A path is a `String` with `/` as the
//! separator (accepted by every supported platform); joining follows
//! `PathBuf::push`: an absolute part replaces the base, otherwise a
//! separator is inserted unless the base is empty or already ends in one.
//! Taking a path apart follows `Path::components`: repeated separators and
//! `.` components after the first are skipped, and a final `..` has no file
//! name.

use vstd::prelude::*;
use crate::text;

verus! {

/// `base` joined with `part`.
pub open spec fn path_join(base: Seq<char>, part: Seq<char>) -> Seq<char> {
    if part.len() > 0 && part[0] == '/' {
        part
    } else if base.len() == 0 || base.last() == '/' {
        base + part
    } else {
        base + seq!['/'] + part
    }
}

/// Joins `part` onto `base`.
pub fn join(base: &str, part: &str) -> (r: String)
    ensures
        r@ == path_join(base@, part@),
{
    let b = text::chars_of(base);
    let p = text::chars_of(part);
    proof {
        reveal_strlit("/");
    }
    if p.len() > 0 && p[0] == '/' {
        text::owned(part)
    } else if b.len() == 0 || b[b.len() - 1] == '/' {
        text::concat2(base, part)
    } else {
        text::concat3(base, "/", part)
    }
}

/// Index of the last `c` in `s`, if any.
pub open spec fn last_index_of(s: Seq<char>, c: char) -> Option<int>
    decreases s.len(),
{
    if s.len() == 0 {
        None
    } else if s.last() == c {
        Some(s.len() - 1)
    } else {
        last_index_of(s.drop_last(), c)
    }
}

/// `p` without trailing separators.
pub open spec fn strip_trailing_slashes(p: Seq<char>) -> Seq<char>
    decreases p.len(),
{
    if p.len() > 0 && p.last() == '/' {
        strip_trailing_slashes(p.drop_last())
    } else {
        p
    }
}

/// Where the components of `p` start: after a root `/`, or after a leading
/// `.` component (which `Path::components` keeps as the current folder).
pub open spec fn body_start(p: Seq<char>) -> int {
    if p.len() > 0 && p[0] == '/' {
        1
    } else if p.len() > 0 && p[0] == '.' && (p.len() == 1 || p[1] == '/') {
        1
    } else {
        0
    }
}

/// `p` without trailing separators and trailing `.` components, as
/// `Components::as_path` gives it back (a root or a leading `.` stays).
pub open spec fn trim_path(p: Seq<char>) -> Seq<char>
    decreases p.len(),
{
    if p.len() > body_start(p) && p.last() == '/' {
        trim_path(p.drop_last())
    } else if p.len() > body_start(p) && p.last() == '.' && (p.len() - 1 == body_start(p) || p[p.len()
        - 2] == '/') {
        trim_path(p.drop_last())
    } else {
        p
    }
}

/// The separator before the last component of a trimmed path, if there is
/// one after the root or leading `.`.
pub open spec fn last_sep(t: Seq<char>) -> Option<int> {
    match last_index_of(t, '/') {
        Some(k) => if k >= body_start(t) {
            Some(k)
        } else {
            None
        },
        None => None,
    }
}

/// The last component of a trimmed path (empty when it has none).
pub open spec fn last_component(t: Seq<char>) -> Seq<char> {
    match last_sep(t) {
        Some(k) => t.subrange(k + 1, t.len() as int),
        None => t.subrange(body_start(t), t.len() as int),
    }
}

/// The directory that holds `p` (`Path::parent`; empty where that gives
/// `None` or an empty path).
pub open spec fn parent_dir(p: Seq<char>) -> Seq<char> {
    let t = trim_path(p);
    if t.len() == body_start(t) {
        seq![]
    } else {
        match last_sep(t) {
            Some(k) => trim_path(t.subrange(0, k)),
            None => t.subrange(0, body_start(t)),
        }
    }
}

/// The final component of `p` (`Path::file_name`; empty where that gives
/// `None`, as for a path ending in `..`).
pub open spec fn file_name(p: Seq<char>) -> Seq<char> {
    let c = last_component(trim_path(p));
    if c == ".."@ {
        seq![]
    } else {
        c
    }
}

/// A file name that joins as one component: not empty, no separator, not
/// `.` or `..`.
pub open spec fn plain_name(n: Seq<char>) -> bool {
    &&& n.len() > 0
    &&& forall|i: int| 0 <= i < n.len() ==> #[trigger] n[i] != '/'
    &&& n != "."@
    &&& n != ".."@
}

/// Trimming a trimmed path changes nothing.
pub proof fn lemma_trim_idem(p: Seq<char>)
    ensures
        trim_path(trim_path(p)) == trim_path(p),
        trim_path(p).len() <= p.len(),
        trim_path(p) == p.subrange(0, trim_path(p).len() as int),
    decreases p.len(),
{
    if p.len() > body_start(p) && p.last() == '/' {
        lemma_trim_idem(p.drop_last());
    } else if p.len() > body_start(p) && p.last() == '.' && (p.len() - 1 == body_start(p) || p[p.len()
        - 2] == '/') {
        lemma_trim_idem(p.drop_last());
    }
}

/// The last component of a trimmed path holds no separator.
pub proof fn lemma_component_no_sep(t: Seq<char>)
    ensures
        forall|i: int|
            0 <= i < last_component(t).len() ==> #[trigger] last_component(t)[i] != '/',
{
    lemma_last_index(t, '/');
    match last_sep(t) {
        Some(k) => {
            assert forall|i: int| 0 <= i < last_component(t).len() implies #[trigger] last_component(
                t,
            )[i] != '/' by {
                assert(last_component(t)[i] == t[k + 1 + i]);
            }
        },
        None => {
            assert forall|i: int| 0 <= i < last_component(t).len() implies #[trigger] last_component(
                t,
            )[i] != '/' by {
                assert(last_component(t)[i] == t[body_start(t) + i]);
            }
        },
    }
}

/// The folder of a path is a trimmed path.
pub proof fn lemma_parent_trimmed(p: Seq<char>)
    ensures
        trim_path(parent_dir(p)) == parent_dir(p),
{
    let t = trim_path(p);
    if t.len() == body_start(t) {
        assert(trim_path(Seq::<char>::empty()) == Seq::<char>::empty());
    } else {
        match last_sep(t) {
            Some(k) => {
                lemma_trim_idem(t.subrange(0, k));
            },
            None => {
                let r = t.subrange(0, body_start(t));
                assert(body_start(r) == r.len());
            },
        }
    }
}

/// Joining a plain file name onto a folder and taking the result apart
/// again gives the name and the trimmed folder back.
pub proof fn lemma_join_plain(b: Seq<char>, n: Seq<char>)
    requires
        plain_name(n),
    ensures
        file_name(path_join(b, n)) == n,
        parent_dir(path_join(b, n)) == trim_path(b),
{
    reveal_strlit(".");
    reveal_strlit("..");
    let j = path_join(b, n);
    let off: int = j.len() - n.len();
    if b.len() == 0 {
        assert(j =~= n);
    } else if b.last() == '/' {
        assert(j =~= b + n);
    } else {
        assert(j =~= b + seq!['/'] + n);
    }
    assert forall|i: int| 0 <= i < n.len() implies j[off + i] == n[i] by {}
    // The joined path is already trimmed.
    assert(j.last() == n.last());
    if n.len() == 1 {
        assert(n[0] != '.') by {
            if n[0] == '.' {
                assert(n =~= "."@);
            }
        }
    }
    assert(trim_path(j) == j) by {
        if j.len() > body_start(j) && j.last() == '.' && (j.len() - 1 == body_start(j) || j[j.len()
            - 2] == '/') {
            if j.len() - 1 == body_start(j) {
                if b.len() == 0 {
                    assert(n.len() == 1);
                }
                assert(n.len() == 1 || j.len() >= 2);
            }
            if n.len() >= 2 {
                assert(j[j.len() - 2] == n[n.len() - 2]);
            } else {
                assert(n =~= "."@);
            }
        }
    }
    lemma_last_index(j, '/');
    if b.len() == 0 {
        assert(body_start(j) == 0) by {
            if n.len() >= 2 && n[0] == '.' {
                assert(n[1] != '/');
            }
        }
        assert(last_index_of(j, '/') is None);
        assert(last_component(j) =~= n);
        assert(parent_dir(j) =~= Seq::<char>::empty());
        assert(trim_path(b) == b);
    } else {
        let k = off - 1;
        assert(j[k] == '/');
        match last_index_of(j, '/') {
            Some(m) => {
                if m > k {
                    assert(j[m] == n[m - off]);
                }
                if m < k {
                    assert(j[k] != '/');
                }
                assert(m == k);
            },
            None => {},
        }
        assert(body_start(j) <= 1);
        assert(j.len() > body_start(j));
        if k == 0 {
            assert(j[0] == '/');
            assert(last_sep(j) is None);
            assert(last_component(j) =~= n);
            assert(b =~= seq!['/']);
            assert(parent_dir(j) =~= seq!['/']);
            assert(body_start(b) == 1);
        } else {
            assert(last_sep(j) == Some(k));
            assert(last_component(j) =~= n);
            let rest = j.subrange(0, k);
            if b.last() == '/' {
                assert(b.drop_last() =~= rest);
                assert(body_start(b) <= 1 && b.len() >= 2);
                assert(trim_path(b) == trim_path(b.drop_last()));
            } else {
                assert(rest =~= b);
            }
        }
    }
}

pub proof fn lemma_last_index(s: Seq<char>, c: char)
    ensures
        match last_index_of(s, c) {
            Some(k) => 0 <= k < s.len() && s[k] == c && forall|j: int| k < j < s.len() ==> s[j]
                != c,
            None => forall|j: int| 0 <= j < s.len() ==> s[j] != c,
        },
    decreases s.len(),
{
    if s.len() > 0 {
        let d = s.drop_last();
        lemma_last_index(d, c);
        if s.last() != c {
            match last_index_of(d, c) {
                Some(k) => {
                    assert(s[k] == d[k]);
                    assert forall|j: int| k < j < s.len() implies s[j] != c by {
                        if j < s.len() - 1 {
                            assert(s[j] == d[j]);
                        }
                    }
                },
                None => {
                    assert forall|j: int| 0 <= j < s.len() implies s[j] != c by {
                        if j < s.len() - 1 {
                            assert(s[j] == d[j]);
                        }
                    }
                },
            }
        }
    }
}

fn find_last(v: &Vec<char>, end: usize, c: char) -> (r: Option<usize>)
    requires
        end <= v@.len(),
    ensures
        match last_index_of(v@.subrange(0, end as int), c) {
            Some(k) => r == Some(k as usize),
            None => r is None,
        },
    decreases end,
{
    if end == 0 {
        return None;
    }
    assert(v@.subrange(0, end as int).drop_last() =~= v@.subrange(0, end - 1));
    if v[end - 1] == c {
        Some(end - 1)
    } else {
        find_last(v, end - 1, c)
    }
}

fn trailing_trim_end(v: &Vec<char>, end: usize) -> (r: usize)
    requires
        end <= v@.len(),
    ensures
        r <= end,
        strip_trailing_slashes(v@.subrange(0, end as int)) == v@.subrange(0, r as int),
    decreases end,
{
    if end > 0 && v[end - 1] == '/' {
        assert(v@.subrange(0, end as int).drop_last() =~= v@.subrange(0, end - 1));
        trailing_trim_end(v, end - 1)
    } else {
        end
    }
}

/// Index of the last `c` in `v`.
pub fn last_index_in(v: &Vec<char>, c: char) -> (r: Option<usize>)
    ensures
        match last_index_of(v@, c) {
            Some(k) => r == Some(k as usize),
            None => r is None,
        },
{
    assert(v@.subrange(0, v@.len() as int) =~= v@);
    find_last(v, v.len(), c)
}

/// `p` without trailing separators (`str::trim_end_matches('/')`).
pub fn trim_trailing_slashes(p: &str) -> (r: String)
    ensures
        r@ == strip_trailing_slashes(p@),
{
    let v = text::chars_of(p);
    let t = trailing_trim_end(&v, v.len());
    assert(v@.subrange(0, v@.len() as int) =~= v@);
    text::slice_string(&v, 0, t)
}

/// Where the components of `v[..end]` start.
fn body_start_in(v: &Vec<char>, end: usize) -> (r: usize)
    requires
        end <= v@.len(),
    ensures
        r as int == body_start(v@.subrange(0, end as int)),
        r <= end,
{
    if end > 0 && v[0] == '/' {
        1
    } else if end > 0 && v[0] == '.' && (end == 1 || v[1] == '/') {
        1
    } else {
        0
    }
}

/// The end of `v[..end]` trimmed.
fn trim_end_in(v: &Vec<char>, end: usize) -> (r: usize)
    requires
        end <= v@.len(),
    ensures
        r <= end,
        trim_path(v@.subrange(0, end as int)) == v@.subrange(0, r as int),
    decreases end,
{
    let bs = body_start_in(v, end);
    let ghost s = v@.subrange(0, end as int);
    if end > bs && v[end - 1] == '/' {
        assert(s.drop_last() =~= v@.subrange(0, end - 1));
        trim_end_in(v, end - 1)
    } else if end > bs && v[end - 1] == '.' && (end - 1 == bs || v[end - 2] == '/') {
        assert(s.drop_last() =~= v@.subrange(0, end - 1));
        trim_end_in(v, end - 1)
    } else {
        end
    }
}

/// The separator before the last component of `v[..t]`.
fn last_sep_in(v: &Vec<char>, t: usize) -> (r: Option<usize>)
    requires
        t <= v@.len(),
    ensures
        match last_sep(v@.subrange(0, t as int)) {
            Some(k) => r == Some(k as usize),
            None => r is None,
        },
{
    let bs = body_start_in(v, t);
    proof {
        lemma_last_index(v@.subrange(0, t as int), '/');
    }
    match find_last(v, t, '/') {
        Some(k) => if k >= bs {
            Some(k)
        } else {
            None
        },
        None => None,
    }
}

/// Where the last component of `v[..t]` starts.
fn component_start(v: &Vec<char>, t: usize) -> (r: usize)
    requires
        t <= v@.len(),
    ensures
        r <= t,
        last_component(v@.subrange(0, t as int)) == v@.subrange(r as int, t as int),
{
    let ghost s = v@.subrange(0, t as int);
    proof {
        lemma_last_index(s, '/');
    }
    match last_sep_in(v, t) {
        Some(k) => {
            assert(s.subrange(k + 1, t as int) =~= v@.subrange(k + 1, t as int));
            k + 1
        },
        None => {
            let bs = body_start_in(v, t);
            assert(s.subrange(bs as int, t as int) =~= v@.subrange(bs as int, t as int));
            bs
        },
    }
}

/// The directory that holds `p`.
pub fn parent(p: &str) -> (r: String)
    ensures
        r@ == parent_dir(p@),
{
    let v = text::chars_of(p);
    let t = trim_end_in(&v, v.len());
    assert(v@.subrange(0, v@.len() as int) =~= v@);
    let bs = body_start_in(&v, t);
    if t == bs {
        return String::new();
    }
    proof {
        lemma_last_index(v@.subrange(0, t as int), '/');
    }
    match last_sep_in(&v, t) {
        Some(k) => {
            assert(v@.subrange(0, t as int).subrange(0, k as int) =~= v@.subrange(0, k as int));
            let e = trim_end_in(&v, k);
            text::slice_string(&v, 0, e)
        },
        None => {
            assert(v@.subrange(0, t as int).subrange(0, bs as int) =~= v@.subrange(0, bs as int));
            text::slice_string(&v, 0, bs)
        },
    }
}

/// The final component of `p`.
pub fn file_name_of(p: &str) -> (r: String)
    ensures
        r@ == file_name(p@),
{
    let v = text::chars_of(p);
    let t = trim_end_in(&v, v.len());
    assert(v@.subrange(0, v@.len() as int) =~= v@);
    let start = component_start(&v, t);
    let c = text::slice_string(&v, start, t);
    if text::str_eq(c.as_str(), "..") {
        String::new()
    } else {
        c
    }
}

/// A file name without its extension (`Path::file_stem`): everything before
/// the last `.`, unless that dot starts the name.
pub open spec fn file_stem(name: Seq<char>) -> Seq<char> {
    match last_index_of(name, '.') {
        Some(k) => if k > 0 {
            name.subrange(0, k)
        } else {
            name
        },
        None => name,
    }
}

/// `p` with the extension of its final component set to `ext`
/// (`Path::with_extension` for a non-empty `ext`): the path up to the end of
/// the name's stem, a dot and `ext`; unchanged when `p` has no final
/// component.
pub open spec fn with_extension(p: Seq<char>, ext: Seq<char>) -> Seq<char> {
    let t = trim_path(p);
    let name = file_name(p);
    if name.len() == 0 {
        p
    } else {
        t.subrange(0, t.len() - name.len()) + file_stem(name) + seq!['.'] + ext
    }
}

/// Sets the extension of the final component of `p` to `ext`.
#[verifier::rlimit(50)]
pub fn replace_extension(p: &str, ext: &str) -> (r: String)
    ensures
        r@ == with_extension(p@, ext@),
{
    let v = text::chars_of(p);
    let t = trim_end_in(&v, v.len());
    assert(v@.subrange(0, v@.len() as int) =~= v@);
    let name_start = component_start(&v, t);
    let ghost tv = v@.subrange(0, t as int);
    if name_start == t {
        assert(file_name(p@).len() == 0);
        return text::owned(p);
    }
    let name = text::slice_string(&v, name_start, t);
    if text::str_eq(name.as_str(), "..") {
        return text::owned(p);
    }
    assert(file_name(p@) == v@.subrange(name_start as int, t as int));
    let nv = text::chars_of(name.as_str());
    let stem_end: usize = match find_last(&nv, nv.len(), '.') {
        Some(k) => if k > 0 {
            k
        } else {
            nv.len()
        },
        None => nv.len(),
    };
    proof {
        assert(nv@.subrange(0, nv@.len() as int) =~= nv@);
        lemma_last_index(nv@, '.');
    }
    let mut out = text::slice_string(&v, 0, name_start + stem_end);
    text::push_char(&mut out, '.');
    out.append(ext);
    proof {
        assert(file_stem(nv@) =~= nv@.subrange(0, stem_end as int));
        assert(tv.subrange(0, tv.len() - nv@.len()) =~= v@.subrange(0, name_start as int));
        assert(v@.subrange(0, name_start + stem_end) =~= v@.subrange(0, name_start as int)
            + nv@.subrange(0, stem_end as int));
    }
    assert(out@ =~= with_extension(p@, ext@));
    out
}

/// The root directory of the launcher and every place below it.
#[derive(Debug, Clone)]
pub struct LauncherPaths {
    pub root_dir: String,
}

impl LauncherPaths {
    /// Paths rooted at `root` (the directories are created by the caller).
    pub fn custom(root: &str) -> (r: Self)
        ensures
            r.root_dir@ == root@,
    {
        LauncherPaths { root_dir: text::owned(root) }
    }

    pub fn instances_dir(&self) -> (r: String)
        ensures
            r@ == path_join(self.root_dir@, "instances"@),
    {
        join(self.root_dir.as_str(), "instances")
    }

    pub fn versions_dir(&self) -> (r: String)
        ensures
            r@ == path_join(self.root_dir@, "versions"@),
    {
        join(self.root_dir.as_str(), "versions")
    }

    pub fn assets_dir(&self) -> (r: String)
        ensures
            r@ == path_join(self.root_dir@, "assets"@),
    {
        join(self.root_dir.as_str(), "assets")
    }

    pub fn asset_indexes_dir(&self) -> (r: String)
        ensures
            r@ == path_join(path_join(self.root_dir@, "assets"@), "indexes"@),
    {
        let a = self.assets_dir();
        join(a.as_str(), "indexes")
    }

    pub fn asset_objects_dir(&self) -> (r: String)
        ensures
            r@ == path_join(path_join(self.root_dir@, "assets"@), "objects"@),
    {
        let a = self.assets_dir();
        join(a.as_str(), "objects")
    }

    pub fn libraries_dir(&self) -> (r: String)
        ensures
            r@ == path_join(self.root_dir@, "libraries"@),
    {
        join(self.root_dir.as_str(), "libraries")
    }

    pub fn runtimes_dir(&self) -> (r: String)
        ensures
            r@ == path_join(self.root_dir@, "runtimes"@),
    {
        join(self.root_dir.as_str(), "runtimes")
    }

    pub fn cache_dir(&self) -> (r: String)
        ensures
            r@ == path_join(self.root_dir@, "cache"@),
    {
        join(self.root_dir.as_str(), "cache")
    }

    pub fn logs_dir(&self) -> (r: String)
        ensures
            r@ == path_join(self.root_dir@, "logs"@),
    {
        join(self.root_dir.as_str(), "logs")
    }

    pub fn config_file(&self) -> (r: String)
        ensures
            r@ == path_join(self.root_dir@, "config.json"@),
    {
        join(self.root_dir.as_str(), "config.json")
    }

    pub fn accounts_file(&self) -> (r: String)
        ensures
            r@ == path_join(self.root_dir@, "accounts.json"@),
    {
        join(self.root_dir.as_str(), "accounts.json")
    }

    pub fn instances_file(&self) -> (r: String)
        ensures
            r@ == path_join(self.root_dir@, "instances.json"@),
    {
        join(self.root_dir.as_str(), "instances.json")
    }

    /// Every directory the launcher keeps, in the order they are created:
    /// the root, instances, versions, assets, libraries, runtimes, cache, logs.
    pub fn required_directories(&self) -> (r: Vec<String>)
        ensures
            r@.len() == 8,
            r@[0]@ == self.root_dir@,
            r@[1]@ == path_join(self.root_dir@, "instances"@),
            r@[2]@ == path_join(self.root_dir@, "versions"@),
            r@[3]@ == path_join(self.root_dir@, "assets"@),
            r@[4]@ == path_join(self.root_dir@, "libraries"@),
            r@[5]@ == path_join(self.root_dir@, "runtimes"@),
            r@[6]@ == path_join(self.root_dir@, "cache"@),
            r@[7]@ == path_join(self.root_dir@, "logs"@),
    {
        let mut v: Vec<String> = Vec::new();
        v.push(self.root_dir.clone());
        v.push(self.instances_dir());
        v.push(self.versions_dir());
        v.push(self.assets_dir());
        v.push(self.libraries_dir());
        v.push(self.runtimes_dir());
        v.push(self.cache_dir());
        v.push(self.logs_dir());
        v
    }
}

} // verus!
