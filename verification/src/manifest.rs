//! A package manifest as a TOML tree, and the rewriting applied to it before
//! a build: pruning example and test entries whose file is missing, dropping
//! the parent-workspace link, scrubbing unwanted unstable feature flags, and
//! injecting patch overrides.

use vstd::prelude::*;

verus! {

/// A TOML value. Tables are ordered key/value lists; a key occurs at most
/// once in a well-formed table.
#[derive(Debug, PartialEq)]
pub enum TomlValue {
    /// A string value.
    Str(String),
    /// An integer value.
    Int(i64),
    /// A boolean value.
    Bool(bool),
    /// An array of values.
    Array(Vec<TomlValue>),
    /// A table: ordered key/value pairs.
    Table(Vec<(String, TomlValue)>),
}

/// The mathematical model of a TOML value: strings as character sequences,
/// arrays and tables as sequences.
pub enum TomlModel {
    /// A string value.
    Str(Seq<char>),
    /// An integer value.
    Int(i64),
    /// A boolean value.
    Bool(bool),
    /// An array of values.
    Arr(Seq<TomlModel>),
    /// A table: ordered key/value pairs.
    Tab(Seq<(Seq<char>, TomlModel)>),
}

impl TomlValue {
    /// The model of this value.
    pub open spec fn model(self) -> TomlModel
        decreases self,
    {
        match self {
            TomlValue::Str(s) => TomlModel::Str(s@),
            TomlValue::Int(i) => TomlModel::Int(i),
            TomlValue::Bool(b) => TomlModel::Bool(b),
            TomlValue::Array(items) => TomlModel::Arr(seq_model(items@)),
            TomlValue::Table(entries) => TomlModel::Tab(entries_model(entries@)),
        }
    }
}

/// The models of the values in an array, in order.
pub open spec fn seq_model(items: Seq<TomlValue>) -> Seq<TomlModel>
    decreases items,
{
    if items.len() == 0 {
        Seq::empty()
    } else {
        seq_model(items.subrange(0, items.len() - 1)).push(items[items.len() - 1].model())
    }
}

/// The model of a table's entry list: each key as its character sequence,
/// each value as its model, in order.
pub open spec fn entries_model(entries: Seq<(String, TomlValue)>) -> Seq<(Seq<char>, TomlModel)>
    decreases entries,
{
    if entries.len() == 0 {
        Seq::empty()
    } else {
        entries_model(entries.subrange(0, entries.len() - 1)).push(
            (entries[entries.len() - 1].0@, entries[entries.len() - 1].1.model()),
        )
    }
}

/// `entries_model` maps the list entry by entry.
pub proof fn lemma_entries_model(s: Seq<(String, TomlValue)>)
    ensures
        entries_model(s).len() == s.len(),
        forall|i: int|
            0 <= i < s.len() ==> #[trigger] entries_model(s)[i] == (s[i].0@, s[i].1.model()),
    decreases s.len(),
{
    if s.len() > 0 {
        lemma_entries_model(s.subrange(0, s.len() - 1));
    }
}

/// `seq_model` maps the array element by element.
pub proof fn lemma_seq_model(s: Seq<TomlValue>)
    ensures
        seq_model(s).len() == s.len(),
        forall|i: int| 0 <= i < s.len() ==> #[trigger] seq_model(s)[i] == s[i].model(),
    decreases s.len(),
{
    if s.len() > 0 {
        lemma_seq_model(s.subrange(0, s.len() - 1));
    }
}

/// The value under the first occurrence of key `k`, if any.
pub open spec fn m_get(t: Seq<(Seq<char>, TomlModel)>, k: Seq<char>) -> Option<TomlModel>
    decreases t.len(),
{
    if t.len() == 0 {
        None
    } else if t[0].0 == k {
        Some(t[0].1)
    } else {
        m_get(t.subrange(1, t.len() as int), k)
    }
}

/// Whether the table has an entry under key `k`.
pub open spec fn m_has_key(t: Seq<(Seq<char>, TomlModel)>, k: Seq<char>) -> bool {
    m_get(t, k) is Some
}

/// The table without any entry under key `k`.
pub open spec fn m_remove(t: Seq<(Seq<char>, TomlModel)>, k: Seq<char>) -> Seq<
    (Seq<char>, TomlModel),
>
    decreases t.len(),
{
    if t.len() == 0 {
        t
    } else if t[0].0 == k {
        m_remove(t.subrange(1, t.len() as int), k)
    } else {
        seq![t[0]] + m_remove(t.subrange(1, t.len() as int), k)
    }
}

/// The table with the first entry under key `k` replaced by `v`, or with
/// `(k, v)` appended when the key is absent.
pub open spec fn m_set(t: Seq<(Seq<char>, TomlModel)>, k: Seq<char>, v: TomlModel) -> Seq<
    (Seq<char>, TomlModel),
>
    decreases t.len(),
{
    if t.len() == 0 {
        seq![(k, v)]
    } else if t[0].0 == k {
        seq![(k, v)] + t.subrange(1, t.len() as int)
    } else {
        seq![t[0]] + m_set(t.subrange(1, t.len() as int), k, v)
    }
}

/// The table after setting every pair of `l` in order.
pub open spec fn m_set_all(
    t: Seq<(Seq<char>, TomlModel)>,
    l: Seq<(Seq<char>, TomlModel)>,
) -> Seq<(Seq<char>, TomlModel)>
    decreases l.len(),
{
    if l.len() == 0 {
        t
    } else {
        m_set_all(m_set(t, l[0].0, l[0].1), l.subrange(1, l.len() as int))
    }
}

/// The elements of `items` that satisfy `pred`, in order.
pub open spec fn m_filter(items: Seq<TomlModel>, pred: spec_fn(TomlModel) -> bool) -> Seq<TomlModel>
    decreases items.len(),
{
    if items.len() == 0 {
        items
    } else if pred(items[0]) {
        seq![items[0]] + m_filter(items.subrange(1, items.len() as int), pred)
    } else {
        m_filter(items.subrange(1, items.len() as int), pred)
    }
}

/// When `i` is the first index holding key `k`, `m_get` returns its value.
pub proof fn lemma_m_get_at(t: Seq<(Seq<char>, TomlModel)>, k: Seq<char>, i: int)
    requires
        0 <= i < t.len(),
        t[i].0 == k,
        forall|j: int| 0 <= j < i ==> t[j].0 != k,
    ensures
        m_get(t, k) == Some(t[i].1),
    decreases i,
{
    if i > 0 {
        let tail = t.subrange(1, t.len() as int);
        assert(forall|j: int| 0 <= j < i - 1 ==> tail[j] == t[j + 1] && t[j + 1].0 != k);
        lemma_m_get_at(tail, k, i - 1);
    }
}

/// When no entry holds key `k`, `m_get` returns nothing.
pub proof fn lemma_m_get_none(t: Seq<(Seq<char>, TomlModel)>, k: Seq<char>)
    requires
        forall|j: int| 0 <= j < t.len() ==> t[j].0 != k,
    ensures
        m_get(t, k) is None,
    decreases t.len(),
{
    if t.len() > 0 {
        lemma_m_get_none(t.subrange(1, t.len() as int), k);
    }
}

/// When `i` is the first index holding key `k`, `m_set` updates that entry
/// in place.
pub proof fn lemma_m_set_at(t: Seq<(Seq<char>, TomlModel)>, k: Seq<char>, v: TomlModel, i: int)
    requires
        0 <= i < t.len(),
        t[i].0 == k,
        forall|j: int| 0 <= j < i ==> t[j].0 != k,
    ensures
        m_set(t, k, v) == t.update(i, (k, v)),
    decreases i,
{
    if i == 0 {
        assert(m_set(t, k, v) =~= t.update(0, (k, v)));
    } else {
        let tail = t.subrange(1, t.len() as int);
        assert(forall|j: int| 0 <= j < i - 1 ==> tail[j] == t[j + 1] && t[j + 1].0 != k);
        lemma_m_set_at(tail, k, v, i - 1);
        assert(m_set(t, k, v) =~= t.update(i, (k, v)));
    }
}

/// When key `k` is absent, `m_set` appends the pair.
pub proof fn lemma_m_set_absent(t: Seq<(Seq<char>, TomlModel)>, k: Seq<char>, v: TomlModel)
    requires
        forall|j: int| 0 <= j < t.len() ==> t[j].0 != k,
    ensures
        m_set(t, k, v) == t.push((k, v)),
    decreases t.len(),
{
    if t.len() == 0 {
        assert(m_set(t, k, v) =~= t.push((k, v)));
    } else {
        let tail = t.subrange(1, t.len() as int);
        lemma_m_set_absent(tail, k, v);
        assert(m_set(t, k, v) =~= t.push((k, v)));
    }
}

/// Find the first entry with the given key.
pub fn find_key(entries: &Vec<(String, TomlValue)>, key: &str) -> (r: Option<usize>)
    ensures
        match r {
            Some(i) => 0 <= i < entries@.len() && entries@[i as int].0@ == key@ && forall|j: int|
                0 <= j < i ==> entries@[j].0@ != key@,
            None => forall|j: int| 0 <= j < entries@.len() ==> entries@[j].0@ != key@,
        },
{
    let mut i: usize = 0;
    while i < entries.len()
        invariant
            0 <= i <= entries@.len(),
            forall|j: int| 0 <= j < i ==> entries@[j].0@ != key@,
        decreases entries@.len() - i,
    {
        let e = vstd::std_specs::vec::vec_index(entries, i);
        if crate::text::str_eq(e.0.as_str(), key) {
            return Some(i);
        }
        i += 1;
    }
    None
}

/// Remove every entry under the given key, keeping the order of the rest.
pub fn remove_key(entries: Vec<(String, TomlValue)>, key: &str) -> (r: Vec<(String, TomlValue)>)
    ensures
        entries_model(r@) == m_remove(entries_model(entries@), key@),
{
    let ghost m0 = entries_model(entries@);
    proof {
        lemma_entries_model(entries@);
    }
    let mut rest = entries;
    let mut out: Vec<(String, TomlValue)> = Vec::new();
    proof {
        assert(entries_model(out@) =~= Seq::<(Seq<char>, TomlModel)>::empty());
    }
    while rest.len() > 0
        invariant
            entries_model(out@) + m_remove(entries_model(rest@), key@) == m_remove(m0, key@),
        decreases rest@.len(),
    {
        let ghost rest0 = rest@;
        let e = rest.remove(0);
        proof {
            lemma_entries_model(rest0);
            lemma_entries_model(rest@);
            assert(entries_model(rest@) =~= entries_model(rest0).subrange(
                1,
                entries_model(rest0).len() as int,
            ));
        }
        if crate::text::str_eq(e.0.as_str(), key) {
            proof {
                assert(entries_model(rest0)[0].0 == key@);
            }
        } else {
            let ghost out0 = out@;
            out.push(e);
            proof {
                lemma_entries_model(out0);
                lemma_entries_model(out@);
                assert(entries_model(out@) =~= entries_model(out0).push(entries_model(rest0)[0]));
                assert(entries_model(out@) + m_remove(entries_model(rest@), key@) =~= entries_model(
                    out0,
                ) + (seq![entries_model(rest0)[0]] + m_remove(entries_model(rest@), key@)));
            }
        }
    }
    proof {
        assert(entries_model(rest@) =~= Seq::<(Seq<char>, TomlModel)>::empty());
        assert(entries_model(out@) + m_remove(entries_model(rest@), key@) =~= entries_model(out@));
    }
    out
}

/// Replace the first entry under the key in place, or append the pair when
/// the key is absent.
pub fn set_key(entries: Vec<(String, TomlValue)>, key: String, value: TomlValue) -> (r: Vec<
    (String, TomlValue),
>)
    ensures
        entries_model(r@) == m_set(entries_model(entries@), key@, value.model()),
{
    let ghost m0 = entries_model(entries@);
    proof {
        lemma_entries_model(entries@);
    }
    let mut entries = entries;
    match find_key(&entries, key.as_str()) {
        Some(i) => {
            let ghost pre = entries@;
            let _old = entries.remove(i);
            entries.insert(i, (key, value));
            proof {
                lemma_entries_model(entries@);
                lemma_m_set_at(m0, key@, value.model(), i as int);
                assert(entries@ =~= pre.update(i as int, entries@[i as int]));
                assert(entries_model(entries@) =~= m0.update(i as int, (key@, value.model())));
            }
            entries
        },
        None => {
            entries.push((key, value));
            proof {
                lemma_entries_model(entries@);
                lemma_m_set_absent(m0, key@, value.model());
                assert(entries_model(entries@) =~= m0.push((key@, value.model())));
            }
            entries
        },
    }
}

/// A patch directive: redirect a dependency to a git branch or a local path.
#[derive(Debug, PartialEq, Clone)]
pub enum CratePatch {
    /// Redirect to a git repository.
    Git(GitCratePatch),
    /// Redirect to a local path.
    Path(PathCratePatch),
}

/// A git patch directive.
#[derive(Debug, PartialEq, Clone)]
pub struct GitCratePatch {
    /// The dependency to patch.
    pub name: String,
    /// The repository to take it from.
    pub uri: String,
    /// The branch to take it from.
    pub branch: String,
}

/// A path patch directive.
#[derive(Debug, PartialEq, Clone)]
pub struct PathCratePatch {
    /// The dependency to patch.
    pub name: String,
    /// The local path to take it from.
    pub path: String,
}

/// The table entry a patch directive writes under `patch.crates-io`.
pub open spec fn patch_model(p: CratePatch) -> (Seq<char>, TomlModel) {
    match p {
        CratePatch::Git(g) => (
            g.name@,
            TomlModel::Tab(
                seq![("git"@, TomlModel::Str(g.uri@)), ("branch"@, TomlModel::Str(g.branch@))],
            ),
        ),
        CratePatch::Path(p) => (
            p.name@,
            TomlModel::Tab(seq![("path"@, TomlModel::Str(p.path@))]),
        ),
    }
}

/// The table entries a patch list writes, in order.
pub open spec fn patches_model(ps: Seq<CratePatch>) -> Seq<(Seq<char>, TomlModel)> {
    ps.map_values(|p: CratePatch| patch_model(p))
}

/// Whether an example or test entry is kept: it must be a table naming its
/// item, and the file it points at — its `path`, or `<folder>/<name>.rs` by
/// default — must be among the existing paths.
pub open spec fn entry_keep(
    e: TomlModel,
    dir: Seq<char>,
    folder: Seq<char>,
    existing: Seq<Seq<char>>,
) -> bool {
    match e {
        TomlModel::Tab(tt) => match m_get(tt, "name"@) {
            Some(TomlModel::Str(name)) => match m_get(tt, "path"@) {
                None => existing.contains(dir + "/"@ + folder + "/"@ + name + ".rs"@),
                Some(TomlModel::Str(p)) => existing.contains(dir + "/"@ + p),
                Some(_) => false,
            },
            _ => false,
        },
        _ => false,
    }
}

/// Whether a `cargo-features` element is kept: any string other than the
/// two scrubbed feature flags; anything that is not a string is dropped.
pub open spec fn feature_keep(e: TomlModel) -> bool {
    match e {
        TomlModel::Str(s) => s != "publish-lockfile"@ && s != "default-run"@,
        _ => false,
    }
}

/// Prune entries of the `example` or `test` array whose file is missing.
/// Without a manifest directory nothing changes.
pub open spec fn m_remove_missing(
    t: Seq<(Seq<char>, TomlModel)>,
    cat: Seq<char>,
    folder: Seq<char>,
    dir: Option<Seq<char>>,
    existing: Seq<Seq<char>>,
) -> Seq<(Seq<char>, TomlModel)> {
    match dir {
        None => t,
        Some(d) => match m_get(t, cat) {
            Some(TomlModel::Arr(items)) => m_set(
                t,
                cat,
                TomlModel::Arr(m_filter(items, |e: TomlModel| entry_keep(e, d, folder, existing))),
            ),
            _ => t,
        },
    }
}

/// Drop one key from the `package` table.
pub open spec fn m_remove_pkg_key(t: Seq<(Seq<char>, TomlModel)>, k: Seq<char>) -> Seq<
    (Seq<char>, TomlModel),
> {
    match m_get(t, "package"@) {
        Some(TomlModel::Tab(pkg)) => m_set(t, "package"@, TomlModel::Tab(m_remove(pkg, k))),
        _ => t,
    }
}

/// Scrub the unwanted unstable feature flags from `cargo-features`, and when
/// one was present drop its `package` key as well.
pub open spec fn m_remove_features(t: Seq<(Seq<char>, TomlModel)>) -> Seq<(Seq<char>, TomlModel)> {
    match m_get(t, "cargo-features"@) {
        Some(TomlModel::Arr(items)) => {
            let t1 = m_set(t, "cargo-features"@, TomlModel::Arr(m_filter(items, |e: TomlModel| feature_keep(e))));
            let t2 = if items.contains(TomlModel::Str("publish-lockfile"@)) {
                m_remove_pkg_key(t1, "publish-lockfile"@)
            } else {
                t1
            };
            if items.contains(TomlModel::Str("default-run"@)) {
                m_remove_pkg_key(t2, "default-run"@)
            } else {
                t2
            }
        },
        _ => t,
    }
}

/// Write each patch under `patch.crates-io`, creating the intermediate
/// tables when missing. An empty patch list changes nothing.
pub open spec fn m_apply_patches(
    t: Seq<(Seq<char>, TomlModel)>,
    ps: Seq<(Seq<char>, TomlModel)>,
) -> Seq<(Seq<char>, TomlModel)> {
    if ps.len() == 0 {
        t
    } else {
        let pt = match m_get(t, "patch"@) {
            Some(TomlModel::Tab(x)) => x,
            _ => Seq::empty(),
        };
        let ct = match m_get(pt, "crates-io"@) {
            Some(TomlModel::Tab(x)) => x,
            _ => Seq::empty(),
        };
        m_set(
            t,
            "patch"@,
            TomlModel::Tab(m_set(pt, "crates-io"@, TomlModel::Tab(m_set_all(ct, ps)))),
        )
    }
}

/// The whole rewriting: prune missing examples and tests, drop the parent
/// workspace link, scrub unwanted feature flags, apply the patches.
pub open spec fn m_tweak(
    t: Seq<(Seq<char>, TomlModel)>,
    dir: Option<Seq<char>>,
    existing: Seq<Seq<char>>,
    patches: Seq<(Seq<char>, TomlModel)>,
) -> Seq<(Seq<char>, TomlModel)> {
    m_apply_patches(
        m_remove_features(
            m_remove_pkg_key(
                m_remove_missing(
                    m_remove_missing(t, "example"@, "examples"@, dir, existing),
                    "test"@,
                    "tests"@,
                    dir,
                    existing,
                ),
                "workspace"@,
            ),
        ),
        patches,
    )
}

/// An entry of the `example` or `test` array that names its item must carry
/// its `path` as a string, if at all; the rewriting does not accept other
/// shapes there.
pub open spec fn item_path_wf(e: TomlModel) -> bool {
    match e {
        TomlModel::Tab(tt) => (m_get(tt, "name"@) matches Some(TomlModel::Str(_))) ==> (match m_get(
            tt,
            "path"@,
        ) {
            None => true,
            Some(p) => p is Str,
        }),
        _ => true,
    }
}

/// The array under `cat`, if one stands there, holds only entries whose
/// `path` is well-formed.
pub open spec fn items_wf(t: Seq<(Seq<char>, TomlModel)>, cat: Seq<char>) -> bool {
    match m_get(t, cat) {
        Some(TomlModel::Arr(items)) => forall|i: int|
            0 <= i < items.len() ==> item_path_wf(#[trigger] items[i]),
        _ => true,
    }
}

/// When patches are applied, the `patch` key and its `crates-io` key must be
/// tables where present.
pub open spec fn patch_wf(t: Seq<(Seq<char>, TomlModel)>, have_patches: bool) -> bool {
    have_patches ==> match m_get(t, "patch"@) {
        None => true,
        Some(TomlModel::Tab(pt)) => match m_get(pt, "crates-io"@) {
            None => true,
            Some(ct) => ct is Tab,
        },
        Some(_) => false,
    }
}

/// What the rewriting needs of the manifest it is given.
pub open spec fn tweak_wf(
    t: Seq<(Seq<char>, TomlModel)>,
    have_patches: bool,
) -> bool {
    items_wf(t, "example"@) && items_wf(t, "test"@) && patch_wf(t, have_patches)
}

/// Setting one key leaves every other key's value as it was.
pub proof fn lemma_m_set_preserves_other(
    t: Seq<(Seq<char>, TomlModel)>,
    k: Seq<char>,
    v: TomlModel,
    k2: Seq<char>,
)
    requires
        k2 != k,
    ensures
        m_get(m_set(t, k, v), k2) == m_get(t, k2),
    decreases t.len(),
{
    if t.len() == 0 {
        assert(m_set(t, k, v) =~= seq![(k, v)]);
        assert(m_get(m_set(t, k, v), k2) is None) by {
            lemma_m_get_none(m_set(t, k, v), k2);
        }
    } else if t[0].0 == k {
        let r = m_set(t, k, v);
        assert(r == seq![(k, v)] + t.subrange(1, t.len() as int));
        assert(r[0].0 == k);
        assert(r.subrange(1, r.len() as int) =~= t.subrange(1, t.len() as int));
    } else {
        let tail = t.subrange(1, t.len() as int);
        lemma_m_set_preserves_other(tail, k, v, k2);
        let r = m_set(t, k, v);
        assert(r == seq![t[0]] + m_set(tail, k, v));
        assert(r[0] == t[0]);
        assert(r.subrange(1, r.len() as int) =~= m_set(tail, k, v));
    }
}

/// Decide whether one example or test entry is kept.
fn keep_item(e: &TomlValue, dir: &str, folder: &str, existing: &Vec<String>) -> (r: bool)
    requires
        item_path_wf(e.model()),
    ensures
        r == entry_keep(e.model(), dir@, folder@, crate::text::strs(existing@)),
{
    match e {
        TomlValue::Table(tt) => {
            proof {
                lemma_entries_model(tt@);
            }
            let ghost ttm = entries_model(tt@);
            match find_key(tt, "name") {
                Some(i) => {
                    proof {
                        lemma_m_get_at(ttm, "name"@, i as int);
                    }
                    let pair = vstd::std_specs::vec::vec_index(tt, i);
                    match &pair.1 {
                        TomlValue::Str(name) => {
                            match find_key(tt, "path") {
                                Some(j) => {
                                    proof {
                                        lemma_m_get_at(ttm, "path"@, j as int);
                                    }
                                    let pj = vstd::std_specs::vec::vec_index(tt, j);
                                    match &pj.1 {
                                        TomlValue::Str(p) => {
                                            let full = crate::text::concat3(dir, "/", p.as_str());
                                            let hit = crate::text::vec_contains_str(
                                                existing,
                                                full.as_str(),
                                            );
                                            proof {
                                                lemma_contains_string_strs(existing@, full@);
                                            }
                                            hit
                                        },
                                        _ => {
                                            proof {
                                                assert(false);
                                            }
                                            false
                                        },
                                    }
                                },
                                None => {
                                    proof {
                                        lemma_m_get_none(ttm, "path"@);
                                    }
                                    let mut full = crate::text::concat3(dir, "/", folder);
                                    full.append("/");
                                    full.append(name.as_str());
                                    full.append(".rs");
                                    let hit = crate::text::vec_contains_str(existing, full.as_str());
                                    proof {
                                        lemma_contains_string_strs(existing@, full@);
                                    }
                                    hit
                                },
                            }
                        },
                        _ => false,
                    }
                },
                None => {
                    proof {
                        lemma_m_get_none(ttm, "name"@);
                    }
                    false
                },
            }
        },
        _ => false,
    }
}

/// Membership after appending one element.
proof fn lemma_contains_push(s: Seq<TomlModel>, x: TomlModel, y: TomlModel)
    ensures
        s.push(y).contains(x) == (s.contains(x) || x == y),
{
    if s.contains(x) {
        let i = choose|i: int| 0 <= i < s.len() && s[i] == x;
        assert(s.push(y)[i] == x);
    }
    if x == y {
        assert(s.push(y)[s.len() as int] == x);
    }
    if s.push(y).contains(x) && x != y {
        let i = choose|i: int| 0 <= i < s.push(y).len() && s.push(y)[i] == x;
        assert(s[i] == x);
    }
}

/// Membership among the strings of a list is membership among their views.
proof fn lemma_contains_string_strs(vs: Seq<String>, t: Seq<char>)
    ensures
        crate::text::contains_string(vs, t) == crate::text::strs(vs).contains(t),
{
    if crate::text::contains_string(vs, t) {
        let i = choose|i: int| 0 <= i < vs.len() && vs[i]@ == t;
        assert(crate::text::strs(vs)[i] == t);
    }
    if crate::text::strs(vs).contains(t) {
        let i = choose|i: int| 0 <= i < crate::text::strs(vs).len() && crate::text::strs(vs)[i] == t;
        assert(vs[i]@ == t);
    }
}

/// Keep the entries of the `example` or `test` array whose file exists.
fn filter_missing(
    items: Vec<TomlValue>,
    dir: &str,
    folder: &str,
    existing: &Vec<String>,
) -> (r: Vec<TomlValue>)
    requires
        forall|i: int| 0 <= i < items@.len() ==> item_path_wf(#[trigger] seq_model(items@)[i]),
    ensures
        seq_model(r@) == m_filter(
            seq_model(items@),
            |e: TomlModel| entry_keep(e, dir@, folder@, crate::text::strs(existing@)),
        ),
{
    let ghost pred = |e: TomlModel| entry_keep(e, dir@, folder@, crate::text::strs(existing@));
    let ghost m0 = seq_model(items@);
    proof {
        lemma_seq_model(items@);
    }
    let mut rest = items;
    let mut out: Vec<TomlValue> = Vec::new();
    proof {
        assert(seq_model(out@) =~= Seq::<TomlModel>::empty());
    }
    while rest.len() > 0
        invariant
            seq_model(out@) + m_filter(seq_model(rest@), pred) == m_filter(m0, pred),
            forall|i: int| 0 <= i < rest@.len() ==> item_path_wf(#[trigger] seq_model(rest@)[i]),
            pred == (|e: TomlModel| entry_keep(e, dir@, folder@, crate::text::strs(existing@))),
        decreases rest@.len(),
    {
        let ghost rest0 = rest@;
        let e = rest.remove(0);
        proof {
            lemma_seq_model(rest0);
            lemma_seq_model(rest@);
            assert(seq_model(rest@) =~= seq_model(rest0).subrange(
                1,
                seq_model(rest0).len() as int,
            ));
            assert(item_path_wf(e.model()));
        }
        if keep_item(&e, dir, folder, existing) {
            let ghost out0 = out@;
            out.push(e);
            proof {
                lemma_seq_model(out0);
                lemma_seq_model(out@);
                assert(seq_model(out@) =~= seq_model(out0).push(seq_model(rest0)[0]));
                assert(seq_model(out@) + m_filter(seq_model(rest@), pred) =~= seq_model(out0) + (
                seq![seq_model(rest0)[0]] + m_filter(seq_model(rest@), pred)));
            }
        }
    }
    proof {
        assert(seq_model(rest@) =~= Seq::<TomlModel>::empty());
        assert(seq_model(out@) + m_filter(seq_model(rest@), pred) =~= seq_model(out@));
    }
    out
}

/// Keep the `cargo-features` entries that are not scrubbed, and report
/// whether each scrubbed flag was present.
fn filter_features(items: Vec<TomlValue>) -> (r: (Vec<TomlValue>, bool, bool))
    ensures
        seq_model(r.0@) == m_filter(seq_model(items@), |e: TomlModel| feature_keep(e)),
        r.1 == seq_model(items@).contains(TomlModel::Str("publish-lockfile"@)),
        r.2 == seq_model(items@).contains(TomlModel::Str("default-run"@)),
{
    let ghost pred = |e: TomlModel| feature_keep(e);
    let ghost m0 = seq_model(items@);
    proof {
        lemma_seq_model(items@);
    }
    let mut rest = items;
    let mut out: Vec<TomlValue> = Vec::new();
    let mut has_pl = false;
    let mut has_dr = false;
    let ghost mut seen: Seq<TomlModel> = Seq::empty();
    proof {
        assert(seq_model(out@) =~= Seq::<TomlModel>::empty());
    }
    while rest.len() > 0
        invariant
            seq_model(out@) + m_filter(seq_model(rest@), pred) == m_filter(m0, pred),
            seen + seq_model(rest@) == m0,
            has_pl == seen.contains(TomlModel::Str("publish-lockfile"@)),
            has_dr == seen.contains(TomlModel::Str("default-run"@)),
            pred == (|e: TomlModel| feature_keep(e)),
        decreases rest@.len(),
    {
        let ghost rest0 = rest@;
        let e = rest.remove(0);
        proof {
            lemma_seq_model(rest0);
            lemma_seq_model(rest@);
            assert(seq_model(rest@) =~= seq_model(rest0).subrange(
                1,
                seq_model(rest0).len() as int,
            ));
        }
        let mut keep = false;
        match &e {
            TomlValue::Str(s) => {
                if crate::text::str_eq(s.as_str(), "publish-lockfile") {
                    has_pl = true;
                } else if crate::text::str_eq(s.as_str(), "default-run") {
                    has_dr = true;
                } else {
                    keep = true;
                }
            },
            _ => {},
        }
        proof {
            reveal_strlit("publish-lockfile");
            reveal_strlit("default-run");
            assert("publish-lockfile"@.len() != "default-run"@.len());
            assert(keep == feature_keep(e.model()));
            assert(seen.push(e.model()) + seq_model(rest@) =~= m0);
            lemma_contains_push(seen, TomlModel::Str("publish-lockfile"@), e.model());
            lemma_contains_push(seen, TomlModel::Str("default-run"@), e.model());
        }
        if keep {
            let ghost out0 = out@;
            out.push(e);
            proof {
                lemma_seq_model(out0);
                lemma_seq_model(out@);
                assert(seq_model(out@) =~= seq_model(out0).push(seq_model(rest0)[0]));
                assert(seq_model(out@) + m_filter(seq_model(rest@), pred) =~= seq_model(out0) + (
                seq![seq_model(rest0)[0]] + m_filter(seq_model(rest@), pred)));
            }
        }
        proof {
            seen = seen.push(seq_model(rest0)[0]);
        }
    }
    proof {
        assert(seq_model(rest@) =~= Seq::<TomlModel>::empty());
        assert(seq_model(out@) + m_filter(seq_model(rest@), pred) =~= seq_model(out@));
        assert(seen =~= m0);
    }
    (out, has_pl, has_dr)
}

/// The view of an optional directory string.
pub open spec fn opt_str_model(d: Option<String>) -> Option<Seq<char>> {
    match d {
        Some(s) => Some(s@),
        None => None,
    }
}

/// Setting all pairs of a list and then one more is setting the appended
/// list.
pub proof fn lemma_m_set_all_snoc(
    t: Seq<(Seq<char>, TomlModel)>,
    l: Seq<(Seq<char>, TomlModel)>,
    p: (Seq<char>, TomlModel),
)
    ensures
        m_set_all(t, l.push(p)) == m_set(m_set_all(t, l), p.0, p.1),
    decreases l.len(),
{
    let lp = l.push(p);
    if l.len() == 0 {
        assert(lp[0] == p);
        assert(lp.subrange(1, lp.len() as int) =~= Seq::<(Seq<char>, TomlModel)>::empty());
        assert(m_set_all(t, lp) == m_set_all(m_set(t, p.0, p.1), lp.subrange(1, lp.len() as int)));
        assert(m_set_all(m_set(t, p.0, p.1), lp.subrange(1, lp.len() as int)) == m_set(t, p.0, p.1));
        assert(m_set_all(t, l) == t);
    } else {
        let tail = l.subrange(1, l.len() as int);
        assert(lp[0] == l[0]);
        assert(lp.subrange(1, lp.len() as int) =~= tail.push(p));
        assert(m_set_all(t, lp) == m_set_all(m_set(t, l[0].0, l[0].1), tail.push(p)));
        lemma_m_set_all_snoc(m_set(t, l[0].0, l[0].1), tail, p);
        assert(m_set_all(t, l) == m_set_all(m_set(t, l[0].0, l[0].1), tail));
    }
}

/// Pruning one category leaves every other key's value as it was.
pub proof fn lemma_remove_missing_preserves(
    t: Seq<(Seq<char>, TomlModel)>,
    cat: Seq<char>,
    folder: Seq<char>,
    dir: Option<Seq<char>>,
    existing: Seq<Seq<char>>,
    k2: Seq<char>,
)
    requires
        k2 != cat,
    ensures
        m_get(m_remove_missing(t, cat, folder, dir, existing), k2) == m_get(t, k2),
{
    match dir {
        None => {},
        Some(d) => match m_get(t, cat) {
            Some(TomlModel::Arr(items)) => {
                lemma_m_set_preserves_other(
                    t,
                    cat,
                    TomlModel::Arr(m_filter(items, |e: TomlModel| entry_keep(e, d, folder, existing))),
                    k2,
                );
            },
            _ => {},
        },
    }
}

/// Dropping a key from `package` leaves every key but `package` as it was.
pub proof fn lemma_remove_pkg_key_preserves(
    t: Seq<(Seq<char>, TomlModel)>,
    k: Seq<char>,
    k2: Seq<char>,
)
    requires
        k2 != "package"@,
    ensures
        m_get(m_remove_pkg_key(t, k), k2) == m_get(t, k2),
{
    match m_get(t, "package"@) {
        Some(TomlModel::Tab(pkg)) => {
            lemma_m_set_preserves_other(t, "package"@, TomlModel::Tab(m_remove(pkg, k)), k2);
        },
        _ => {},
    }
}

/// Scrubbing feature flags leaves every key but `cargo-features` and
/// `package` as it was.
pub proof fn lemma_remove_features_preserves(t: Seq<(Seq<char>, TomlModel)>, k2: Seq<char>)
    requires
        k2 != "cargo-features"@,
        k2 != "package"@,
    ensures
        m_get(m_remove_features(t), k2) == m_get(t, k2),
{
    match m_get(t, "cargo-features"@) {
        Some(TomlModel::Arr(items)) => {
            let t1 = m_set(
                t,
                "cargo-features"@,
                TomlModel::Arr(m_filter(items, |e: TomlModel| feature_keep(e))),
            );
            lemma_m_set_preserves_other(
                t,
                "cargo-features"@,
                TomlModel::Arr(m_filter(items, |e: TomlModel| feature_keep(e))),
                k2,
            );
            let t2 = if items.contains(TomlModel::Str("publish-lockfile"@)) {
                lemma_remove_pkg_key_preserves(t1, "publish-lockfile"@, k2);
                m_remove_pkg_key(t1, "publish-lockfile"@)
            } else {
                t1
            };
            if items.contains(TomlModel::Str("default-run"@)) {
                lemma_remove_pkg_key_preserves(t2, "default-run"@, k2);
            }
        },
        _ => {},
    }
}

/// Rewrites a package manifest in place: prunes example and test entries
/// whose file is missing, drops the parent-workspace link, scrubs unwanted
/// unstable feature flags, and injects patch overrides. The manifest is
/// parsed and written back outside the library; the tweaker works on the
/// tree and on the list of paths that exist under the manifest directory.
pub struct TomlTweaker {
    /// The manifest's top-level table.
    pub table: Vec<(String, TomlValue)>,
    /// The manifest's directory, when pruning against the filesystem is
    /// wanted.
    pub dir: Option<String>,
    /// The paths that exist under the manifest directory, as full paths.
    pub existing: Vec<String>,
    /// The patches to write under `patch.crates-io`.
    pub patches: Vec<CratePatch>,
}

impl TomlTweaker {
    /// What the rewriting needs of this manifest.
    pub open spec fn wf(self) -> bool {
        tweak_wf(entries_model(self.table@), self.patches@.len() > 0)
    }

    /// A tweaker over a bare table, without a directory to check files
    /// against.
    pub fn new_with_table(table: Vec<(String, TomlValue)>, patches: Vec<CratePatch>) -> (r: Self)
        ensures
            r.table == table,
            r.dir is None,
            r.existing@.len() == 0,
            r.patches == patches,
    {
        TomlTweaker { table, dir: None, existing: Vec::new(), patches }
    }

    /// A tweaker over a manifest table read from `dir`, with the paths that
    /// exist under it.
    pub fn new(
        table: Vec<(String, TomlValue)>,
        dir: String,
        existing: Vec<String>,
        patches: Vec<CratePatch>,
    ) -> (r: Self)
        ensures
            r.table == table,
            r.dir == Some(dir),
            r.existing == existing,
            r.patches == patches,
    {
        TomlTweaker { table, dir: Some(dir), existing, patches }
    }

    /// Prune the entries of the `category` array whose file is missing from
    /// the manifest directory.
    pub fn remove_missing_items(&mut self, category: &str, folder: &str)
        requires
            items_wf(entries_model(old(self).table@), category@),
        ensures
            entries_model(final(self).table@) == m_remove_missing(
                entries_model(old(self).table@),
                category@,
                folder@,
                opt_str_model(old(self).dir),
                crate::text::strs(old(self).existing@),
            ),
            final(self).dir == old(self).dir,
            final(self).existing == old(self).existing,
            final(self).patches == old(self).patches,
    {
        let ghost t0 = entries_model(self.table@);
        proof {
            lemma_entries_model(self.table@);
        }
        if self.dir.is_none() {
            return;
        }
        let d: String = match &self.dir {
            Some(d) => d.clone(),
            None => {
                proof {
                    assert(false);
                }
                String::new()
            },
        };
        let idx = match find_key(&self.table, category) {
            Some(i) => i,
            None => {
                proof {
                    lemma_m_get_none(t0, category@);
                }
                return;
            },
        };
        proof {
            lemma_m_get_at(t0, category@, idx as int);
        }
        let is_arr = match &vstd::std_specs::vec::vec_index(&self.table, idx).1 {
            TomlValue::Array(_) => true,
            _ => false,
        };
        if !is_arr {
            return;
        }
        let ghost pre = self.table@;
        let (k, v) = self.table.remove(idx);
        let items = match v {
            TomlValue::Array(items) => {
                proof {
                    assert(t0[idx as int].1 == TomlValue::Array(items).model());
                }
                items
            },
            _ => {
                proof {
                    assert(false);
                }
                Vec::new()
            },
        };
        proof {
            lemma_seq_model(items@);
            assert(m_get(t0, category@) == Some(TomlModel::Arr(seq_model(items@))));
        }
        let filtered = filter_missing(items, d.as_str(), folder, &self.existing);
        self.table.insert(idx, (k, TomlValue::Array(filtered)));
        proof {
            lemma_entries_model(self.table@);
            let ghost pred = |e: TomlModel| entry_keep(
                e,
                d@,
                folder@,
                crate::text::strs(self.existing@),
            );
            lemma_m_set_at(t0, category@, TomlValue::Array(filtered).model(), idx as int);
            assert(self.table@ =~= pre.update(idx as int, self.table@[idx as int]));
            assert(entries_model(self.table@) =~= t0.update(
                idx as int,
                (category@, TomlValue::Array(filtered).model()),
            ));
        }
    }

    /// Drop one key from the `package` table.
    fn remove_pkg_key(&mut self, key: &str)
        ensures
            entries_model(final(self).table@) == m_remove_pkg_key(
                entries_model(old(self).table@),
                key@,
            ),
            final(self).dir == old(self).dir,
            final(self).existing == old(self).existing,
            final(self).patches == old(self).patches,
    {
        let ghost t0 = entries_model(self.table@);
        proof {
            lemma_entries_model(self.table@);
        }
        let idx = match find_key(&self.table, "package") {
            Some(i) => i,
            None => {
                proof {
                    lemma_m_get_none(t0, "package"@);
                }
                return;
            },
        };
        proof {
            lemma_m_get_at(t0, "package"@, idx as int);
        }
        let is_tab = match &vstd::std_specs::vec::vec_index(&self.table, idx).1 {
            TomlValue::Table(_) => true,
            _ => false,
        };
        if !is_tab {
            return;
        }
        let ghost pre = self.table@;
        let (k, v) = self.table.remove(idx);
        let pkg = match v {
            TomlValue::Table(pkg) => pkg,
            _ => {
                proof {
                    assert(false);
                }
                Vec::new()
            },
        };
        let cleaned = remove_key(pkg, key);
        self.table.insert(idx, (k, TomlValue::Table(cleaned)));
        proof {
            lemma_entries_model(self.table@);
            lemma_m_set_at(t0, "package"@, TomlValue::Table(cleaned).model(), idx as int);
            assert(self.table@ =~= pre.update(idx as int, self.table@[idx as int]));
            assert(entries_model(self.table@) =~= t0.update(
                idx as int,
                ("package"@, TomlValue::Table(cleaned).model()),
            ));
        }
    }

    /// Drop the parent-workspace link: the `workspace` key of `package`.
    pub fn remove_parent_workspaces(&mut self)
        ensures
            entries_model(final(self).table@) == m_remove_pkg_key(
                entries_model(old(self).table@),
                "workspace"@,
            ),
            final(self).dir == old(self).dir,
            final(self).existing == old(self).existing,
            final(self).patches == old(self).patches,
    {
        self.remove_pkg_key("workspace");
    }

    /// Scrub the `publish-lockfile` and `default-run` flags from
    /// `cargo-features`, dropping the matching `package` keys when present.
    pub fn remove_unwanted_cargo_features(&mut self)
        ensures
            entries_model(final(self).table@) == m_remove_features(entries_model(old(self).table@)),
            final(self).dir == old(self).dir,
            final(self).existing == old(self).existing,
            final(self).patches == old(self).patches,
    {
        let ghost t0 = entries_model(self.table@);
        proof {
            lemma_entries_model(self.table@);
        }
        let mut has_pl = false;
        let mut has_dr = false;
        let mut touched = false;
        match find_key(&self.table, "cargo-features") {
            Some(idx) => {
                proof {
                    lemma_m_get_at(t0, "cargo-features"@, idx as int);
                }
                let is_arr = match &vstd::std_specs::vec::vec_index(&self.table, idx).1 {
                    TomlValue::Array(_) => true,
                    _ => false,
                };
                if is_arr {
                    let ghost pre = self.table@;
                    let (k, v) = self.table.remove(idx);
                    let items = match v {
                        TomlValue::Array(items) => items,
                        _ => {
                            proof {
                                assert(false);
                            }
                            Vec::new()
                        },
                    };
                    let (filtered, pl, dr) = filter_features(items);
                    has_pl = pl;
                    has_dr = dr;
                    touched = true;
                    self.table.insert(idx, (k, TomlValue::Array(filtered)));
                    proof {
                        lemma_entries_model(self.table@);
                        lemma_m_set_at(
                            t0,
                            "cargo-features"@,
                            TomlValue::Array(filtered).model(),
                            idx as int,
                        );
                        assert(self.table@ =~= pre.update(idx as int, self.table@[idx as int]));
                        assert(entries_model(self.table@) =~= t0.update(
                            idx as int,
                            ("cargo-features"@, TomlValue::Array(filtered).model()),
                        ));
                    }
                }
            },
            None => {
                proof {
                    lemma_m_get_none(t0, "cargo-features"@);
                }
            },
        }
        if has_pl {
            self.remove_pkg_key("publish-lockfile");
        }
        if has_dr {
            self.remove_pkg_key("default-run");
        }
    }

    /// Write each patch under `patch.crates-io`, creating the intermediate
    /// tables when missing.
    pub fn apply_patches(&mut self)
        requires
            patch_wf(entries_model(old(self).table@), old(self).patches@.len() > 0),
        ensures
            entries_model(final(self).table@) == m_apply_patches(
                entries_model(old(self).table@),
                patches_model(old(self).patches@),
            ),
            final(self).dir == old(self).dir,
            final(self).existing == old(self).existing,
            final(self).patches == old(self).patches,
    {
        let ghost t0 = entries_model(self.table@);
        proof {
            lemma_entries_model(self.table@);
        }
        if self.patches.len() == 0 {
            return;
        }
        let (pk, mut pt_vec, patch_pos) = match find_key(&self.table, "patch") {
            Some(i) => {
                proof {
                    lemma_m_get_at(t0, "patch"@, i as int);
                }
                let (k, v) = self.table.remove(i);
                let pt = match v {
                    TomlValue::Table(x) => x,
                    _ => {
                        proof {
                            assert(false);
                        }
                        Vec::new()
                    },
                };
                (k, pt, Some(i))
            },
            None => {
                proof {
                    lemma_m_get_none(t0, "patch"@);
                }
                ("patch".to_owned(), Vec::new(), None)
            },
        };
        let ghost ptm = entries_model(pt_vec@);
        proof {
            lemma_entries_model(pt_vec@);
            if patch_pos is None {
                assert(ptm =~= Seq::<(Seq<char>, TomlModel)>::empty());
            }
        }
        let (ck, ct_vec, cio_pos) = match find_key(&pt_vec, "crates-io") {
            Some(j) => {
                proof {
                    lemma_m_get_at(ptm, "crates-io"@, j as int);
                }
                let (k2, v2) = pt_vec.remove(j);
                let ct = match v2 {
                    TomlValue::Table(x) => x,
                    _ => {
                        proof {
                            assert(false);
                        }
                        Vec::new()
                    },
                };
                (k2, ct, Some(j))
            },
            None => {
                proof {
                    lemma_m_get_none(ptm, "crates-io"@);
                }
                ("crates-io".to_owned(), Vec::new(), None)
            },
        };
        let ghost ctm = entries_model(ct_vec@);
        proof {
            lemma_entries_model(ct_vec@);
            if cio_pos is None {
                assert(ctm =~= Seq::<(Seq<char>, TomlModel)>::empty());
            }
        }
        let ghost psm = patches_model(self.patches@);
        let mut ct = ct_vec;
        let mut i: usize = 0;
        proof {
            assert(psm.subrange(0, 0) =~= Seq::<(Seq<char>, TomlModel)>::empty());
        }
        while i < self.patches.len()
            invariant
                0 <= i <= self.patches@.len(),
                psm == patches_model(self.patches@),
                psm.len() == self.patches@.len(),
                entries_model(ct@) == m_set_all(ctm, psm.subrange(0, i as int)),
            decreases self.patches@.len() - i,
        {
            let p = vstd::std_specs::vec::vec_index(&self.patches, i);
            let (name, val) = match p {
                CratePatch::Git(g) => {
                    let mut tv: Vec<(String, TomlValue)> = Vec::new();
                    tv.push(("git".to_owned(), TomlValue::Str(g.uri.clone())));
                    tv.push(("branch".to_owned(), TomlValue::Str(g.branch.clone())));
                    proof {
                        lemma_entries_model(tv@);
                        assert(entries_model(tv@) =~= patch_model(self.patches@[i as int]).1->Tab_0);
                    }
                    (g.name.clone(), TomlValue::Table(tv))
                },
                CratePatch::Path(pp) => {
                    let mut tv: Vec<(String, TomlValue)> = Vec::new();
                    tv.push(("path".to_owned(), TomlValue::Str(pp.path.clone())));
                    proof {
                        lemma_entries_model(tv@);
                        assert(entries_model(tv@) =~= patch_model(self.patches@[i as int]).1->Tab_0);
                    }
                    (pp.name.clone(), TomlValue::Table(tv))
                },
            };
            proof {
                assert((name@, val.model()) == patch_model(self.patches@[i as int]));
                assert(psm[i as int] == patch_model(self.patches@[i as int]));
            }
            ct = set_key(ct, name, val);
            proof {
                lemma_m_set_all_snoc(ctm, psm.subrange(0, i as int), psm[i as int]);
                assert(psm.subrange(0, i + 1) =~= psm.subrange(0, i as int).push(psm[i as int]));
            }
            i += 1;
        }
        proof {
            assert(psm.subrange(0, psm.len() as int) =~= psm);
        }
        let ghost ptm0 = ptm;
        let mut pt2 = pt_vec;
        let ghost pt2_pre = pt2@;
        match cio_pos {
            Some(j) => {
                pt2.insert(j, (ck, TomlValue::Table(ct)));
                proof {
                    lemma_entries_model(pt2@);
                    lemma_entries_model(pt2_pre);
                    lemma_m_set_at(
                        ptm0,
                        "crates-io"@,
                        TomlModel::Tab(m_set_all(ctm, psm)),
                        j as int,
                    );
                    assert(entries_model(pt2@) =~= ptm0.update(
                        j as int,
                        ("crates-io"@, TomlModel::Tab(m_set_all(ctm, psm))),
                    ));
                }
            },
            None => {
                pt2.push((ck, TomlValue::Table(ct)));
                proof {
                    lemma_entries_model(pt2@);
                    lemma_entries_model(pt2_pre);
                    lemma_m_set_absent(ptm0, "crates-io"@, TomlModel::Tab(m_set_all(ctm, psm)));
                    assert(entries_model(pt2@) =~= ptm0.push(
                        ("crates-io"@, TomlModel::Tab(m_set_all(ctm, psm))),
                    ));
                }
            },
        }
        let ghost new_patch_val = TomlModel::Tab(m_set(ptm0, "crates-io"@, TomlModel::Tab(m_set_all(ctm, psm))));
        let ghost tbl_pre = self.table@;
        match patch_pos {
            Some(i2) => {
                self.table.insert(i2, (pk, TomlValue::Table(pt2)));
                proof {
                    lemma_entries_model(self.table@);
                    lemma_m_set_at(t0, "patch"@, new_patch_val, i2 as int);
                    assert(entries_model(self.table@) =~= t0.update(
                        i2 as int,
                        ("patch"@, new_patch_val),
                    ));
                }
            },
            None => {
                self.table.push((pk, TomlValue::Table(pt2)));
                proof {
                    lemma_entries_model(self.table@);
                    lemma_entries_model(tbl_pre);
                    lemma_m_set_absent(t0, "patch"@, new_patch_val);
                    assert(entries_model(self.table@) =~= t0.push(("patch"@, new_patch_val)));
                }
            },
        }
    }

    /// Rewrite the manifest: prune missing examples and tests, drop the
    /// parent-workspace link, scrub unwanted feature flags, and apply the
    /// patches.
    pub fn tweak(&mut self)
        requires
            old(self).wf(),
        ensures
            entries_model(final(self).table@) == m_tweak(
                entries_model(old(self).table@),
                opt_str_model(old(self).dir),
                crate::text::strs(old(self).existing@),
                patches_model(old(self).patches@),
            ),
            final(self).dir == old(self).dir,
            final(self).existing == old(self).existing,
            final(self).patches == old(self).patches,
    {
        let ghost t0 = entries_model(self.table@);
        let ghost dirm = opt_str_model(self.dir);
        let ghost exm = crate::text::strs(self.existing@);
        proof {
            reveal_strlit("example");
            reveal_strlit("test");
            reveal_strlit("package");
            reveal_strlit("cargo-features");
            reveal_strlit("patch");
            assert("example"@.len() == 7 && "test"@.len() == 4 && "package"@.len() == 7
                && "cargo-features"@.len() == 14 && "patch"@.len() == 5);
            assert("example"@[0] == 'e' && "package"@[0] == 'p');
        }
        self.remove_missing_items("example", "examples");
        let ghost t1 = entries_model(self.table@);
        proof {
            lemma_remove_missing_preserves(t0, "example"@, "examples"@, dirm, exm, "test"@);
            lemma_remove_missing_preserves(t0, "example"@, "examples"@, dirm, exm, "patch"@);
        }
        self.remove_missing_items("test", "tests");
        let ghost t2 = entries_model(self.table@);
        proof {
            lemma_remove_missing_preserves(t1, "test"@, "tests"@, dirm, exm, "patch"@);
        }
        self.remove_parent_workspaces();
        let ghost t3 = entries_model(self.table@);
        proof {
            lemma_remove_pkg_key_preserves(t2, "workspace"@, "patch"@);
        }
        self.remove_unwanted_cargo_features();
        let ghost t4 = entries_model(self.table@);
        proof {
            lemma_remove_features_preserves(t3, "patch"@);
            assert(patch_wf(t4, self.patches@.len() > 0));
        }
        self.apply_patches();
    }
}

/// Filtering twice with the same predicate filters once.
pub proof fn lemma_m_filter_idem(items: Seq<TomlModel>, pred: spec_fn(TomlModel) -> bool)
    ensures
        m_filter(m_filter(items, pred), pred) == m_filter(items, pred),
    decreases items.len(),
{
    if items.len() == 0 {
    } else {
        let tail = items.subrange(1, items.len() as int);
        lemma_m_filter_idem(tail, pred);
        if pred(items[0]) {
            let f = seq![items[0]] + m_filter(tail, pred);
            assert(f[0] == items[0]);
            assert(f.subrange(1, f.len() as int) =~= m_filter(tail, pred));
            assert(m_filter(f, pred) == seq![items[0]] + m_filter(m_filter(tail, pred), pred));
        }
    }
}

/// Filtering keeps no element the predicate rejects.
pub proof fn lemma_m_filter_excludes(items: Seq<TomlModel>, pred: spec_fn(TomlModel) -> bool, x: TomlModel)
    requires
        !pred(x),
    ensures
        !m_filter(items, pred).contains(x),
    decreases items.len(),
{
    if items.len() == 0 {
    } else {
        let tail = items.subrange(1, items.len() as int);
        lemma_m_filter_excludes(tail, pred, x);
        if pred(items[0]) {
            let f = seq![items[0]] + m_filter(tail, pred);
            if f.contains(x) {
                let i = choose|i: int| 0 <= i < f.len() && f[i] == x;
                if i > 0 {
                    assert(m_filter(tail, pred)[i - 1] == x);
                }
            }
        }
    }
}

/// Reading back the key just set gives the value set.
pub proof fn lemma_m_get_after_set(t: Seq<(Seq<char>, TomlModel)>, k: Seq<char>, v: TomlModel)
    ensures
        m_get(m_set(t, k, v), k) == Some(v),
    decreases t.len(),
{
    if t.len() == 0 {
        assert(m_set(t, k, v)[0] == (k, v));
    } else if t[0].0 == k {
        assert(m_set(t, k, v)[0] == (k, v));
    } else {
        let tail = t.subrange(1, t.len() as int);
        lemma_m_get_after_set(tail, k, v);
        let r = m_set(t, k, v);
        assert(r[0] == t[0]);
        assert(r.subrange(1, r.len() as int) =~= m_set(tail, k, v));
    }
}

/// Setting a key to the value it already holds changes nothing.
pub proof fn lemma_m_set_same(t: Seq<(Seq<char>, TomlModel)>, k: Seq<char>, v: TomlModel)
    requires
        m_get(t, k) == Some(v),
    ensures
        m_set(t, k, v) == t,
    decreases t.len(),
{
    if t.len() == 0 {
    } else if t[0].0 == k {
        assert(t[0] == (k, v));
        assert(m_set(t, k, v) =~= t);
    } else {
        let tail = t.subrange(1, t.len() as int);
        lemma_m_set_same(tail, k, v);
        assert(m_set(t, k, v) =~= t);
    }
}

/// Removing an absent key changes nothing.
pub proof fn lemma_m_remove_absent(t: Seq<(Seq<char>, TomlModel)>, k: Seq<char>)
    requires
        m_get(t, k) is None,
    ensures
        m_remove(t, k) == t,
    decreases t.len(),
{
    if t.len() == 0 {
    } else {
        let tail = t.subrange(1, t.len() as int);
        lemma_m_remove_absent(tail, k);
        assert(m_remove(t, k) =~= t);
    }
}

/// After removal the key is gone.
pub proof fn lemma_m_remove_removes(t: Seq<(Seq<char>, TomlModel)>, k: Seq<char>)
    ensures
        m_get(m_remove(t, k), k) is None,
    decreases t.len(),
{
    if t.len() == 0 {
    } else {
        let tail = t.subrange(1, t.len() as int);
        lemma_m_remove_removes(tail, k);
        if t[0].0 != k {
            let r = m_remove(t, k);
            assert(r == seq![t[0]] + m_remove(tail, k));
            assert(r[0] == t[0]);
            assert(r.subrange(1, r.len() as int) =~= m_remove(tail, k));
        }
    }
}

/// Removing one key leaves every other key's value as it was.
pub proof fn lemma_m_remove_get_other(t: Seq<(Seq<char>, TomlModel)>, k: Seq<char>, k2: Seq<char>)
    requires
        k2 != k,
    ensures
        m_get(m_remove(t, k), k2) == m_get(t, k2),
    decreases t.len(),
{
    if t.len() == 0 {
    } else {
        let tail = t.subrange(1, t.len() as int);
        lemma_m_remove_get_other(tail, k, k2);
        if t[0].0 != k {
            let r = m_remove(t, k);
            assert(r == seq![t[0]] + m_remove(tail, k));
            assert(r[0] == t[0]);
            assert(r.subrange(1, r.len() as int) =~= m_remove(tail, k));
        }
    }
}

/// Setting keys other than `k` leaves `k`'s value as it was.
pub proof fn lemma_m_set_all_preserves_other(
    t: Seq<(Seq<char>, TomlModel)>,
    ps: Seq<(Seq<char>, TomlModel)>,
    k: Seq<char>,
)
    requires
        forall|i: int| 0 <= i < ps.len() ==> (#[trigger] ps[i]).0 != k,
    ensures
        m_get(m_set_all(t, ps), k) == m_get(t, k),
    decreases ps.len(),
{
    if ps.len() > 0 {
        let tail = ps.subrange(1, ps.len() as int);
        lemma_m_set_preserves_other(t, ps[0].0, ps[0].1, k);
        lemma_m_set_all_preserves_other(m_set(t, ps[0].0, ps[0].1), tail, k);
    }
}

/// With pairwise distinct keys, setting them all makes each readable back.
pub proof fn lemma_m_set_all_applied(
    t: Seq<(Seq<char>, TomlModel)>,
    ps: Seq<(Seq<char>, TomlModel)>,
)
    requires
        forall|i: int, j: int| 0 <= i < j < ps.len() ==> (#[trigger] ps[i]).0 != (#[trigger] ps[j]).0,
    ensures
        forall|i: int|
            0 <= i < ps.len() ==> m_get(m_set_all(t, ps), (#[trigger] ps[i]).0) == Some(ps[i].1),
    decreases ps.len(),
{
    if ps.len() > 0 {
        let tail = ps.subrange(1, ps.len() as int);
        let t1 = m_set(t, ps[0].0, ps[0].1);
        lemma_m_set_all_applied(t1, tail);
        lemma_m_get_after_set(t, ps[0].0, ps[0].1);
        assert(forall|j: int| 0 <= j < tail.len() ==> (#[trigger] tail[j]).0 != ps[0].0);
        lemma_m_set_all_preserves_other(t1, tail, ps[0].0);
        assert forall|i: int| 0 <= i < ps.len() implies m_get(m_set_all(t, ps), (#[trigger] ps[i]).0)
            == Some(ps[i].1) by {
            if i > 0 {
                assert(tail[i - 1] == ps[i]);
            }
        }
    }
}

/// Setting keys to the values they already hold changes nothing.
pub proof fn lemma_m_set_all_same(
    t: Seq<(Seq<char>, TomlModel)>,
    ps: Seq<(Seq<char>, TomlModel)>,
)
    requires
        forall|i: int| 0 <= i < ps.len() ==> m_get(t, (#[trigger] ps[i]).0) == Some(ps[i].1),
    ensures
        m_set_all(t, ps) == t,
    decreases ps.len(),
{
    if ps.len() > 0 {
        let tail = ps.subrange(1, ps.len() as int);
        lemma_m_set_same(t, ps[0].0, ps[0].1);
        assert(forall|i: int|
            0 <= i < tail.len() ==> m_get(t, (#[trigger] tail[i]).0) == Some(tail[i].1));
        lemma_m_set_all_same(t, tail);
    }
}

/// Applying patches leaves every key but `patch` as it was.
pub proof fn lemma_apply_patches_preserves(
    t: Seq<(Seq<char>, TomlModel)>,
    ps: Seq<(Seq<char>, TomlModel)>,
    k2: Seq<char>,
)
    requires
        k2 != "patch"@,
    ensures
        m_get(m_apply_patches(t, ps), k2) == m_get(t, k2),
{
    if ps.len() > 0 {
        let pt = match m_get(t, "patch"@) {
            Some(TomlModel::Tab(x)) => x,
            _ => Seq::empty(),
        };
        let ct = match m_get(pt, "crates-io"@) {
            Some(TomlModel::Tab(x)) => x,
            _ => Seq::empty(),
        };
        lemma_m_set_preserves_other(
            t,
            "patch"@,
            TomlModel::Tab(m_set(pt, "crates-io"@, TomlModel::Tab(m_set_all(ct, ps)))),
            k2,
        );
    }
}

/// Pruning a category whose array is already pruned changes nothing.
proof fn lemma_remove_missing_second(
    t: Seq<(Seq<char>, TomlModel)>,
    u: Seq<(Seq<char>, TomlModel)>,
    cat: Seq<char>,
    folder: Seq<char>,
    dir: Option<Seq<char>>,
    existing: Seq<Seq<char>>,
)
    requires
        m_get(u, cat) == m_get(m_remove_missing(t, cat, folder, dir, existing), cat),
    ensures
        m_remove_missing(u, cat, folder, dir, existing) == u,
{
    match dir {
        None => {},
        Some(d) => {
            let pred = |e: TomlModel| entry_keep(e, d, folder, existing);
            match m_get(t, cat) {
                Some(TomlModel::Arr(items)) => {
                    let f = m_filter(items, pred);
                    lemma_m_get_after_set(t, cat, TomlModel::Arr(f));
                    assert(m_get(u, cat) == Some(TomlModel::Arr(f)));
                    lemma_m_filter_idem(items, pred);
                    lemma_m_set_same(u, cat, TomlModel::Arr(f));
                },
                _ => {},
            }
        },
    }
}

/// Whether the `package` table, if one stands there, is free of key `k`.
pub open spec fn pkg_no_key(t: Seq<(Seq<char>, TomlModel)>, k: Seq<char>) -> bool {
    match m_get(t, "package"@) {
        Some(TomlModel::Tab(pkg)) => m_get(pkg, k) is None,
        _ => true,
    }
}

/// Dropping the key from `package` leaves `package` free of it.
proof fn lemma_remove_pkg_key_gone(t: Seq<(Seq<char>, TomlModel)>, k: Seq<char>)
    ensures
        pkg_no_key(m_remove_pkg_key(t, k), k),
{
    match m_get(t, "package"@) {
        Some(TomlModel::Tab(pkg)) => {
            lemma_m_get_after_set(t, "package"@, TomlModel::Tab(m_remove(pkg, k)));
            lemma_m_remove_removes(pkg, k);
        },
        _ => {},
    }
}

/// Dropping one key from `package` keeps it free of another.
proof fn lemma_remove_pkg_key_keeps_gone(
    t: Seq<(Seq<char>, TomlModel)>,
    k: Seq<char>,
    k2: Seq<char>,
)
    requires
        pkg_no_key(t, k),
        k2 != k,
    ensures
        pkg_no_key(m_remove_pkg_key(t, k2), k),
{
    match m_get(t, "package"@) {
        Some(TomlModel::Tab(pkg)) => {
            lemma_m_get_after_set(t, "package"@, TomlModel::Tab(m_remove(pkg, k2)));
            lemma_m_remove_get_other(pkg, k2, k);
        },
        _ => {},
    }
}

/// Setting a key other than `package` keeps `package` free of `k`.
proof fn lemma_set_keeps_pkg_no_key(
    t: Seq<(Seq<char>, TomlModel)>,
    sk: Seq<char>,
    sv: TomlModel,
    k: Seq<char>,
)
    requires
        pkg_no_key(t, k),
        sk != "package"@,
    ensures
        pkg_no_key(m_set(t, sk, sv), k),
{
    lemma_m_set_preserves_other(t, sk, sv, "package"@);
}

/// Dropping a key already gone from `package` changes nothing.
proof fn lemma_remove_pkg_second(u: Seq<(Seq<char>, TomlModel)>, k: Seq<char>)
    requires
        pkg_no_key(u, k),
    ensures
        m_remove_pkg_key(u, k) == u,
{
    match m_get(u, "package"@) {
        Some(TomlModel::Tab(pkg)) => {
            lemma_m_remove_absent(pkg, k);
            lemma_m_set_same(u, "package"@, TomlModel::Tab(pkg));
        },
        _ => {},
    }
}

/// Scrubbing a manifest whose `cargo-features` array is already scrubbed
/// changes nothing.
proof fn lemma_remove_features_second(u: Seq<(Seq<char>, TomlModel)>)
    requires
        match m_get(u, "cargo-features"@) {
            Some(TomlModel::Arr(items)) => m_filter(items, |e: TomlModel| feature_keep(e)) == items
                && !items.contains(TomlModel::Str("publish-lockfile"@)) && !items.contains(
                TomlModel::Str("default-run"@),
            ),
            _ => true,
        },
    ensures
        m_remove_features(u) == u,
{
    match m_get(u, "cargo-features"@) {
        Some(TomlModel::Arr(items)) => {
            lemma_m_set_same(u, "cargo-features"@, TomlModel::Arr(items));
        },
        _ => {},
    }
}

/// Applying patches that are already applied changes nothing.
proof fn lemma_apply_patches_second(
    u: Seq<(Seq<char>, TomlModel)>,
    ps: Seq<(Seq<char>, TomlModel)>,
)
    requires
        ps.len() > 0 ==> match m_get(u, "patch"@) {
            Some(TomlModel::Tab(pt)) => match m_get(pt, "crates-io"@) {
                Some(TomlModel::Tab(ct)) => forall|i: int|
                    0 <= i < ps.len() ==> m_get(ct, (#[trigger] ps[i]).0) == Some(ps[i].1),
                _ => false,
            },
            _ => false,
        },
    ensures
        m_apply_patches(u, ps) == u,
{
    if ps.len() > 0 {
        let pt = match m_get(u, "patch"@) {
            Some(TomlModel::Tab(x)) => x,
            _ => Seq::empty(),
        };
        let ct = match m_get(pt, "crates-io"@) {
            Some(TomlModel::Tab(x)) => x,
            _ => Seq::empty(),
        };
        lemma_m_set_all_same(ct, ps);
        lemma_m_set_same(pt, "crates-io"@, TomlModel::Tab(ct));
        lemma_m_set_same(u, "patch"@, TomlModel::Tab(pt));
    }
}

/// Rewriting is idempotent: rewriting an already-rewritten manifest gives
/// the same table again. The patch directives must name pairwise distinct
/// dependencies.
pub proof fn lemma_tweak_idempotent(
    t: Seq<(Seq<char>, TomlModel)>,
    dir: Option<Seq<char>>,
    existing: Seq<Seq<char>>,
    ps: Seq<(Seq<char>, TomlModel)>,
)
    requires
        forall|i: int, j: int|
            0 <= i < j < ps.len() ==> (#[trigger] ps[i]).0 != (#[trigger] ps[j]).0,
    ensures
        m_tweak(m_tweak(t, dir, existing, ps), dir, existing, ps) == m_tweak(
            t,
            dir,
            existing,
            ps,
        ),
{
    reveal_strlit("example");
    reveal_strlit("test");
    reveal_strlit("package");
    reveal_strlit("cargo-features");
    reveal_strlit("patch");
    reveal_strlit("workspace");
    reveal_strlit("publish-lockfile");
    reveal_strlit("default-run");
    assert("example"@.len() == 7 && "test"@.len() == 4 && "package"@.len() == 7
        && "cargo-features"@.len() == 14 && "patch"@.len() == 5 && "workspace"@.len() == 9
        && "publish-lockfile"@.len() == 16 && "default-run"@.len() == 11);
    assert("example"@[0] == 'e' && "package"@[0] == 'p');
    let a = m_remove_missing(t, "example"@, "examples"@, dir, existing);
    let b = m_remove_missing(a, "test"@, "tests"@, dir, existing);
    let c = m_remove_pkg_key(b, "workspace"@);
    let d = m_remove_features(c);
    let e = m_apply_patches(d, ps);
    assert(e == m_tweak(t, dir, existing, ps));

    // The example and test arrays reach `e` as the first pass left them.
    lemma_remove_missing_preserves(a, "test"@, "tests"@, dir, existing, "example"@);
    lemma_remove_pkg_key_preserves(b, "workspace"@, "example"@);
    lemma_remove_features_preserves(c, "example"@);
    lemma_apply_patches_preserves(d, ps, "example"@);
    assert(m_get(e, "example"@) == m_get(a, "example"@));
    lemma_remove_missing_second(t, e, "example"@, "examples"@, dir, existing);
    assert(m_remove_missing(e, "example"@, "examples"@, dir, existing) == e);

    lemma_remove_pkg_key_preserves(b, "workspace"@, "test"@);
    lemma_remove_features_preserves(c, "test"@);
    lemma_apply_patches_preserves(d, ps, "test"@);
    assert(m_get(e, "test"@) == m_get(b, "test"@));
    lemma_remove_missing_second(a, e, "test"@, "tests"@, dir, existing);

    // After the first pass the package table is free of `workspace`.
    lemma_remove_pkg_key_gone(b, "workspace"@);
    assert(pkg_no_key(c, "workspace"@));
    assert(pkg_no_key(d, "workspace"@)) by {
        match m_get(c, "cargo-features"@) {
            Some(TomlModel::Arr(items)) => {
                let t1 = m_set(
                    c,
                    "cargo-features"@,
                    TomlModel::Arr(m_filter(items, |x: TomlModel| feature_keep(x))),
                );
                lemma_set_keeps_pkg_no_key(
                    c,
                    "cargo-features"@,
                    TomlModel::Arr(m_filter(items, |x: TomlModel| feature_keep(x))),
                    "workspace"@,
                );
                let t2 = if items.contains(TomlModel::Str("publish-lockfile"@)) {
                    lemma_remove_pkg_key_keeps_gone(t1, "workspace"@, "publish-lockfile"@);
                    m_remove_pkg_key(t1, "publish-lockfile"@)
                } else {
                    t1
                };
                if items.contains(TomlModel::Str("default-run"@)) {
                    lemma_remove_pkg_key_keeps_gone(t2, "workspace"@, "default-run"@);
                }
            },
            _ => {},
        }
    }
    assert(pkg_no_key(e, "workspace"@)) by {
        lemma_apply_patches_preserves(d, ps, "package"@);
    }
    lemma_remove_pkg_second(e, "workspace"@);

    // The scrubbed feature array reaches `e` scrubbed.
    lemma_remove_missing_preserves(t, "example"@, "examples"@, dir, existing, "cargo-features"@);
    lemma_remove_missing_preserves(a, "test"@, "tests"@, dir, existing, "cargo-features"@);
    lemma_remove_pkg_key_preserves(b, "workspace"@, "cargo-features"@);
    assert(m_get(c, "cargo-features"@) == m_get(t, "cargo-features"@));
    let fpred = |x: TomlModel| feature_keep(x);
    assert(match m_get(e, "cargo-features"@) {
        Some(TomlModel::Arr(items)) => m_filter(items, fpred) == items && !items.contains(
            TomlModel::Str("publish-lockfile"@),
        ) && !items.contains(TomlModel::Str("default-run"@)),
        _ => true,
    }) by {
        match m_get(c, "cargo-features"@) {
            Some(TomlModel::Arr(items)) => {
                let ff = m_filter(items, fpred);
                let t1 = m_set(c, "cargo-features"@, TomlModel::Arr(ff));
                lemma_m_get_after_set(c, "cargo-features"@, TomlModel::Arr(ff));
                let t2 = if items.contains(TomlModel::Str("publish-lockfile"@)) {
                    lemma_remove_pkg_key_preserves(t1, "publish-lockfile"@, "cargo-features"@);
                    m_remove_pkg_key(t1, "publish-lockfile"@)
                } else {
                    t1
                };
                if items.contains(TomlModel::Str("default-run"@)) {
                    lemma_remove_pkg_key_preserves(t2, "default-run"@, "cargo-features"@);
                }
                lemma_apply_patches_preserves(d, ps, "cargo-features"@);
                lemma_m_filter_idem(items, fpred);
                assert(!feature_keep(TomlModel::Str("publish-lockfile"@)));
                lemma_m_filter_excludes(items, fpred, TomlModel::Str("publish-lockfile"@));
                lemma_m_filter_excludes(items, fpred, TomlModel::Str("default-run"@));
            },
            _ => {
                lemma_apply_patches_preserves(d, ps, "cargo-features"@);
            },
        }
    }
    lemma_remove_features_second(e);

    // The patches reach `e` applied.
    if ps.len() > 0 {
        let pt = match m_get(d, "patch"@) {
            Some(TomlModel::Tab(x)) => x,
            _ => Seq::empty(),
        };
        let ct = match m_get(pt, "crates-io"@) {
            Some(TomlModel::Tab(x)) => x,
            _ => Seq::empty(),
        };
        let ct2 = m_set_all(ct, ps);
        let pt2 = m_set(pt, "crates-io"@, TomlModel::Tab(ct2));
        lemma_m_get_after_set(d, "patch"@, TomlModel::Tab(pt2));
        lemma_m_get_after_set(pt, "crates-io"@, TomlModel::Tab(ct2));
        lemma_m_set_all_applied(ct, ps);
    }
    lemma_apply_patches_second(e, ps);
}

} // verus!
