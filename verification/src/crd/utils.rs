//! Removing a version from a custom resource definition.
use vstd::prelude::*;

use crate::text::{str_equal, string_views};

verus! {

/// The versions other than `version`, in order.
pub open spec fn without_version(versions: Seq<Seq<char>>, version: Seq<char>) -> Seq<Seq<char>>
    decreases versions.len(),
{
    if versions.len() == 0 {
        Seq::empty()
    } else {
        let prev = without_version(versions.drop_last(), version);
        if versions.last() == version {
            prev
        } else {
            prev.push(versions.last())
        }
    }
}

/// Removing a version takes out every occurrence of it and keeps every other version:
/// afterwards the version is gone, any other is there exactly when it was before, and
/// removing it again changes nothing.
pub proof fn lemma_without_version(versions: Seq<Seq<char>>, version: Seq<char>)
    ensures
        !without_version(versions, version).contains(version),
        forall|v: Seq<char>|
            v != version ==> (without_version(versions, version).contains(v) <==> versions.contains(v)),
        without_version(without_version(versions, version), version) == without_version(versions, version),
    decreases versions.len(),
{
    if versions.len() > 0 {
        let init = versions.drop_last();
        let last = versions.last();
        lemma_without_version(init, version);
        let prev = without_version(init, version);
        assert(versions =~= init.push(last));
        assert forall|v: Seq<char>| #[trigger] versions.contains(v) <==> (init.contains(v) || v == last) by {
            if versions.contains(v) {
                let i = choose|i: int| 0 <= i < versions.len() && versions[i] == v;
                if i < versions.len() - 1 {
                    assert(init[i] == v);
                }
            }
            if init.contains(v) {
                let i = choose|i: int| 0 <= i < init.len() && init[i] == v;
                assert(versions[i] == v);
            }
            if v == last {
                assert(versions[versions.len() - 1] == v);
            }
        }
        if last != version {
            let pushed = prev.push(last);
            assert forall|v: Seq<char>| #[trigger] pushed.contains(v) <==> (prev.contains(v) || v == last) by {
                if pushed.contains(v) {
                    let i = choose|i: int| 0 <= i < pushed.len() && pushed[i] == v;
                    if i < prev.len() {
                        assert(prev[i] == v);
                    }
                }
                if prev.contains(v) {
                    let i = choose|i: int| 0 <= i < prev.len() && prev[i] == v;
                    assert(pushed[i] == v);
                }
                if v == last {
                    assert(pushed[prev.len() as int] == v);
                }
            }
            assert(pushed.drop_last() =~= prev);
            assert(pushed.last() == last);
        }
    }
}

/// The stored versions of a definition once `crd_version` is removed from them;
/// `remove_served_version` removes it from the served versions.
pub fn remove_crd_version(versions: &Vec<String>, crd_version: &str) -> (r: Vec<String>)
    ensures
        string_views(r@) == without_version(string_views(versions@), crd_version@),
{
    let ghost all = string_views(versions@);
    let mut out: Vec<String> = Vec::new();
    let mut i: usize = 0;
    while i < versions.len()
        invariant
            i <= versions.len(),
            all == string_views(versions@),
            string_views(out@) == without_version(all.take(i as int), crd_version@),
        decreases versions.len() - i,
    {
        proof {
            assert(all.take(i + 1).drop_last() =~= all.take(i as int));
            assert(all.take(i + 1).last() == versions@[i as int]@);
        }
        if !str_equal(versions[i].as_str(), crd_version) {
            let ghost before = string_views(out@);
            out.push(versions[i].clone());
            assert(string_views(out@) =~= before.push(versions@[i as int]@));
        }
        i = i + 1;
    }
    assert(all.take(versions.len() as int) =~= all);
    out
}

/// The served versions other than those named `version`, in order; `names` holds the
/// name of each served version, by position.
pub open spec fn kept_by_name<T>(versions: Seq<T>, names: Seq<Seq<char>>, version: Seq<char>) -> Seq<T>
    decreases versions.len(),
{
    if versions.len() == 0 {
        Seq::empty()
    } else {
        let prev = kept_by_name(versions.drop_last(), names, version);
        if names[versions.len() - 1] == version {
            prev
        } else {
            prev.push(versions.last())
        }
    }
}

/// The served versions of a definition once `crd_version` is removed from them:
/// those whose name, given by position in `names`, is another.
pub fn remove_served_version<T>(versions: Vec<T>, names: &Vec<String>, crd_version: &str) -> (r: Vec<T>)
    requires
        versions.len() == names.len(),
    ensures
        r@ == kept_by_name(versions@, string_views(names@), crd_version@),
{
    let ghost all = versions@;
    let ghost all_names = string_views(names@);
    let n = versions.len();
    let mut rest = versions;
    let mut out: Vec<T> = Vec::new();
    let mut i: usize = 0;
    while i < n
        invariant
            i <= n,
            n == names.len(),
            n == all.len(),
            all_names == string_views(names@),
            rest@ == all.skip(i as int),
            out@ == kept_by_name(all.take(i as int), all_names, crd_version@),
        decreases n - i,
    {
        let ghost before = rest@;
        let v = rest.remove(0);
        proof {
            assert(v == all[i as int]);
            assert(rest@ =~= all.skip(i + 1));
            assert(all.take(i + 1).drop_last() =~= all.take(i as int));
            assert(all.take(i + 1).last() == all[i as int]);
            assert(all_names[i as int] == names@[i as int]@);
        }
        if !str_equal(names[i].as_str(), crd_version) {
            out.push(v);
        }
        i = i + 1;
    }
    assert(all.take(n as int) =~= all);
    out
}

/// `kept_by_name` keeps as many versions as `without_version` keeps names, when there
/// is a name for each version.
proof fn lemma_kept_len<T>(versions: Seq<T>, names: Seq<Seq<char>>, version: Seq<char>)
    requires
        versions.len() <= names.len(),
    ensures
        kept_by_name(versions, names, version).len() == without_version(
            names.take(versions.len() as int),
            version,
        ).len(),
    decreases versions.len(),
{
    if versions.len() > 0 {
        lemma_kept_len(versions.drop_last(), names, version);
        let t = names.take(versions.len() as int);
        assert(t.drop_last() =~= names.take(versions.len() - 1));
        assert(t.last() == names[versions.len() - 1]);
    }
}

/// Keeping by name the names themselves gives the names other than `version`.
proof fn lemma_kept_names(names: Seq<Seq<char>>, k: int, version: Seq<char>)
    requires
        0 <= k <= names.len(),
    ensures
        kept_by_name(names.take(k), names, version) == without_version(names.take(k), version),
    decreases k,
{
    if k > 0 {
        lemma_kept_names(names, k - 1, version);
        assert(names.take(k).drop_last() =~= names.take(k - 1));
        assert(names.take(k).last() == names[k - 1]);
    }
}

/// Versions none of whose names is `version` are all kept.
proof fn lemma_kept_all<T>(versions: Seq<T>, names: Seq<Seq<char>>, version: Seq<char>)
    requires
        versions.len() <= names.len(),
        forall|i: int| 0 <= i < versions.len() ==> names[i] != version,
    ensures
        kept_by_name(versions, names, version) == versions,
    decreases versions.len(),
{
    if versions.len() > 0 {
        lemma_kept_all(versions.drop_last(), names, version);
        assert(versions.drop_last().push(versions.last()) =~= versions);
    }
}

/// Removing a version from a definition: afterwards its stored versions lack it and
/// keep every other; the served versions kept are those named otherwise, as many as
/// there are such names, and kept by their names they are the names other than it;
/// removing the same version again changes neither list.
pub proof fn lemma_remove_crd_version_twice<T>(
    stored: Seq<Seq<char>>,
    served: Seq<T>,
    served_names: Seq<Seq<char>>,
    version: Seq<char>,
)
    requires
        served.len() == served_names.len(),
    ensures
        !without_version(stored, version).contains(version),
        forall|v: Seq<char>|
            v != version ==> (without_version(stored, version).contains(v) <==> stored.contains(v)),
        kept_by_name(served, served_names, version).len() == without_version(served_names, version).len(),
        kept_by_name(served_names, served_names, version) == without_version(served_names, version),
        without_version(without_version(stored, version), version) == without_version(stored, version),
        kept_by_name(
            kept_by_name(served, served_names, version),
            without_version(served_names, version),
            version,
        ) == kept_by_name(served, served_names, version),
{
    lemma_without_version(stored, version);
    lemma_without_version(served_names, version);
    lemma_kept_len(served, served_names, version);
    assert(served_names.take(served.len() as int) =~= served_names);
    lemma_kept_names(served_names, served_names.len() as int, version);
    let names = without_version(served_names, version);
    let kept = kept_by_name(served, served_names, version);
    assert forall|i: int| 0 <= i < kept.len() implies names[i] != version by {
        if names[i] == version {
            assert(names.contains(version));
        }
    }
    lemma_kept_all(kept, names, version);
}

/// Removing a version from a definition a second time leaves both of its lists as the
/// first removal left them: `first` and `first_served` are what `remove_crd_version` and
/// `remove_served_version` give for the definition's stored and served versions;
/// `second` and `second_served` are what they give for the lists that the first removal
/// left, the served versions kept being named by the served names kept.
pub proof fn lemma_second_removal_changes_nothing<T>(
    stored: Seq<Seq<char>>,
    served: Seq<T>,
    served_names: Seq<Seq<char>>,
    version: Seq<char>,
    first: Seq<Seq<char>>,
    second: Seq<Seq<char>>,
    first_served: Seq<T>,
    second_served: Seq<T>,
)
    requires
        served.len() == served_names.len(),
        first == without_version(stored, version),
        second == without_version(first, version),
        first_served == kept_by_name(served, served_names, version),
        second_served == kept_by_name(first_served, without_version(served_names, version), version),
    ensures
        second == first,
        second_served == first_served,
{
    lemma_remove_crd_version_twice(stored, served, served_names, version);
}

} // verus!
