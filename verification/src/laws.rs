//! What holds of the graph as a whole, stated over the models of
//! the operations and proved from them.

use crate::adapter::{
    dependency_neighbors, package_vertices, starting_ids, structural_neighbors, wanted,
};
use crate::advisory::{advisory_history, matching, AdvisoryQuery, AdvisoryView, Severity};
use crate::client::{cache_after, slot_after, ClientSlot};
use crate::edge::{coerces_to, CoercionTarget, Edge};
use crate::geiger::CategoriesView;
use crate::index::{index_consistent, DependencyIndex};
use crate::neighbors::{repository_step, repository_vertex, NeighborsView};
use crate::repository::GitHubRepositoryView;
use crate::value::AdapterError;
use crate::vertex::VertexView;
use vstd::prelude::*;

verus! {

/// A filter of a sequence without repetitions has no repetitions.
pub proof fn lemma_filter_distinct<A>(s: Seq<A>, pred: spec_fn(A) -> bool)
    requires
        s.no_duplicates(),
    ensures
        s.filter(pred).no_duplicates(),
    decreases s.len(),
{
    reveal(Seq::filter);
    if s.len() > 0 {
        let front = s.drop_last();
        let kept = front.filter(pred);
        lemma_filter_distinct(front, pred);
        if pred(s.last()) {
            if kept.contains(s.last()) {
                front.lemma_filter_contains_rev(pred, s.last());
                let i = choose|i: int| 0 <= i < front.len() && front[i] == s.last();
                assert(s[i] == s[s.len() - 1]);
            }
            assert forall|i: int, j: int|
                0 <= i < kept.push(s.last()).len() && 0 <= j < kept.push(s.last()).len() && i
                    != j implies kept.push(s.last())[i] != kept.push(s.last())[j] by {
                if i < kept.len() && j < kept.len() {
                    assert(kept[i] != kept[j]);
                } else if i < kept.len() {
                    if kept[i] == s.last() {
                        assert(kept.contains(s.last()));
                    }
                } else {
                    if kept[j] == s.last() {
                        assert(kept.contains(s.last()));
                    }
                }
            }
        }
    }
}

/// The `Dependencies` edge and the root package: without `include_root` no
/// vertex that the edge starts from is the root package, and with it exactly
/// one is. Every vertex is the package of the identity at its position.
pub proof fn lemma_dependencies_root(index: DependencyIndex, include_root: bool)
    requires
        index.wf(),
    ensures
        ({
            let ids = starting_ids(index, include_root);
            let vertices = package_vertices(index.packages(), ids);
            &&& vertices.len() == ids.len()
            &&& forall|i: int|
                0 <= i < ids.len() ==> (#[trigger] vertices[i]) is Package
                    && vertices[i]->Package_0.id == ids[i]
            &&& !include_root ==> forall|i: int|
                0 <= i < ids.len() ==> (#[trigger] vertices[i])->Package_0.id != index.root()
            &&& include_root ==> exists|i: int|
                0 <= i < ids.len() && (#[trigger] vertices[i])->Package_0.id == index.root()
                    && forall|j: int|
                    0 <= j < ids.len() && (#[trigger] vertices[j])->Package_0.id == index.root()
                        ==> j == i
        }),
{
    let order = index.order();
    let keep = wanted(index.root(), include_root);
    let ids = starting_ids(index, include_root);
    let vertices = package_vertices(index.packages(), ids);
    index.lemma_order();
    index.lemma_consistent();
    lemma_filter_distinct(order, keep);
    assert forall|i: int| 0 <= i < ids.len() implies (#[trigger] vertices[i]) is Package
        && vertices[i]->Package_0.id == ids[i] && keep(ids[i]) by {
        order.lemma_filter_pred(keep, i);
        assert(ids.contains(ids[i]));
        order.lemma_filter_contains_rev(keep, ids[i]);
        let n = choose|n: int| 0 <= n < order.len() && order[n] == ids[i];
        assert(index.packages().contains_key(order[n]));
    }
    if include_root {
        let n = choose|n: int| 0 <= n < order.len() && order[n] == index.root();
        assert(keep(order[n]));
        order.lemma_filter_contains(keep, n);
        let at = choose|at: int| 0 <= at < ids.len() && ids[at] == index.root();
        assert(vertices[at]->Package_0.id == index.root());
        assert forall|j: int|
            0 <= j < ids.len() && (#[trigger] vertices[j])->Package_0.id
                == index.root() implies j == at by {
            assert(ids[j] == ids[at]);
        }
    }
}

/// The `dependencies` edge of a package of the index: it yields as many
/// vertices as the package has recorded direct dependencies, and the vertex
/// at each position is the package of the dependency recorded there.
pub proof fn lemma_dependencies_in_recorded_order(index: DependencyIndex, id: Seq<char>)
    requires
        index.wf(),
        index.packages().contains_key(id),
    ensures
        index.dependencies().contains_key(id),
        dependency_neighbors(index, id).len() == index.dependencies()[id].len(),
        forall|k: int|
            0 <= k < dependency_neighbors(index, id).len() ==> (#[trigger] dependency_neighbors(
                index,
                id,
            )[k]) is Package && dependency_neighbors(index, id)[k]->Package_0.id
                == index.dependencies()[id][k],
{
    index.lemma_consistent();
    let recorded = index.dependencies()[id];
    let vertices = package_vertices(index.packages(), recorded);
    assert forall|k: int| 0 <= k < vertices.len() implies (#[trigger] vertices[k]) is Package
        && vertices[k]->Package_0.id == recorded[k] by {
        assert(index.packages().contains_key(index.dependencies()[id][k]));
    }
}

/// Every vertex that the `repository` edge yields is a generic repository or
/// a repository on GitHub, and never both.
pub proof fn lemma_repository_coercions_exclusive(
    url: Seq<char>,
    found: Option<GitHubRepositoryView>,
)
    ensures
        coerces_to(repository_vertex(url, found), CoercionTarget::Repository) != coerces_to(
            repository_vertex(url, found),
            CoercionTarget::GitHubRepository,
        ),
        repository_step(url) matches NeighborsView::Ready(vertices) ==> vertices.len() == 1
            && coerces_to(vertices[0], CoercionTarget::Repository) && !coerces_to(
            vertices[0],
            CoercionTarget::GitHubRepository,
        ),
{
}

/// An advisory history without the withdrawn advisories holds none that
/// carries a withdrawal date.
pub proof fn lemma_history_without_withdrawn(
    database: Seq<AdvisoryView>,
    package: Seq<char>,
    arch: Option<Seq<char>>,
    os: Option<Seq<char>>,
    min_severity: Option<Severity>,
)
    ensures
        forall|i: int|
            0 <= i < advisory_history(database, package, false, arch, os, min_severity).len()
                ==> (#[trigger] advisory_history(
                database,
                package,
                false,
                arch,
                os,
                min_severity,
            )[i]).withdrawn is None,
{
    let query = AdvisoryQuery { package, withdrawn: false, arch, os, min_severity };
    let history = advisory_history(database, package, false, arch, os, min_severity);
    assert forall|i: int| 0 <= i < history.len() implies (#[trigger] history[i]).withdrawn
        is None by {
        database.lemma_filter_pred(matching(query), i);
    }
}

/// Asking for the withdrawn advisories too only adds to the history: what
/// the history holds without them, it holds with them, at the same
/// positions.
pub proof fn lemma_history_with_withdrawn_is_superset(
    database: Seq<AdvisoryView>,
    package: Seq<char>,
    arch: Option<Seq<char>>,
    os: Option<Seq<char>>,
    min_severity: Option<Severity>,
)
    ensures
        advisory_history(database, package, false, arch, os, min_severity).is_prefix_of(
            advisory_history(database, package, true, arch, os, min_severity),
        ),
        forall|advisory: AdvisoryView|
            advisory_history(database, package, false, arch, os, min_severity).contains(advisory)
                ==> advisory_history(database, package, true, arch, os, min_severity).contains(
                advisory,
            ),
{
    let without = advisory_history(database, package, false, arch, os, min_severity);
    let with = advisory_history(database, package, true, arch, os, min_severity);
    assert(without.is_prefix_of(with));
    assert forall|advisory: AdvisoryView| without.contains(advisory) implies with.contains(
        advisory,
    ) by {
        let i = choose|i: int| 0 <= i < without.len() && without[i] == advisory;
        assert(with[i] == advisory);
    }
}

/// No advisory comes twice in a history: where the database holds no
/// advisory twice, neither does the history, with or without the withdrawn
/// advisories.
pub proof fn lemma_history_without_repetition(
    database: Seq<AdvisoryView>,
    package: Seq<char>,
    include_withdrawn: bool,
    arch: Option<Seq<char>>,
    os: Option<Seq<char>>,
    min_severity: Option<Severity>,
)
    requires
        database.no_duplicates(),
    ensures
        advisory_history(
            database,
            package,
            include_withdrawn,
            arch,
            os,
            min_severity,
        ).no_duplicates(),
{
    let in_force = AdvisoryQuery { package, withdrawn: false, arch, os, min_severity };
    let withdrawn = AdvisoryQuery { package, withdrawn: true, arch, os, min_severity };
    let first = database.filter(matching(in_force));
    let second = database.filter(matching(withdrawn));
    lemma_filter_distinct(database, matching(in_force));
    lemma_filter_distinct(database, matching(withdrawn));
    assert forall|i: int, j: int| 0 <= i < first.len() && 0 <= j < second.len() implies first[i]
        != second[j] by {
        database.lemma_filter_pred(matching(in_force), i);
        database.lemma_filter_pred(matching(withdrawn), j);
    }
    vstd::seq_lib::lemma_no_dup_in_concat(first, second);
}

/// The total of a decomposition into categories: its safe, unsafe and
/// overall numbers are the sums of those of the five categories, and it is
/// what the `total` edge of the decomposition leads to.
pub proof fn lemma_categories_total(categories: CategoriesView)
    ensures
        categories.total().safe == categories.functions.safe + categories.exprs.safe
            + categories.item_impls.safe + categories.item_traits.safe + categories.methods.safe,
        categories.total().unsafe_ == categories.functions.unsafe_ + categories.exprs.unsafe_
            + categories.item_impls.unsafe_ + categories.item_traits.unsafe_
            + categories.methods.unsafe_,
        categories.total().total() == categories.functions.total() + categories.exprs.total()
            + categories.item_impls.total() + categories.item_traits.total()
            + categories.methods.total(),
        structural_neighbors(VertexView::GeigerCategories(categories), Edge::GeigerCategoriesTotal)
            == Ok::<NeighborsView, AdapterError>(
            NeighborsView::Ready(seq![VertexView::GeigerCount(categories.total())]),
        ),
{
}

/// A client slot is filled at most once: after one outcome has been
/// recorded, recording another changes nothing.
pub proof fn lemma_slot_filled_once<T>(slot: ClientSlot<T>, first: Option<T>, second: Option<T>)
    ensures
        slot_after(slot_after(slot, first), second) == slot_after(slot, first),
        slot is Ready ==> slot_after(slot, first) == slot,
{
}

/// A service is asked each question at most once: once an answer has been
/// remembered, the question has an answer, and remembering another answer
/// to it changes nothing.
pub proof fn lemma_cache_keeps_first_answer<V>(
    cache: Map<Seq<char>, Option<V>>,
    key: Seq<char>,
    first: Option<V>,
    second: Option<V>,
)
    ensures
        cache_after(cache, key, first).contains_key(key),
        !cache.contains_key(key) ==> cache_after(cache, key, first)[key] == first,
        cache_after(cache_after(cache, key, first), key, second) == cache_after(cache, key, first),
{
}

/// The two maps of an index are consistent: the key of a package is its
/// identity, every package has an entry in the dependency map, and every
/// identity in a dependency list is that of a package.
pub proof fn lemma_index_consistent(index: DependencyIndex)
    requires
        index.wf(),
    ensures
        index_consistent(index.packages(), index.dependencies()),
{
    index.lemma_consistent();
}

} // verus!
