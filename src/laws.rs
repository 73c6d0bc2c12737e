use vstd::prelude::*;

use crate::cluster::{entries_result, keyword_group, ClusterEntry, ClusterFault};
use crate::family::{family_capability, GroupKeyword, PubMarker, PvtMarker, UniMarker};
use crate::group::{
    category_levels, category_supports, provide_result, unavailable_text, AccessCategory,
    AccessUnavailable, CellGroup,
};
use crate::lattice::{Capability, CellAccessLevels, CellImpl, CellRoles};
use crate::scope::{
    cast_value, coercion_type, compiled, lowered, normalized, run_result, sum, Canonical, Family,
    ScopeExpr, ScopePlan, World,
};

verus! {

/// For every kind and category, a group's private, uniform and public
/// queries answer exactly: uniform (no, yes, no), private (yes, no, no),
/// public (no, no, yes), access (yes, no, yes).
pub proof fn lemma_access_queries(kind: CellImpl, category: AccessCategory)
    ensures
        (
            category_supports(category, CellAccessLevels::Private),
            category_supports(category, CellAccessLevels::Uniform),
            category_supports(category, CellAccessLevels::Public),
        ) == match category {
            AccessCategory::Uniform => (false, true, false),
            AccessCategory::Private => (true, false, false),
            AccessCategory::Public => (false, false, true),
            AccessCategory::Access => (true, false, true),
        },
{
}

/// A group declares a triple for exactly the access levels it supports, one
/// triple per level: no declared type carries a level its category refuses.
pub proof fn lemma_declared_levels_are_supported(category: AccessCategory, level: CellAccessLevels)
    ensures
        category_levels(category).contains(level) <==> category_supports(category, level),
        category_levels(category).no_duplicates(),
{
    match category {
        AccessCategory::Access => {
            assert(category_levels(category)[0] == CellAccessLevels::Public);
            assert(category_levels(category)[1] == CellAccessLevels::Private);
            if category_supports(category, level) {
                if level == CellAccessLevels::Public {
                    assert(category_levels(category)[0] == level);
                } else {
                    assert(category_levels(category)[1] == level);
                }
            }
        },
        _ => {
            assert(category_levels(category)[0] == category_levels(category).last());
            if category_supports(category, level) {
                assert(category_levels(category)[0] == level);
            }
        },
    }
}

/// Every owner and cell of a group declared with keyword `G` carries the
/// group's kind, its own role, and the access level of its triple.
pub proof fn lemma_family_capabilities<G: GroupKeyword>(role: CellRoles)
    ensures
        family_capability::<UniMarker<G>>(role) == (Capability {
            kind: G::spec_group().kind,
            access: CellAccessLevels::Uniform,
            role,
        }),
        family_capability::<PubMarker<G>>(role) == (Capability {
            kind: G::spec_group().kind,
            access: CellAccessLevels::Public,
            role,
        }),
        family_capability::<PvtMarker<G>>(role) == (Capability {
            kind: G::spec_group().kind,
            access: CellAccessLevels::Private,
            role,
        }),
{
}

/// A three-level declaration `a :: { b :: { c : K } }` with a known keyword
/// `K` declares one group, reached by the path `a`, `b`, `c`, with the kind
/// and category that `K` names.
pub proof fn lemma_three_level_nesting(a: ClusterEntry, b: ClusterEntry, c: ClusterEntry)
    requires
        a.keyword is None,
        a.nested is Some,
        a.nested->Some_0@ == seq![b],
        b.keyword is None,
        b.nested is Some,
        b.nested->Some_0@ == seq![c],
        c.nested is None,
        c.keyword is Some,
        keyword_group(c.keyword->Some_0@) is Some,
    ensures
        entries_result(Seq::empty(), seq![a]) == Ok::<
            Seq<(Seq<Seq<char>>, CellGroup)>,
            (Seq<Seq<char>>, ClusterFault),
        >(seq![(seq![a.name@, b.name@, c.name@], keyword_group(c.keyword->Some_0@)->Some_0)]),
{
    let p0 = Seq::<Seq<char>>::empty();
    let pa = p0.push(a.name@);
    let pb = pa.push(b.name@);
    assert(seq![c].drop_last() =~= Seq::<ClusterEntry>::empty());
    assert(seq![b].drop_last() =~= Seq::<ClusterEntry>::empty());
    assert(seq![a].drop_last() =~= Seq::<ClusterEntry>::empty());
    let g = keyword_group(c.keyword->Some_0@)->Some_0;
    let leaf = seq![(pb.push(c.name@), g)];
    assert(entries_result(pb, Seq::<ClusterEntry>::empty()) is Ok);
    assert(entries_result(pb, seq![c]) =~= Ok(Seq::empty().push((pb.push(c.name@), g))));
    assert(Seq::empty().push((pb.push(c.name@), g)) =~= leaf);
    assert(entries_result(pa, Seq::<ClusterEntry>::empty()) is Ok);
    assert(Seq::<(Seq<Seq<char>>, CellGroup)>::empty() + leaf =~= leaf);
    assert(entries_result(pa, seq![b]) == Ok::<
        Seq<(Seq<Seq<char>>, CellGroup)>,
        (Seq<Seq<char>>, ClusterFault),
    >(leaf));
    assert(entries_result(p0, Seq::<ClusterEntry>::empty()) is Ok);
    assert(entries_result(p0, seq![a]) == Ok::<
        Seq<(Seq<Seq<char>>, CellGroup)>,
        (Seq<Seq<char>>, ClusterFault),
    >(leaf));
    assert(pb.push(c.name@) =~= seq![a.name@, b.name@, c.name@]);
}

/// Sibling entries do not affect one another: when two lists of entries each
/// resolve, the two lists one after the other resolve to the groups of the
/// first followed by the groups of the second.
pub proof fn lemma_siblings_independent(
    prefix: Seq<Seq<char>>,
    first: Seq<ClusterEntry>,
    second: Seq<ClusterEntry>,
)
    requires
        entries_result(prefix, first) is Ok,
        entries_result(prefix, second) is Ok,
    ensures
        entries_result(prefix, first + second) == Ok::<
            Seq<(Seq<Seq<char>>, CellGroup)>,
            (Seq<Seq<char>>, ClusterFault),
        >(entries_result(prefix, first)->Ok_0 + entries_result(prefix, second)->Ok_0),
    decreases second.len(),
{
    if second.len() == 0 {
        assert(first + second =~= first);
        assert(entries_result(prefix, first)->Ok_0 + Seq::empty() =~= entries_result(
            prefix,
            first,
        )->Ok_0);
    } else {
        let rest = second.drop_last();
        assert((first + second).drop_last() =~= first + rest);
        assert((first + second).last() == second.last());
        lemma_siblings_independent(prefix, first, rest);
        let l1 = entries_result(prefix, first)->Ok_0;
        let l2 = entries_result(prefix, rest)->Ok_0;
        let e = second.last();
        let path = prefix.push(e.name@);
        match (e.keyword, e.nested) {
            (Some(k), None) => {
                let g = keyword_group(k@)->Some_0;
                assert((l1 + l2).push((path, g)) =~= l1 + l2.push((path, g)));
            },
            (None, Some(v)) => {
                let inner = entries_result(path, v@)->Ok_0;
                assert((l1 + l2) + inner =~= l1 + (l2 + inner));
            },
            _ => {},
        }
    }
}

/// A mutable internal borrow writes through: after `x += n` on the binding,
/// the cell holds its old value plus `n`, whatever the owner source.
pub proof fn lemma_mutable_borrow_writes_through(
    e: ScopeExpr,
    bridges: Seq<Family>,
    p: ScopePlan,
    w: World,
    n: i64,
)
    requires
        e.binding is Some,
        !e.binding->Some_0.star,
        !e.binding->Some_0.out,
        e.binding->Some_0.mutable,
        compiled(e, bridges, p),
        run_result(p, w, seq![n]) is Ok,
    ensures
        run_result(p, w, seq![n])->Ok_0.cell == w.cell + n,
        run_result(p, w, seq![n])->Ok_0.bound == w.cell + n,
{
    let c = choose|c: Canonical| normalized(e, c) && #[trigger] lowered(c, bridges, p);
    assert(seq![n].drop_last() =~= Seq::<i64>::empty());
    assert(sum(Seq::<i64>::empty()) == 0);
    assert(sum(seq![n]) == n);
    assert(seq![n].take(1) =~= seq![n]);
}

/// A mutable internal dereference binds a copy: after `x += n` on the
/// binding, the binding holds the old value plus `n` and the cell is unchanged.
pub proof fn lemma_mutable_deref_copies(
    e: ScopeExpr,
    bridges: Seq<Family>,
    p: ScopePlan,
    w: World,
    n: i64,
)
    requires
        e.binding is Some,
        e.binding->Some_0.star,
        !e.binding->Some_0.out,
        e.binding->Some_0.mutable,
        e.binding->Some_0.coercion is NoCoercion,
        compiled(e, bridges, p),
        run_result(p, w, seq![n]) is Ok,
    ensures
        run_result(p, w, seq![n])->Ok_0.cell == w.cell,
        run_result(p, w, seq![n])->Ok_0.bound == w.cell + n,
{
    let c = choose|c: Canonical| normalized(e, c) && #[trigger] lowered(c, bridges, p);
    assert(seq![n].drop_last() =~= Seq::<i64>::empty());
    assert(sum(Seq::<i64>::empty()) == 0);
    assert(sum(seq![n]) == n);
    assert(seq![n].take(1) =~= seq![n]);
}

/// An external binding assigns the outer variable exactly once per run, and
/// leaves it holding the value the access gave: the coerced value for `*out`,
/// the cell's value for `out` and `&out`.
pub proof fn lemma_external_binding_writes_once(
    e: ScopeExpr,
    bridges: Seq<Family>,
    p: ScopePlan,
    w: World,
)
    requires
        e.binding is Some,
        e.binding->Some_0.out,
        compiled(e, bridges, p),
        run_result(p, w, Seq::empty()) is Ok,
    ensures
        run_result(p, w, Seq::empty())->Ok_0.outer_writes == w.outer_writes + 1,
        run_result(p, w, Seq::empty())->Ok_0.outer == if e.binding->Some_0.star {
            cast_value(w.cell, coercion_type(e.binding->Some_0.coercion))
        } else {
            w.cell
        },
{
    let c = choose|c: Canonical| normalized(e, c) && #[trigger] lowered(c, bridges, p);
}

/// A scope on a borrowed owner builds no owner: two runs one after the other
/// both go through the owner of the surrounding scope.
pub proof fn lemma_borrowed_owner_is_reused(
    e: ScopeExpr,
    bridges: Seq<Family>,
    p: ScopePlan,
    q: ScopePlan,
    w: World,
    body1: Seq<i64>,
    body2: Seq<i64>,
)
    requires
        e.source is Borrowed,
        compiled(e, bridges, p),
        compiled(e, bridges, q),
        run_result(p, w, body1) is Ok,
        run_result(q, run_result(p, w, body1)->Ok_0, body2) is Ok,
    ensures
        run_result(p, w, body1)->Ok_0.owners_built == w.owners_built,
        run_result(q, run_result(p, w, body1)->Ok_0, body2)->Ok_0.owners_built == w.owners_built,
        run_result(p, w, body1)->Ok_0.last_owner == w.borrowed_owner,
        run_result(q, run_result(p, w, body1)->Ok_0, body2)->Ok_0.last_owner == run_result(
            p,
            w,
            body1,
        )->Ok_0.last_owner,
{
    let c = choose|c: Canonical| normalized(e, c) && #[trigger] lowered(c, bridges, p);
    let d = choose|d: Canonical| normalized(e, d) && #[trigger] lowered(d, bridges, q);
}

/// A `[self]` lookup picks, among all the bridges of the enclosing object,
/// one whose owner family is the accessed cell's family, however many bridges
/// of other families the object has.
pub proof fn lemma_self_lookup_matches_cell(e: ScopeExpr, bridges: Seq<Family>, p: ScopePlan)
    requires
        e.source is SelfLookup,
        compiled(e, bridges, p),
    ensures
        p.acquire is FromEnclosing,
        p.acquire->FromEnclosing_0 < bridges.len(),
        bridges[p.acquire->FromEnclosing_0 as int] == e.cell.family,
        p.owner_family == e.cell.family,
{
    let c = choose|c: Canonical| normalized(e, c) && #[trigger] lowered(c, bridges, p);
}

/// Asking a group for a level it does not provide is refused, and refused
/// the same way every time: the refusal names the level and the role asked
/// for, and its message is the fixed text for that pair. Asking for a level
/// it provides never is; that is exactly the level the owner and cell
/// accessors require.
pub proof fn lemma_refusals(g: CellGroup, level: CellAccessLevels, role: CellRoles)
    ensures
        provide_result(g, level, role) is Err <==> !category_supports(g.category, level),
        !category_supports(g.category, level) ==> provide_result(g, level, role) == Err::<
            Capability,
            AccessUnavailable,
        >(AccessUnavailable { requested: level, role }),
        category_supports(g.category, level) ==> provide_result(g, level, role) == Ok::<
            Capability,
            AccessUnavailable,
        >(Capability { kind: g.kind, access: level, role }),
        level == CellAccessLevels::Private && role == CellRoles::Owner ==> unavailable_text(
            level,
            role,
        ) == "Tried to request a private owner from a mod that cannot provide one."@,
        level == CellAccessLevels::Uniform && role == CellRoles::Owner ==> unavailable_text(
            level,
            role,
        ) == "Tried to request a uniform owner from a mod that cannot provide one."@,
        level == CellAccessLevels::Public && role == CellRoles::Owner ==> unavailable_text(
            level,
            role,
        ) == "Tried to request a public owner from a mod that cannot provide one."@,
        level == CellAccessLevels::Private && role == CellRoles::Cell ==> unavailable_text(
            level,
            role,
        ) == "Tried to request a private cell from a mod that cannot provide one."@,
        level == CellAccessLevels::Uniform && role == CellRoles::Cell ==> unavailable_text(
            level,
            role,
        ) == "Tried to request a uniform cell from a mod that cannot provide one."@,
        level == CellAccessLevels::Public && role == CellRoles::Cell ==> unavailable_text(
            level,
            role,
        ) == "Tried to request a public cell from a mod that cannot provide one."@,
{
}

} // verus!
