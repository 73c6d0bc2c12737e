use vstd::prelude::*;

use crate::group::{AccessCategory, CellGroup};
use crate::lattice::CellImpl;

verus! {

/// The group a declaration keyword names, if it is one of the eight keywords.
pub open spec fn keyword_group(s: Seq<char>) -> Option<CellGroup> {
    if s == "TCellUniGrp"@ {
        Some(CellGroup { kind: CellImpl::T, category: AccessCategory::Uniform })
    } else if s == "TCellAccGrp"@ {
        Some(CellGroup { kind: CellImpl::T, category: AccessCategory::Access })
    } else if s == "TCellPubGrp"@ {
        Some(CellGroup { kind: CellImpl::T, category: AccessCategory::Public })
    } else if s == "TCellPvtGrp"@ {
        Some(CellGroup { kind: CellImpl::T, category: AccessCategory::Private })
    } else if s == "TLCellUniGrp"@ {
        Some(CellGroup { kind: CellImpl::TL, category: AccessCategory::Uniform })
    } else if s == "TLCellAccGrp"@ {
        Some(CellGroup { kind: CellImpl::TL, category: AccessCategory::Access })
    } else if s == "TLCellPubGrp"@ {
        Some(CellGroup { kind: CellImpl::TL, category: AccessCategory::Public })
    } else if s == "TLCellPvtGrp"@ {
        Some(CellGroup { kind: CellImpl::TL, category: AccessCategory::Private })
    } else {
        None
    }
}

fn is_text(s: &String, lit: &str) -> (r: bool)
    ensures
        r == (s@ == lit@),
{
    let t = lit.to_owned();
    *s == t
}

/// Reads a declaration keyword such as `TLCellUniGrp`.
pub fn parse_keyword(s: &String) -> (r: Option<CellGroup>)
    ensures
        r == keyword_group(s@),
{
    if is_text(s, "TCellUniGrp") {
        Some(CellGroup { kind: CellImpl::T, category: AccessCategory::Uniform })
    } else if is_text(s, "TCellAccGrp") {
        Some(CellGroup { kind: CellImpl::T, category: AccessCategory::Access })
    } else if is_text(s, "TCellPubGrp") {
        Some(CellGroup { kind: CellImpl::T, category: AccessCategory::Public })
    } else if is_text(s, "TCellPvtGrp") {
        Some(CellGroup { kind: CellImpl::T, category: AccessCategory::Private })
    } else if is_text(s, "TLCellUniGrp") {
        Some(CellGroup { kind: CellImpl::TL, category: AccessCategory::Uniform })
    } else if is_text(s, "TLCellAccGrp") {
        Some(CellGroup { kind: CellImpl::TL, category: AccessCategory::Access })
    } else if is_text(s, "TLCellPubGrp") {
        Some(CellGroup { kind: CellImpl::TL, category: AccessCategory::Public })
    } else if is_text(s, "TLCellPvtGrp") {
        Some(CellGroup { kind: CellImpl::TL, category: AccessCategory::Private })
    } else {
        None
    }
}

/// One entry of a cluster declaration: `name : Keyword` declares a group,
/// `name :: { entries }` a namespace holding further entries. Exactly one of
/// the two parts must be present.
#[derive(Debug)]
pub struct ClusterEntry {
    pub name: String,
    pub keyword: Option<String>,
    pub nested: Option<Vec<ClusterEntry>>,
}

/// What is wrong with a cluster entry.
#[derive(PartialEq, Eq, Structural, Clone, Copy, Debug)]
pub enum ClusterFault {
    /// Both `: Keyword` and `:: { .. }`.
    KeywordAndNested,
    /// Neither `: Keyword` nor `:: { .. }`.
    NeitherKeywordNorNested,
    /// A keyword that is none of the eight.
    UnknownKeyword,
    /// `:: { }` with nothing inside.
    EmptyNested,
}

/// A rejected cluster declaration: the first faulty entry in declaration
/// order, by its path, and its fault.
#[derive(Clone, Debug)]
pub struct ClusterError {
    pub path: Vec<String>,
    pub fault: ClusterFault,
}

/// A resolved group: the path of namespaces that leads to it, its own name
/// last, and the group its keyword names.
#[derive(Clone, Debug)]
pub struct ResolvedGroup {
    pub path: Vec<String>,
    pub group: CellGroup,
}

pub open spec fn path_view(p: Seq<String>) -> Seq<Seq<char>> {
    p.map_values(|s: String| s@)
}

pub open spec fn leaf_view(g: ResolvedGroup) -> (Seq<Seq<char>>, CellGroup) {
    (path_view(g.path@), g.group)
}

pub open spec fn leaves_view(gs: Seq<ResolvedGroup>) -> Seq<(Seq<Seq<char>>, CellGroup)> {
    gs.map_values(|g: ResolvedGroup| leaf_view(g))
}

/// The groups a list of entries declares under the namespace path `prefix`,
/// in declaration order, or the first fault met in declaration order.
pub open spec fn entries_result(prefix: Seq<Seq<char>>, es: Seq<ClusterEntry>) -> Result<
    Seq<(Seq<Seq<char>>, CellGroup)>,
    (Seq<Seq<char>>, ClusterFault),
>
    decreases es,
{
    if es.len() == 0 {
        Ok(Seq::empty())
    } else {
        match entries_result(prefix, es.drop_last()) {
            Err(f) => Err(f),
            Ok(before) => {
                let e = es.last();
                let path = prefix.push(e.name@);
                match (e.keyword, e.nested) {
                    (Some(_), Some(_)) => Err((path, ClusterFault::KeywordAndNested)),
                    (None, None) => Err((path, ClusterFault::NeitherKeywordNorNested)),
                    (Some(k), None) => match keyword_group(k@) {
                        None => Err((path, ClusterFault::UnknownKeyword)),
                        Some(g) => Ok(before.push((path, g))),
                    },
                    (None, Some(v)) => if v@.len() == 0 {
                        Err((path, ClusterFault::EmptyNested))
                    } else {
                        match entries_result(path, v@) {
                            Err(f) => Err(f),
                            Ok(inner) => Ok(before + inner),
                        }
                    },
                }
            },
        }
    }
}

fn clone_path(p: &Vec<String>) -> (r: Vec<String>)
    ensures
        r@ == p@,
{
    let mut r: Vec<String> = Vec::new();
    let mut i: usize = 0;
    while i < p.len()
        invariant
            i <= p@.len(),
            r@ == p@.take(i as int),
        decreases p@.len() - i,
    {
        r.push(p[i].clone());
        assert(p@.take(i + 1) =~= p@.take(i as int).push(p@[i as int]));
        i += 1;
    }
    assert(p@.take(p@.len() as int) =~= p@);
    r
}

proof fn lemma_path_view_push(p: Seq<String>, s: String)
    ensures
        path_view(p.push(s)) == path_view(p).push(s@),
{
    assert(path_view(p.push(s)) =~= path_view(p).push(s@));
}

proof fn lemma_leaves_view_push(gs: Seq<ResolvedGroup>, g: ResolvedGroup)
    ensures
        leaves_view(gs.push(g)) == leaves_view(gs).push(leaf_view(g)),
{
    assert(leaves_view(gs.push(g)) =~= leaves_view(gs).push(leaf_view(g)));
}

fn fail(prefix: &Vec<String>, fault: ClusterFault) -> (r: Result<(), ClusterError>)
    ensures
        r is Err,
        r->Err_0.path@ == prefix@,
        r->Err_0.fault == fault,
{
    Err(ClusterError { path: clone_path(prefix), fault })
}

/// Appends to `out` the groups that `es` declares under the namespace path
/// `prefix`, or stops at the first faulty entry.
fn resolve_into(prefix: &mut Vec<String>, es: &Vec<ClusterEntry>, out: &mut Vec<ResolvedGroup>) -> (r:
    Result<(), ClusterError>)
    ensures
        final(prefix)@ == old(prefix)@,
        match entries_result(path_view(old(prefix)@), es@) {
            Ok(ls) => r is Ok && leaves_view(final(out)@) == leaves_view(old(out)@) + ls,
            Err(f) => r is Err && (path_view(r->Err_0.path@), r->Err_0.fault) == f,
        },
    decreases es@,
{
    let ghost pv = path_view(prefix@);
    let ghost start = out@;
    let mut i: usize = 0;
    assert(es@.take(0) =~= Seq::<ClusterEntry>::empty());
    assert(leaves_view(start) + Seq::empty() =~= leaves_view(start));
    while i < es.len()
        invariant
            i <= es@.len(),
            path_view(prefix@) == pv,
            pv == path_view(old(prefix)@),
            prefix@ == old(prefix)@,
            start == old(out)@,
            entries_result(pv, es@.take(i as int)) is Ok,
            leaves_view(out@) == leaves_view(start) + entries_result(
                pv,
                es@.take(i as int),
            )->Ok_0,
        decreases es@.len() - i,
    {
        let e = &es[i];
        let ghost before = entries_result(pv, es@.take(i as int))->Ok_0;
        assert(es@.take(i + 1).drop_last() =~= es@.take(i as int));
        assert(es@.take(i + 1).last() == es@[i as int]);
        prefix.push(e.name.clone());
        proof {
            lemma_path_view_push(old(prefix)@, e.name);
        }
        match (&e.keyword, &e.nested) {
            (Some(_), Some(_)) => {
                let r = fail(prefix, ClusterFault::KeywordAndNested);
                prefix.pop();
                proof { lemma_first_fault_stays(pv, es@, i as int); }
                return r;
            },
            (None, None) => {
                let r = fail(prefix, ClusterFault::NeitherKeywordNorNested);
                prefix.pop();
                proof { lemma_first_fault_stays(pv, es@, i as int); }
                return r;
            },
            (Some(k), None) => match parse_keyword(k) {
                None => {
                    let r = fail(prefix, ClusterFault::UnknownKeyword);
                    prefix.pop();
                    proof { lemma_first_fault_stays(pv, es@, i as int); }
                    return r;
                },
                Some(g) => {
                    let leaf = ResolvedGroup { path: clone_path(prefix), group: g };
                    proof {
                        lemma_leaves_view_push(out@, leaf);
                    }
                    out.push(leaf);
                    prefix.pop();
                    assert(leaves_view(out@) =~= leaves_view(start) + before.push(
                        (pv.push(e.name@), g),
                    ));
                },
            },
            (None, Some(v)) => {
                if v.len() == 0 {
                    let r = fail(prefix, ClusterFault::EmptyNested);
                    prefix.pop();
                    proof { lemma_first_fault_stays(pv, es@, i as int); }
                    return r;
                }
                let ghost mid = out@;
                let res = resolve_into(prefix, v, out);
                prefix.pop();
                match res {
                    Err(err) => {
                        proof { lemma_first_fault_stays(pv, es@, i as int); }
                        return Err(err);
                    },
                    Ok(()) => {
                        let ghost inner = entries_result(pv.push(e.name@), v@)->Ok_0;
                        assert(leaves_view(out@) =~= leaves_view(start) + (before + inner));
                    },
                }
            },
        }
        i += 1;
    }
    assert(es@.take(es@.len() as int) =~= es@);
    Ok(())
}

/// Once an entry of a list is faulty, or declares nothing it may, the result
/// of the list up to and including it is that of the list as a whole.
proof fn lemma_first_fault_stays(prefix: Seq<Seq<char>>, es: Seq<ClusterEntry>, i: int)
    requires
        0 <= i < es.len(),
        entries_result(prefix, es.take(i + 1)) is Err,
    ensures
        entries_result(prefix, es) == entries_result(prefix, es.take(i + 1)),
    decreases es.len() - i,
{
    if i + 1 == es.len() {
        assert(es.take(i + 1) =~= es);
    } else {
        let n = es.len() - 1;
        assert(es.take(n).take(i + 1) =~= es.take(i + 1));
        lemma_first_fault_stays(prefix, es.take(n), i);
        assert(es.drop_last() =~= es.take(n));
    }
}

/// Resolves a cluster declaration into its groups: each with the path of
/// namespaces that leads to it, in declaration order. A declaration with a
/// faulty entry is rejected as a whole, naming the first such entry.
pub fn resolve(entries: &Vec<ClusterEntry>) -> (r: Result<Vec<ResolvedGroup>, ClusterError>)
    ensures
        match entries_result(Seq::empty(), entries@) {
            Ok(ls) => r is Ok && leaves_view(r->Ok_0@) == ls,
            Err(f) => r is Err && (path_view(r->Err_0.path@), r->Err_0.fault) == f,
        },
{
    let mut prefix: Vec<String> = Vec::new();
    let mut out: Vec<ResolvedGroup> = Vec::new();
    assert(path_view(prefix@) =~= Seq::<Seq<char>>::empty());
    assert(leaves_view(out@) =~= Seq::empty());
    match resolve_into(&mut prefix, entries, &mut out) {
        Ok(()) => {
            assert(leaves_view(out@) =~= Seq::empty() + leaves_view(out@));
            Ok(out)
        },
        Err(e) => Err(e),
    }
}

} // verus!
