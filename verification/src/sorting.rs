//! Verified insertion sorts for the orders the menus present: courses by
//! case-folded title, organizations by pinned state and name.

use vstd::prelude::*;
use vstd::relations::sorted_by;
use crate::data::{clone_course, clone_organization, Course, Organization};
use crate::text::{lemma_lex_le_total, lemma_lex_le_trans, lex_le, lower_of, lowercase, str_lex_le};

verus! {

/// Inserting an element anywhere in a sequence adds exactly that element to
/// its multiset.
pub proof fn lemma_to_multiset_insert<A>(s: Seq<A>, j: int, x: A)
    requires
        0 <= j <= s.len(),
    ensures
        s.insert(j, x).to_multiset() == s.to_multiset().insert(x),
{
    broadcast use vstd::seq_lib::group_to_multiset_ensures;
    broadcast use vstd::multiset::group_multiset_axioms;

    let t = s.insert(j, x);
    assert(t.remove(j) =~= s);
    assert(t.remove(j).to_multiset() =~= t.to_multiset().remove(t[j]));
    assert(t[j] == x);
    assert(t.contains(x));
    assert(t.to_multiset().count(x) > 0);
    assert(t.to_multiset() =~= s.to_multiset().insert(x)) by {
        assert(forall|y: A|
            y != x ==> s.to_multiset().count(y) == t.to_multiset().count(y));
        assert(s.to_multiset().count(x) == t.to_multiset().count(x) - 1);
    }
}

/// Courses are presented ordered by their titles, compared case-insensitively.
pub open spec fn course_le_spec(a: Course, b: Course) -> bool {
    lex_le(lower_of(a.title@), lower_of(b.title@))
}

/// The course order as a value, for `sorted_by`.
pub open spec fn course_order() -> spec_fn(Course, Course) -> bool {
    |a: Course, b: Course| course_le_spec(a, b)
}

/// The course order is total.
pub proof fn lemma_course_order_total(a: Course, b: Course)
    ensures
        course_le_spec(a, b) || course_le_spec(b, a),
{
    lemma_lex_le_total(lower_of(a.title@), lower_of(b.title@));
}

/// The course order is transitive.
pub proof fn lemma_course_order_trans(a: Course, b: Course, c: Course)
    requires
        course_le_spec(a, b),
        course_le_spec(b, c),
    ensures
        course_le_spec(a, c),
{
    lemma_lex_le_trans(lower_of(a.title@), lower_of(b.title@), lower_of(c.title@));
}

/// Compares two courses by case-folded title.
pub fn course_le(a: &Course, b: &Course) -> (r: bool)
    ensures
        r == course_le_spec(*a, *b),
{
    let la = lowercase(a.title.as_str());
    let lb = lowercase(b.title.as_str());
    str_lex_le(la.as_str(), lb.as_str())
}

/// Sorts courses by title, case-insensitively: the result is ordered and
/// holds exactly the given courses.
pub fn sort_courses(v: &Vec<Course>) -> (r: Vec<Course>)
    ensures
        sorted_by(r@, course_order()),
        r@.to_multiset() == v@.to_multiset(),
{
    let mut out: Vec<Course> = Vec::new();
    let mut i: usize = 0;
    proof {
        assert(v@.subrange(0, 0) =~= out@);
    }
    while i < v.len()
        invariant
            i <= v@.len(),
            sorted_by(out@, course_order()),
            out@.to_multiset() == v@.subrange(0, i as int).to_multiset(),
            out@.len() == i,
        decreases v@.len() - i,
    {
        let x = clone_course(&v[i]);
        let mut pos: usize = 0;
        while pos < out.len() && course_le(&out[pos], &x)
            invariant
                pos <= out@.len(),
                forall|k: int| 0 <= k < pos ==> course_le_spec(#[trigger] out@[k], x),
            decreases out@.len() - pos,
        {
            pos += 1;
        }
        proof {
            broadcast use vstd::seq_lib::group_to_multiset_ensures;

            if pos < out@.len() {
                lemma_course_order_total(out@[pos as int], x);
            }
            let new = out@.insert(pos as int, x);
            assert(new.len() == out@.len() + 1);
            assert(forall|k: int| 0 <= k < pos ==> new[k] == out@[k]);
            assert(new[pos as int] == x);
            assert(forall|k: int| pos < k < new.len() ==> new[k] == out@[k - 1]);
            assert forall|m: int, n: int| 0 <= m < n < new.len() implies course_order()(
                new[m],
                new[n],
            ) by {
                if n < pos {
                    assert(course_order()(out@[m], out@[n]));
                } else if n == pos {
                    assert(course_le_spec(out@[m], x));
                } else if m < pos {
                    assert(course_order()(out@[m], out@[n - 1]));
                } else if m == pos {
                    if n - 1 > pos {
                        assert(course_order()(out@[pos as int], out@[n - 1]));
                        lemma_course_order_trans(x, out@[pos as int], out@[n - 1]);
                    }
                } else {
                    assert(course_order()(out@[m - 1], out@[n - 1]));
                }
            }
            lemma_to_multiset_insert(out@, pos as int, x);
            assert(v@.subrange(0, i + 1).drop_last() =~= v@.subrange(0, i as int));
            assert(v@.subrange(0, i + 1).to_multiset() == v@.subrange(0, i + 1).drop_last()
                .to_multiset().insert(v@[i as int])) by {
                assert(v@.subrange(0, i + 1) =~= v@.subrange(0, i + 1).drop_last().push(
                    v@[i as int],
                ));
            }
        }
        out.insert(pos, x);
        i += 1;
    }
    proof {
        assert(v@.subrange(0, v@.len() as int) =~= v@);
    }
    out
}

/// Organizations are presented pinned first; names break the tie, descending
/// when `name_desc` holds and ascending otherwise.
pub open spec fn org_le_spec(name_desc: bool, a: Organization, b: Organization) -> bool {
    if a.pinned != b.pinned {
        a.pinned
    } else if name_desc {
        lex_le(b.name@, a.name@)
    } else {
        lex_le(a.name@, b.name@)
    }
}

/// The organization order as a value, for `sorted_by`.
pub open spec fn org_order(name_desc: bool) -> spec_fn(Organization, Organization) -> bool {
    |a: Organization, b: Organization| org_le_spec(name_desc, a, b)
}

/// The organization order is total.
pub proof fn lemma_org_order_total(name_desc: bool, a: Organization, b: Organization)
    ensures
        org_le_spec(name_desc, a, b) || org_le_spec(name_desc, b, a),
{
    lemma_lex_le_total(a.name@, b.name@);
}

/// The organization order is transitive.
pub proof fn lemma_org_order_trans(
    name_desc: bool,
    a: Organization,
    b: Organization,
    c: Organization,
)
    requires
        org_le_spec(name_desc, a, b),
        org_le_spec(name_desc, b, c),
    ensures
        org_le_spec(name_desc, a, c),
{
    if a.pinned == b.pinned && b.pinned == c.pinned {
        if name_desc {
            lemma_lex_le_trans(c.name@, b.name@, a.name@);
        } else {
            lemma_lex_le_trans(a.name@, b.name@, c.name@);
        }
    }
}

/// Compares two organizations: pinned first, then by name.
pub fn org_le(name_desc: bool, a: &Organization, b: &Organization) -> (r: bool)
    ensures
        r == org_le_spec(name_desc, *a, *b),
{
    if a.pinned != b.pinned {
        a.pinned
    } else if name_desc {
        str_lex_le(b.name.as_str(), a.name.as_str())
    } else {
        str_lex_le(a.name.as_str(), b.name.as_str())
    }
}

/// Sorts organizations pinned-first with names as the tie breaker: the result
/// is ordered and holds exactly the given organizations.
pub fn sort_organizations(v: &Vec<Organization>, name_desc: bool) -> (r: Vec<Organization>)
    ensures
        sorted_by(r@, org_order(name_desc)),
        r@.to_multiset() == v@.to_multiset(),
{
    let mut out: Vec<Organization> = Vec::new();
    let mut i: usize = 0;
    proof {
        assert(v@.subrange(0, 0) =~= out@);
    }
    while i < v.len()
        invariant
            i <= v@.len(),
            sorted_by(out@, org_order(name_desc)),
            out@.to_multiset() == v@.subrange(0, i as int).to_multiset(),
            out@.len() == i,
        decreases v@.len() - i,
    {
        let x = clone_organization(&v[i]);
        let mut pos: usize = 0;
        while pos < out.len() && org_le(name_desc, &out[pos], &x)
            invariant
                pos <= out@.len(),
                forall|k: int| 0 <= k < pos ==> org_le_spec(name_desc, #[trigger] out@[k], x),
            decreases out@.len() - pos,
        {
            pos += 1;
        }
        proof {
            broadcast use vstd::seq_lib::group_to_multiset_ensures;

            if pos < out@.len() {
                lemma_org_order_total(name_desc, out@[pos as int], x);
            }
            let new = out@.insert(pos as int, x);
            assert(new.len() == out@.len() + 1);
            assert(forall|k: int| 0 <= k < pos ==> new[k] == out@[k]);
            assert(new[pos as int] == x);
            assert(forall|k: int| pos < k < new.len() ==> new[k] == out@[k - 1]);
            assert forall|m: int, n: int| 0 <= m < n < new.len() implies org_order(name_desc)(
                new[m],
                new[n],
            ) by {
                if n < pos {
                    assert(org_order(name_desc)(out@[m], out@[n]));
                } else if n == pos {
                    assert(org_le_spec(name_desc, out@[m], x));
                } else if m < pos {
                    assert(org_order(name_desc)(out@[m], out@[n - 1]));
                } else if m == pos {
                    if n - 1 > pos {
                        assert(org_order(name_desc)(out@[pos as int], out@[n - 1]));
                        lemma_org_order_trans(name_desc, x, out@[pos as int], out@[n - 1]);
                    }
                } else {
                    assert(org_order(name_desc)(out@[m - 1], out@[n - 1]));
                }
            }
            lemma_to_multiset_insert(out@, pos as int, x);
            assert(v@.subrange(0, i + 1).drop_last() =~= v@.subrange(0, i as int));
            assert(v@.subrange(0, i + 1).to_multiset() == v@.subrange(0, i + 1).drop_last()
                .to_multiset().insert(v@[i as int])) by {
                assert(v@.subrange(0, i + 1) =~= v@.subrange(0, i + 1).drop_last().push(
                    v@[i as int],
                ));
            }
        }
        out.insert(pos, x);
        i += 1;
    }
    proof {
        assert(v@.subrange(0, v@.len() as int) =~= v@);
    }
    out
}

} // verus!
