//! Filtering a course's exercise list down to the downloadable subset.

use vstd::prelude::*;
use crate::data::Exercise;
use crate::error::CmdError;

verus! {

/// An exercise may be downloaded only when it is not disabled and is unlocked.
pub open spec fn is_eligible(e: Exercise) -> bool {
    !e.disabled && e.unlocked
}

/// The identifiers of the eligible exercises, in their original relative
/// order.
pub open spec fn eligible_ids(s: Seq<Exercise>) -> Seq<u32>
    decreases s.len(),
{
    if s.len() == 0 {
        Seq::empty()
    } else {
        let rest = eligible_ids(s.drop_last());
        if is_eligible(s.last()) {
            rest.push(s.last().id)
        } else {
            rest
        }
    }
}

/// The eligibility test as a value.
pub open spec fn eligible_pred() -> spec_fn(Exercise) -> bool {
    |e: Exercise| is_eligible(e)
}

/// The identifier of an exercise, as a value.
pub open spec fn id_of() -> spec_fn(Exercise) -> u32 {
    |e: Exercise| e.id
}

/// The eligible identifiers are exactly the identifiers of the entries with
/// `disabled == false` and `unlocked == true`, in their original relative
/// order.
pub proof fn lemma_eligible_ids_exact(s: Seq<Exercise>)
    ensures
        eligible_ids(s) == s.filter(eligible_pred()).map_values(id_of()),
    decreases s.len(),
{
    reveal(Seq::filter);
    let pred = eligible_pred();
    let f = id_of();
    if s.len() > 0 {
        lemma_eligible_ids_exact(s.drop_last());
        if pred(s.last()) {
            assert(s.filter(pred) == s.drop_last().filter(pred).push(s.last()));
            assert(s.filter(pred).map_values(f) =~= s.drop_last().filter(pred).map_values(f).push(
                f(s.last()),
            ));
        } else {
            assert(s.filter(pred) == s.drop_last().filter(pred));
        }
        assert(eligible_ids(s) =~= s.filter(pred).map_values(f));
    } else {
        assert(eligible_ids(s) =~= s.filter(pred).map_values(f));
    }
}

/// A list whose entries are all disabled or all locked (or each one or the
/// other) yields no eligible identifiers at all.
pub proof fn lemma_no_eligible(s: Seq<Exercise>)
    requires
        forall|i: int| 0 <= i < s.len() ==> !is_eligible(#[trigger] s[i]),
    ensures
        eligible_ids(s).len() == 0,
    decreases s.len(),
{
    if s.len() > 0 {
        assert(s.last() == s[s.len() - 1]);
        lemma_no_eligible(s.drop_last());
    }
}

/// Collects the identifiers of the eligible exercises, keeping their order.
pub fn eligible_exercises(exercises: &Vec<Exercise>) -> (r: Vec<u32>)
    ensures
        r@ == eligible_ids(exercises@),
{
    let mut out: Vec<u32> = Vec::new();
    let mut i: usize = 0;
    while i < exercises.len()
        invariant
            i <= exercises@.len(),
            out@ == eligible_ids(exercises@.subrange(0, i as int)),
        decreases exercises@.len() - i,
    {
        let e = &exercises[i];
        if !e.disabled && e.unlocked {
            out.push(e.id);
        }
        proof {
            let pre = exercises@.subrange(0, i as int);
            let post = exercises@.subrange(0, i + 1);
            assert(post.drop_last() =~= pre);
            assert(post.last() == exercises@[i as int]);
        }
        i += 1;
    }
    proof {
        assert(exercises@.subrange(0, exercises@.len() as int) =~= exercises@);
    }
    out
}

/// Builds the eligible identifier set for a course, failing when the course
/// offers nothing downloadable: an empty set is a terminal error, not a no-op.
pub fn build_exercise_set(course_title: &String, exercises: &Vec<Exercise>) -> (r: Result<
    Vec<u32>,
    CmdError,
>)
    ensures
        eligible_ids(exercises@).len() > 0 ==> (r matches Ok(ids) && ids@ == eligible_ids(
            exercises@,
        )),
        eligible_ids(exercises@).len() == 0 ==> (r matches Err(e) && e == (
        CmdError::NoEligibleExercises { course_title: *course_title })),
{
    let ids = eligible_exercises(exercises);
    if ids.len() == 0 {
        Err(CmdError::NoEligibleExercises { course_title: course_title.clone() })
    } else {
        Ok(ids)
    }
}

} // verus!
