//! The cross-process handoff protocol: one line, two fields joined by `;`,
//! written by the detecting side and read-then-deleted by the elevated
//! process; and the classification of the error that triggers it.

use vstd::prelude::*;
use vstd::string::*;
use crate::data::HandoffState;
use crate::error::CmdError;
use crate::text::{contains_seq, str_contains};

verus! {

/// The textual marker by which the platform's file-creation permission
/// failure is recognized inside an error message.
pub open spec fn permission_marker() -> Seq<char> {
    "Failed to create file"@
}

/// Returns true only for messages indicating a file-creation permission
/// failure on the destination platform. The substring match mirrors the only
/// signal the collaborator exposes; replace it if a structured code appears.
pub fn is_file_creation_permission_error(msg: &str) -> (r: bool)
    ensures
        r == contains_seq(msg@, permission_marker()),
{
    str_contains(msg, "Failed to create file")
}

/// An invocation delegates to the privilege-escalation bridge exactly when it
/// runs on the platform with a distinct elevated mode and the error's message
/// indicates a file-creation permission failure.
pub fn should_elevate(on_windows: bool, err: &CmdError) -> (r: bool)
    ensures
        r == (on_windows && contains_seq(err.message_spec(), permission_marker())),
{
    if !on_windows {
        return false;
    }
    let msg = err.message();
    is_file_creation_permission_error(msg.as_str())
}

/// How many of the first `n` characters are the field separator.
pub open spec fn semi_count(s: Seq<char>, n: int) -> int
    decreases n,
{
    if n <= 0 {
        0
    } else {
        semi_count(s, n - 1) + if s[n - 1] == ';' {
            1int
        } else {
            0int
        }
    }
}

/// A handoff line is well formed when it holds exactly one separator.
pub open spec fn well_formed_handoff(s: Seq<char>) -> bool {
    semi_count(s, s.len() as int) == 1
}

/// The single serialized line for a destination path and a course name.
pub open spec fn handoff_encoding(path: Seq<char>, course: Seq<char>) -> Seq<char> {
    path + ";"@ + course
}

/// A prefix free of separators counts none.
proof fn lemma_semi_count_zero(s: Seq<char>, n: int)
    requires
        0 <= n <= s.len(),
        forall|k: int| 0 <= k < n ==> s[k] != ';',
    ensures
        semi_count(s, n) == 0,
    decreases n,
{
    if n > 0 {
        lemma_semi_count_zero(s, n - 1);
    }
}

/// A prefix whose only separator stands at `p` counts exactly one.
proof fn lemma_semi_count_one(s: Seq<char>, n: int, p: int)
    requires
        0 <= p < n <= s.len(),
        s[p] == ';',
        forall|k: int| 0 <= k < n && k != p ==> s[k] != ';',
    ensures
        semi_count(s, n) == 1,
    decreases n,
{
    if n - 1 == p {
        lemma_semi_count_zero(s, n - 1);
    } else {
        lemma_semi_count_one(s, n - 1, p);
    }
}

/// A prefix with separators at two places counts at least two.
proof fn lemma_semi_count_two(s: Seq<char>, n: int, p: int, q: int)
    requires
        0 <= p < q < n <= s.len(),
        s[p] == ';',
        s[q] == ';',
    ensures
        semi_count(s, n) >= 2,
    decreases n,
{
    if n - 1 == q {
        lemma_semi_count_at(s, n - 1, p);
    } else {
        lemma_semi_count_two(s, n - 1, p, q);
    }
}

/// A prefix holding a separator at `p` counts at least one.
proof fn lemma_semi_count_at(s: Seq<char>, n: int, p: int)
    requires
        0 <= p < n <= s.len(),
        s[p] == ';',
    ensures
        semi_count(s, n) >= 1,
    decreases n,
{
    if n - 1 != p {
        lemma_semi_count_at(s, n - 1, p);
    } else {
        lemma_semi_count_nonneg(s, n - 1);
    }
}

/// Separator counts are never negative.
proof fn lemma_semi_count_nonneg(s: Seq<char>, n: int)
    requires
        n <= s.len(),
    ensures
        semi_count(s, n) >= 0,
    decreases
            if n > 0 {
                n
            } else {
                0
            },
{
    if n > 0 {
        lemma_semi_count_nonneg(s, n - 1);
    }
}

/// Serializes a handoff state as the single delimited line.
pub fn encode_handoff(h: &HandoffState) -> (r: String)
    ensures
        r@ == handoff_encoding(h.path@, h.course@),
{
    h.path.clone().concat(";").concat(h.course.as_str())
}

/// Parses the single delimited line of a handoff file. Exactly two fields are
/// accepted; any other field count is `HandoffCorrupt`, with no partial
/// recovery.
pub fn parse_handoff(line: &str) -> (r: Result<HandoffState, CmdError>)
    ensures
        r matches Ok(h) ==> well_formed_handoff(line@) && line@ == handoff_encoding(
            h.path@,
            h.course@,
        ) && semi_count(h.path@, h.path@.len() as int) == 0 && semi_count(
            h.course@,
            h.course@.len() as int,
        ) == 0,
        r matches Err(e) ==> e == CmdError::HandoffCorrupt && !well_formed_handoff(line@),
{
    let len = line.unicode_len();
    let mut i: usize = 0;
    let mut sep: usize = len;
    let mut found = false;
    while i < len
        invariant
            i <= len,
            len == line@.len(),
            found ==> sep < i && line@[sep as int] == ';' && (forall|k: int|
                0 <= k < i && k != sep ==> line@[k] != ';'),
            !found ==> sep == len && (forall|k: int| 0 <= k < i ==> line@[k] != ';'),
        decreases len - i,
    {
        let c = line.get_char(i);
        if c == ';' {
            if found {
                proof {
                    lemma_semi_count_two(line@, line@.len() as int, sep as int, i as int);
                }
                return Err(CmdError::HandoffCorrupt);
            }
            sep = i;
            found = true;
        }
        i += 1;
    }
    if !found {
        proof {
            lemma_semi_count_zero(line@, line@.len() as int);
        }
        return Err(CmdError::HandoffCorrupt);
    }
    let path = line.substring_char(0, sep).to_owned();
    let course = line.substring_char(sep + 1, len).to_owned();
    proof {
        lemma_semi_count_one(line@, line@.len() as int, sep as int);
        reveal_strlit(";");
        assert(line@ =~= path@ + ";"@ + course@);
        lemma_semi_count_zero(path@, path@.len() as int);
        assert(forall|k: int| 0 <= k < course@.len() ==> course@[k] == line@[k + sep + 1]);
        lemma_semi_count_zero(course@, course@.len() as int);
    }
    Ok(HandoffState { path, course })
}

/// Two delimited encodings of separator-free fields agree only when the
/// fields agree: the serialized line determines the handoff state.
pub proof fn lemma_handoff_encoding_injective(
    p1: Seq<char>,
    c1: Seq<char>,
    p2: Seq<char>,
    c2: Seq<char>,
)
    requires
        semi_count(p1, p1.len() as int) == 0,
        semi_count(c1, c1.len() as int) == 0,
        semi_count(p2, p2.len() as int) == 0,
        semi_count(c2, c2.len() as int) == 0,
        handoff_encoding(p1, c1) == handoff_encoding(p2, c2),
    ensures
        p1 == p2,
        c1 == c2,
{
    reveal_strlit(";");
    let l1 = handoff_encoding(p1, c1);
    let l2 = handoff_encoding(p2, c2);
    lemma_no_semi_from_count(p1);
    lemma_no_semi_from_count(c1);
    lemma_no_semi_from_count(p2);
    lemma_no_semi_from_count(c2);
    assert(l1[p1.len() as int] == ';');
    assert(l2[p2.len() as int] == ';');
    if p1.len() < p2.len() {
        assert(l2[p1.len() as int] == p2[p1.len() as int]);
        assert(false);
    }
    if p2.len() < p1.len() {
        assert(l1[p2.len() as int] == p1[p2.len() as int]);
        assert(false);
    }
    assert(forall|k: int| 0 <= k < p1.len() ==> l1[k] == p1[k]);
    assert(forall|k: int| 0 <= k < p2.len() ==> l2[k] == p2[k]);
    assert(l1.len() == p1.len() + 1 + c1.len());
    assert(l2.len() == p2.len() + 1 + c2.len());
    assert(forall|k: int| 0 <= k < c1.len() ==> l1[p1.len() + 1 + k] == c1[k]);
    assert(forall|k: int| 0 <= k < c2.len() ==> l2[p2.len() + 1 + k] == c2[k]);
    assert(p1 =~= p2);
    assert(c1 =~= c2);
}

/// A count of zero means no position holds a separator.
proof fn lemma_no_semi_from_count(s: Seq<char>)
    requires
        semi_count(s, s.len() as int) == 0,
    ensures
        forall|k: int| 0 <= k < s.len() ==> s[k] != ';',
{
    assert forall|k: int| 0 <= k < s.len() implies s[k] != ';' by {
        if s[k] == ';' {
            lemma_semi_count_at(s, s.len() as int, k);
        }
    }
}

/// The encoding of separator-free fields is well formed, so reading a freshly
/// written handoff line back yields exactly the fields that were written.
pub proof fn lemma_handoff_round_trip(path: Seq<char>, course: Seq<char>, h: HandoffState)
    requires
        semi_count(path, path.len() as int) == 0,
        semi_count(course, course.len() as int) == 0,
        handoff_encoding(h.path@, h.course@) == handoff_encoding(path, course),
        semi_count(h.path@, h.path@.len() as int) == 0,
        semi_count(h.course@, h.course@.len() as int) == 0,
    ensures
        well_formed_handoff(handoff_encoding(path, course)),
        h.path@ == path,
        h.course@ == course,
{
    reveal_strlit(";");
    let line = handoff_encoding(path, course);
    lemma_no_semi_from_count(path);
    lemma_no_semi_from_count(course);
    assert(line[path.len() as int] == ';');
    assert(forall|k: int| 0 <= k < line.len() && k != path.len() ==> line[k] != ';') by {
        assert(forall|k: int| 0 <= k < path.len() ==> line[k] == path[k]);
        assert(forall|k: int|
            path.len() < k < line.len() ==> line[k] == course[k - path.len() - 1]);
    }
    lemma_semi_count_one(line, line.len() as int, path.len() as int);
    lemma_handoff_encoding_injective(h.path@, h.course@, path, course);
}

} // verus!
