//! What holds of the registry across its operations.

use vstd::prelude::*;
use crate::lookup::{is_first_index, lemma_first_index};
use crate::records::StudentView;
use crate::registry::{appended, differs_from, other_than, without, RegistryView};

verus! {

/// How many times `id` occurs in `ids`.
pub open spec fn occurrences(ids: Seq<u32>, id: u32) -> nat {
    ids.filter(|x: u32| x == id).len()
}

/// A student created under an identifier that no student holds yet is found
/// under that identifier, with the fields it was created with.
pub proof fn lemma_created_student_found(r: RegistryView, s: StudentView)
    requires
        !r.student_ids().contains(s.id),
    ensures
        r.with_new_student(s).student(s.id) == Some(s),
{
    let r2 = r.with_new_student(s);
    assert(r2.student_ids() =~= r.student_ids().push(s.id));
    assert(is_first_index(r2.student_ids(), s.id, r.students.len() as int));
    lemma_first_index(r2.student_ids(), s.id);
}

/// After an update of a student that exists, the student found under its
/// identifier holds exactly the new name, age and class.
pub proof fn lemma_updated_student_found(r: RegistryView, s: StudentView)
    requires
        r.student_ids().contains(s.id),
    ensures
        r.with_student_updated(s).student(s.id) == Some(s),
{
    lemma_first_index(r.student_ids(), s.id);
    let r2 = r.with_student_updated(s);
    assert(r2.student_ids() =~= r.student_ids());
}

/// After a student is deleted, no student holds its identifier and none is
/// found under it.
pub proof fn lemma_deleted_student_gone(r: RegistryView, id: u32)
    ensures
        r.without_student(id).student(id) is None,
        forall|i: int|
            0 <= i < r.without_student(id).students.len()
                ==> r.without_student(id).students[i].id != id,
{
    let r2 = r.without_student(id);
    assert forall|i: int| 0 <= i < r2.students.len() implies r2.students[i].id != id by {
        r.students.lemma_filter_pred(other_than(id), i);
    }
    assert(!r2.student_ids().contains(id));
    lemma_first_index(r2.student_ids(), id);
}

/// Adding a student to a club that exists appends the identifier to the
/// club's members, so it occurs there once more than before.
pub proof fn lemma_added_member_counted(r: RegistryView, student_id: u32, club_id: u32)
    requires
        r.club(club_id) is Some,
    ensures
        r.with_club_members(club_id, appended(student_id)).club(club_id) matches Some(c)
            && c.members == r.club(club_id)->Some_0.members.push(student_id)
            && occurrences(c.members, student_id)
                == occurrences(r.club(club_id)->Some_0.members, student_id) + 1,
{
    lemma_first_index(r.club_ids(), club_id);
    let r2 = r.with_club_members(club_id, appended(student_id));
    assert(r2.club_ids() =~= r.club_ids());
    let m = r.club(club_id)->Some_0.members;
    reveal(Seq::filter);
    assert(m.push(student_id).drop_last() =~= m);
}

/// Removing a student from a club that exists leaves no occurrence of the
/// identifier among the club's members, and the other members in order.
pub proof fn lemma_removed_member_gone(r: RegistryView, student_id: u32, club_id: u32)
    requires
        r.club(club_id) is Some,
    ensures
        r.with_club_members(club_id, without(student_id)).club(club_id) matches Some(c)
            && !c.members.contains(student_id)
            && c.members == r.club(club_id)->Some_0.members.filter(differs_from(student_id)),
{
    lemma_first_index(r.club_ids(), club_id);
    let r2 = r.with_club_members(club_id, without(student_id));
    assert(r2.club_ids() =~= r.club_ids());
    let m = r.club(club_id)->Some_0.members;
    let kept = m.filter(differs_from(student_id));
    assert forall|i: int| 0 <= i < kept.len() implies kept[i] != student_id by {
        m.lemma_filter_pred(differs_from(student_id), i);
    }
}

/// A lookup under an identifier that no record of its kind holds finds
/// nothing, for each of the four kinds.
pub proof fn lemma_unknown_identifier_absent(r: RegistryView, id: u32)
    ensures
        !r.student_ids().contains(id) ==> r.student(id) is None,
        !r.club_ids().contains(id) ==> r.club(id) is None,
        !r.class_ids().contains(id) ==> r.class(id) is None,
        !r.course_ids().contains(id) ==> r.course(id) is None,
{
    lemma_first_index(r.student_ids(), id);
    lemma_first_index(r.club_ids(), id);
    lemma_first_index(r.class_ids(), id);
    lemma_first_index(r.course_ids(), id);
}

} // verus!
