//! The registry: four collections of records, kept in insertion order.
//!
//! Identifiers are chosen by the caller and are not checked for uniqueness:
//! a lookup returns the first record that holds the identifier, and an
//! operation on a missing identifier leaves the registry as it was.

use vstd::prelude::*;
use crate::lookup::{first_index, first_position, keys_of, lemma_first_index};
use crate::records::{Class, ClassView, Club, ClubView, Course, CourseView, Student, StudentView};

verus! {

/// The contents of a registry, collection by collection.
#[verifier::ext_equal]
pub ghost struct RegistryView {
    pub students: Seq<StudentView>,
    pub clubs: Seq<ClubView>,
    pub classes: Seq<ClassView>,
    pub courses: Seq<CourseView>,
}

impl RegistryView {
    /// A registry with no records.
    pub open spec fn empty() -> RegistryView {
        RegistryView { students: seq![], clubs: seq![], classes: seq![], courses: seq![] }
    }

    /// The identifiers of the records of each kind, in insertion order.
    pub open spec fn student_ids(self) -> Seq<u32> {
        self.students.map_values(|s: StudentView| s.id)
    }

    pub open spec fn club_ids(self) -> Seq<u32> {
        self.clubs.map_values(|c: ClubView| c.id)
    }

    pub open spec fn class_ids(self) -> Seq<u32> {
        self.classes.map_values(|c: ClassView| c.id)
    }

    pub open spec fn course_ids(self) -> Seq<u32> {
        self.courses.map_values(|c: CourseView| c.id)
    }

    /// The first student whose identifier is `id`.
    pub open spec fn student(self, id: u32) -> Option<StudentView> {
        match first_index(self.student_ids(), id) {
            Some(i) => Some(self.students[i]),
            None => None,
        }
    }

    /// The first club whose identifier is `id`.
    pub open spec fn club(self, id: u32) -> Option<ClubView> {
        match first_index(self.club_ids(), id) {
            Some(i) => Some(self.clubs[i]),
            None => None,
        }
    }

    /// The first class whose identifier is `id`.
    pub open spec fn class(self, id: u32) -> Option<ClassView> {
        match first_index(self.class_ids(), id) {
            Some(i) => Some(self.classes[i]),
            None => None,
        }
    }

    /// The first course whose identifier is `id`.
    pub open spec fn course(self, id: u32) -> Option<CourseView> {
        match first_index(self.course_ids(), id) {
            Some(i) => Some(self.courses[i]),
            None => None,
        }
    }

    /// A new student appended after the others.
    pub open spec fn with_new_student(self, s: StudentView) -> RegistryView {
        RegistryView { students: self.students.push(s), ..self }
    }

    /// A new club, with no members, appended after the others.
    pub open spec fn with_new_club(self, id: u32, name: Seq<char>) -> RegistryView {
        RegistryView { clubs: self.clubs.push(ClubView { id, name, members: seq![] }), ..self }
    }

    /// A new class, with no students, appended after the others.
    pub open spec fn with_new_class(self, id: u32, name: Seq<char>) -> RegistryView {
        RegistryView {
            classes: self.classes.push(ClassView { id, name, students: seq![] }),
            ..self
        }
    }

    /// A new course appended after the others.
    pub open spec fn with_new_course(self, id: u32, name: Seq<char>) -> RegistryView {
        RegistryView { courses: self.courses.push(CourseView { id, name }), ..self }
    }

    /// The first student with `s.id` replaced by `s`; unchanged if there is none.
    pub open spec fn with_student_updated(self, s: StudentView) -> RegistryView {
        match first_index(self.student_ids(), s.id) {
            Some(i) => RegistryView { students: self.students.update(i, s), ..self },
            None => self,
        }
    }

    /// Every student whose identifier is `id` removed, the others kept in order.
    pub open spec fn without_student(self, id: u32) -> RegistryView {
        RegistryView { students: self.students.filter(other_than(id)), ..self }
    }

    /// The first club with identifier `club_id` with `members` replaced by
    /// `f(members)`; unchanged if there is none.
    pub open spec fn with_club_members(self, club_id: u32, f: spec_fn(Seq<u32>) -> Seq<u32>) -> RegistryView {
        match first_index(self.club_ids(), club_id) {
            Some(i) => RegistryView {
                clubs: self.clubs.update(i, ClubView { members: f(self.clubs[i].members), ..self.clubs[i] }),
                ..self
            },
            None => self,
        }
    }

    /// The first class with identifier `class_id` with `students` replaced by
    /// `f(students)`; unchanged if there is none.
    pub open spec fn with_class_students(self, class_id: u32, f: spec_fn(Seq<u32>) -> Seq<u32>) -> RegistryView {
        match first_index(self.class_ids(), class_id) {
            Some(i) => RegistryView {
                classes: self.classes.update(i, ClassView { students: f(self.classes[i].students), ..self.classes[i] }),
                ..self
            },
            None => self,
        }
    }
}

/// `ids` with `id` appended.
pub open spec fn appended(id: u32) -> spec_fn(Seq<u32>) -> Seq<u32> {
    |ids: Seq<u32>| ids.push(id)
}

/// `ids` with every occurrence of `id` removed, the rest in order.
pub open spec fn without(id: u32) -> spec_fn(Seq<u32>) -> Seq<u32> {
    |ids: Seq<u32>| ids.filter(differs_from(id))
}

/// Holds of every identifier but `id`.
pub open spec fn differs_from(id: u32) -> spec_fn(u32) -> bool {
    |x: u32| x != id
}

/// Holds of every student whose identifier is not `id`.
pub open spec fn other_than(id: u32) -> spec_fn(StudentView) -> bool {
    |s: StudentView| s.id != id
}

/// The identifiers of `ids` other than `id`, in order.
fn without_occurrences(ids: &Vec<u32>, id: u32) -> (r: Vec<u32>)
    ensures
        r@ == ids@.filter(differs_from(id)),
{
    let mut kept: Vec<u32> = Vec::new();
    let mut k: usize = 0;
    while k < ids.len()
        invariant
            k <= ids.len(),
            kept@ == ids@.subrange(0, k as int).filter(differs_from(id)),
        decreases ids.len() - k,
    {
        proof {
            reveal(Seq::filter);
            assert(ids@.subrange(0, k + 1).drop_last() =~= ids@.subrange(0, k as int));
        }
        if ids[k] != id {
            kept.push(ids[k]);
        }
        k = k + 1;
    }
    assert(ids@.subrange(0, ids.len() as int) =~= ids@);
    kept
}

/// The registry of a school.
#[derive(Debug)]
pub struct StudentManagementSystem {
    pub students: Vec<Student>,
    pub clubs: Vec<Club>,
    pub classes: Vec<Class>,
    pub courses: Vec<Course>,
}

impl View for StudentManagementSystem {
    type V = RegistryView;

    open spec fn view(&self) -> RegistryView {
        RegistryView {
            students: self.students@.map_values(|s: Student| s@),
            clubs: self.clubs@.map_values(|c: Club| c@),
            classes: self.classes@.map_values(|c: Class| c@),
            courses: self.courses@.map_values(|c: Course| c@),
        }
    }
}

impl StudentManagementSystem {
    /// An empty registry.
    pub fn new() -> (r: StudentManagementSystem)
        ensures
            r@ == RegistryView::empty(),
    {
        let r = StudentManagementSystem {
            students: Vec::new(),
            clubs: Vec::new(),
            classes: Vec::new(),
            courses: Vec::new(),
        };
        assert(r@ =~= RegistryView::empty());
        r
    }

    /// Appends a student. The identifier is not checked.
    pub fn create_student(&mut self, id: u32, name: String, age: u8, class_id: u32)
        ensures
            final(self)@ == old(self)@.with_new_student(
                StudentView { id, name: name@, age, class_id },
            ),
    {
        let student = Student { id, name, age, class_id };
        self.students.push(student);
        assert(self@ =~= old(self)@.with_new_student(StudentView { id, name: name@, age, class_id }));
    }

    /// Appends a club with no members. The identifier is not checked.
    pub fn create_club(&mut self, id: u32, name: String)
        ensures
            final(self)@ == old(self)@.with_new_club(id, name@),
    {
        let club = Club { id, name, members: Vec::new() };
        self.clubs.push(club);
        assert(self@.clubs =~= old(self)@.with_new_club(id, name@).clubs);
        assert(self@ =~= old(self)@.with_new_club(id, name@));
    }

    /// Appends a class with no students. The identifier is not checked.
    pub fn create_class(&mut self, id: u32, name: String)
        ensures
            final(self)@ == old(self)@.with_new_class(id, name@),
    {
        let class = Class { id, name, students: Vec::new() };
        self.classes.push(class);
        assert(self@.classes =~= old(self)@.with_new_class(id, name@).classes);
        assert(self@ =~= old(self)@.with_new_class(id, name@));
    }

    /// Appends a course. The identifier is not checked.
    pub fn create_course(&mut self, id: u32, name: String)
        ensures
            final(self)@ == old(self)@.with_new_course(id, name@),
    {
        let course = Course { id, name };
        self.courses.push(course);
        assert(self@ =~= old(self)@.with_new_course(id, name@));
    }

    /// Overwrites name, age and class of the first student with identifier
    /// `id`; does nothing if there is none.
    pub fn update_student(&mut self, id: u32, name: String, age: u8, class_id: u32)
        ensures
            final(self)@ == old(self)@.with_student_updated(
                StudentView { id, name: name@, age, class_id },
            ),
    {
        assert(keys_of(self.students@) =~= self@.student_ids());
        proof {
            lemma_first_index(self@.student_ids(), id);
        }
        if let Some(i) = first_position(&self.students, id) {
            self.students[i].name = name;
            self.students[i].age = age;
            self.students[i].class_id = class_id;
            assert(self@.students =~= old(self)@.students.update(
                i as int,
                StudentView { id, name: name@, age, class_id },
            ));
        }
        assert(self@ =~= old(self)@.with_student_updated(StudentView { id, name: name@, age, class_id }));
    }

    /// Removes every student with identifier `id`. Club and class
    /// memberships are left as they are.
    pub fn delete_student(&mut self, id: u32)
        ensures
            final(self)@ == old(self)@.without_student(id),
    {
        let mut all: Vec<Student> = Vec::new();
        std::mem::swap(&mut all, &mut self.students);
        let ghost before = all@.map_values(|s: Student| s@);
        for s in it: all.into_iter()
            invariant
                it.seq() == all@,
                before == all@.map_values(|s: Student| s@),
                self.students@.map_values(|s: Student| s@)
                    == before.subrange(0, it.index() as int).filter(other_than(id)),
                self.clubs == old(self).clubs,
                self.classes == old(self).classes,
                self.courses == old(self).courses,
        {
            proof {
                reveal(Seq::filter);
                assert(before.subrange(0, it.index() + 1).drop_last()
                    =~= before.subrange(0, it.index() as int));
            }
            if s.id != id {
                let ghost prev = self.students@;
                self.students.push(s);
                assert(self.students@.map_values(|s: Student| s@)
                    =~= prev.map_values(|s: Student| s@).push(s@));
            }
        }
        assert(before.subrange(0, before.len() as int) =~= before);
        assert(self@ =~= old(self)@.without_student(id));
    }

    /// Appends `student_id` to the members of the first club with
    /// identifier `club_id`; does nothing if there is none. The student
    /// identifier is not checked.
    pub fn add_student_to_club(&mut self, student_id: u32, club_id: u32)
        ensures
            final(self)@ == old(self)@.with_club_members(club_id, appended(student_id)),
    {
        assert(keys_of(self.clubs@) =~= self@.club_ids());
        proof {
            lemma_first_index(self@.club_ids(), club_id);
        }
        if let Some(i) = first_position(&self.clubs, club_id) {
            self.clubs[i].members.push(student_id);
            assert(self@.clubs =~= old(self)@.with_club_members(club_id, appended(student_id)).clubs);
        }
        assert(self@ =~= old(self)@.with_club_members(club_id, appended(student_id)));
    }

    /// Removes every occurrence of `student_id` from the members of the
    /// first club with identifier `club_id`; does nothing if there is none.
    pub fn remove_student_from_club(&mut self, student_id: u32, club_id: u32)
        ensures
            final(self)@ == old(self)@.with_club_members(club_id, without(student_id)),
    {
        assert(keys_of(self.clubs@) =~= self@.club_ids());
        proof {
            lemma_first_index(self@.club_ids(), club_id);
        }
        if let Some(i) = first_position(&self.clubs, club_id) {
            let kept = without_occurrences(&self.clubs[i].members, student_id);
            self.clubs[i].members = kept;
            assert(self@.clubs =~= old(self)@.with_club_members(club_id, without(student_id)).clubs);
        }
        assert(self@ =~= old(self)@.with_club_members(club_id, without(student_id)));
    }

    /// Appends `student_id` to the students of the first class with
    /// identifier `class_id`; does nothing if there is none. The student
    /// identifier is not checked.
    pub fn add_student_to_class(&mut self, student_id: u32, class_id: u32)
        ensures
            final(self)@ == old(self)@.with_class_students(class_id, appended(student_id)),
    {
        assert(keys_of(self.classes@) =~= self@.class_ids());
        proof {
            lemma_first_index(self@.class_ids(), class_id);
        }
        if let Some(i) = first_position(&self.classes, class_id) {
            self.classes[i].students.push(student_id);
            assert(self@.classes =~= old(self)@.with_class_students(class_id, appended(student_id)).classes);
        }
        assert(self@ =~= old(self)@.with_class_students(class_id, appended(student_id)));
    }

    /// Removes every occurrence of `student_id` from the students of the
    /// first class with identifier `class_id`; does nothing if there is none.
    pub fn remove_student_from_class(&mut self, student_id: u32, class_id: u32)
        ensures
            final(self)@ == old(self)@.with_class_students(class_id, without(student_id)),
    {
        assert(keys_of(self.classes@) =~= self@.class_ids());
        proof {
            lemma_first_index(self@.class_ids(), class_id);
        }
        if let Some(i) = first_position(&self.classes, class_id) {
            let kept = without_occurrences(&self.classes[i].students, student_id);
            self.classes[i].students = kept;
            assert(self@.classes =~= old(self)@.with_class_students(class_id, without(student_id)).classes);
        }
        assert(self@ =~= old(self)@.with_class_students(class_id, without(student_id)));
    }

    /// The first student with identifier `id`, if any.
    pub fn get_student(&self, id: u32) -> (r: Option<&Student>)
        ensures
            self@.student(id) == (match r {
                Some(s) => Some(s@),
                None => None,
            }),
    {
        assert(keys_of(self.students@) =~= self@.student_ids());
        match first_position(&self.students, id) {
            Some(i) => Some(&self.students[i]),
            None => None,
        }
    }

    /// The first club with identifier `id`, if any.
    pub fn get_club(&self, id: u32) -> (r: Option<&Club>)
        ensures
            self@.club(id) == (match r {
                Some(c) => Some(c@),
                None => None,
            }),
    {
        assert(keys_of(self.clubs@) =~= self@.club_ids());
        match first_position(&self.clubs, id) {
            Some(i) => Some(&self.clubs[i]),
            None => None,
        }
    }

    /// The first class with identifier `id`, if any.
    pub fn get_class(&self, id: u32) -> (r: Option<&Class>)
        ensures
            self@.class(id) == (match r {
                Some(c) => Some(c@),
                None => None,
            }),
    {
        assert(keys_of(self.classes@) =~= self@.class_ids());
        match first_position(&self.classes, id) {
            Some(i) => Some(&self.classes[i]),
            None => None,
        }
    }

    /// The first course with identifier `id`, if any.
    pub fn get_course(&self, id: u32) -> (r: Option<&Course>)
        ensures
            self@.course(id) == (match r {
                Some(c) => Some(c@),
                None => None,
            }),
    {
        assert(keys_of(self.courses@) =~= self@.course_ids());
        match first_position(&self.courses, id) {
            Some(i) => Some(&self.courses[i]),
            None => None,
        }
    }
}

} // verus!
