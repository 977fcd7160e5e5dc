//! The four kinds of record that the registry keeps.

use vstd::prelude::*;
use crate::lookup::Keyed;

verus! {

/// A student: identifier, name, age and the class it is assigned to.
/// The class identifier is not checked against the registry's classes.
#[derive(Debug)]
pub struct Student {
    pub id: u32,
    pub name: String,
    pub age: u8,
    pub class_id: u32,
}

/// A club and the identifiers of its members, in the order they joined;
/// the same identifier may appear more than once.
#[derive(Debug)]
pub struct Club {
    pub id: u32,
    pub name: String,
    pub members: Vec<u32>,
}

/// A class and the identifiers of its students, in the order they joined;
/// the same identifier may appear more than once.
#[derive(Debug)]
pub struct Class {
    pub id: u32,
    pub name: String,
    pub students: Vec<u32>,
}

/// A course: identifier and name.
#[derive(Debug)]
pub struct Course {
    pub id: u32,
    pub name: String,
}

/// What a `Student` holds, with its name as characters.
pub ghost struct StudentView {
    pub id: u32,
    pub name: Seq<char>,
    pub age: u8,
    pub class_id: u32,
}

/// What a `Club` holds: identifier, name and members.
pub ghost struct ClubView {
    pub id: u32,
    pub name: Seq<char>,
    pub members: Seq<u32>,
}

/// What a `Class` holds: identifier, name and students.
pub ghost struct ClassView {
    pub id: u32,
    pub name: Seq<char>,
    pub students: Seq<u32>,
}

/// What a `Course` holds: identifier and name.
pub ghost struct CourseView {
    pub id: u32,
    pub name: Seq<char>,
}

impl View for Student {
    type V = StudentView;

    open spec fn view(&self) -> StudentView {
        StudentView { id: self.id, name: self.name@, age: self.age, class_id: self.class_id }
    }
}

impl View for Club {
    type V = ClubView;

    open spec fn view(&self) -> ClubView {
        ClubView { id: self.id, name: self.name@, members: self.members@ }
    }
}

impl View for Class {
    type V = ClassView;

    open spec fn view(&self) -> ClassView {
        ClassView { id: self.id, name: self.name@, students: self.students@ }
    }
}

impl View for Course {
    type V = CourseView;

    open spec fn view(&self) -> CourseView {
        CourseView { id: self.id, name: self.name@ }
    }
}

impl Keyed for Student {
    open spec fn key(&self) -> u32 {
        self.id
    }

    fn id(&self) -> (r: u32) {
        self.id
    }
}

impl Keyed for Club {
    open spec fn key(&self) -> u32 {
        self.id
    }

    fn id(&self) -> (r: u32) {
        self.id
    }
}

impl Keyed for Class {
    open spec fn key(&self) -> u32 {
        self.id
    }

    fn id(&self) -> (r: u32) {
        self.id
    }
}

impl Keyed for Course {
    open spec fn key(&self) -> u32 {
        self.id
    }

    fn id(&self) -> (r: u32) {
        self.id
    }
}

} // verus!
