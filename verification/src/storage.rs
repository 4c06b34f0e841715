//! An in-memory model of the relational storage layer: the `teacher` and
//! `course` tables, the identifier counters the storage layer uses to assign
//! primary keys, and the clock it uses to stamp created courses.
//!
//! The model keeps the invariants the database schema enforces: primary keys
//! are unique and assigned from a monotone counter, and every course
//! references an existing teacher.

use vstd::prelude::*;

use crate::models::course::{Course, CourseView};
use crate::models::teacher::{Teacher, TeacherView};

verus! {

/// The mathematical value of the storage layer: both tables as sequences of
/// record values, the two identifier counters, and the clock.
#[verifier::ext_equal]
pub struct DbView {
    pub teachers: Seq<TeacherView>,
    pub courses: Seq<CourseView>,
    pub next_teacher_id: int,
    pub next_course_id: int,
    pub clock: int,
}

/// The predicate selecting the courses of one teacher.
pub open spec fn course_belongs(teacher_id: int) -> spec_fn(CourseView) -> bool {
    |c: CourseView| c.teacher_id == teacher_id
}

/// The values of a sequence of stored teacher records.
pub open spec fn teacher_views(s: Seq<Teacher>) -> Seq<TeacherView> {
    s.map_values(|t: Teacher| t@)
}

/// The values of a sequence of stored course records.
pub open spec fn course_views(s: Seq<Course>) -> Seq<CourseView> {
    s.map_values(|c: Course| c@)
}

impl DbView {
    /// A teacher record with this identifier exists.
    pub open spec fn has_teacher(self, id: int) -> bool {
        exists|i: int|
            0 <= i < self.teachers.len() && (#[trigger] self.teachers[i]).id == id
    }

    /// The row index of the teacher record with this identifier.
    pub open spec fn teacher_ix(self, id: int) -> int {
        choose|i: int|
            0 <= i < self.teachers.len() && (#[trigger] self.teachers[i]).id == id
    }

    /// The teacher record with this identifier.
    pub open spec fn teacher_with_id(self, id: int) -> TeacherView {
        self.teachers[self.teacher_ix(id)]
    }

    /// A course record with this composite key (owner, identifier) exists.
    pub open spec fn has_course(self, teacher_id: int, id: int) -> bool {
        exists|i: int|
            0 <= i < self.courses.len() && (#[trigger] self.courses[i]).id == id
                && self.courses[i].teacher_id == teacher_id
    }

    /// The row index of the course record with this composite key.
    pub open spec fn course_ix(self, teacher_id: int, id: int) -> int {
        choose|i: int|
            0 <= i < self.courses.len() && (#[trigger] self.courses[i]).id == id
                && self.courses[i].teacher_id == teacher_id
    }

    /// The course record with this composite key.
    pub open spec fn course_with(self, teacher_id: int, id: int) -> CourseView {
        self.courses[self.course_ix(teacher_id, id)]
    }

    /// The courses of one teacher, in stored order.
    pub open spec fn courses_of(self, teacher_id: int) -> Seq<CourseView> {
        self.courses.filter(course_belongs(teacher_id))
    }

    /// Some course references this teacher.
    pub open spec fn teacher_has_courses(self, teacher_id: int) -> bool {
        exists|i: int|
            0 <= i < self.courses.len() && (#[trigger] self.courses[i]).teacher_id == teacher_id
    }

    /// The `teacher` table is well formed: identifiers are positive, below
    /// the counter, and pairwise distinct.
    pub open spec fn teachers_wf(self) -> bool {
        &&& forall|i: int|
            0 <= i < self.teachers.len() ==> 0 < (#[trigger] self.teachers[i]).id
                < self.next_teacher_id
        &&& forall|i: int, j: int|
            0 <= i < self.teachers.len() && 0 <= j < self.teachers.len() && i != j ==> (
            #[trigger] self.teachers[i]).id != (#[trigger] self.teachers[j]).id
    }

    /// The `course` table is well formed: identifiers are positive, below
    /// the counter, pairwise distinct, and every course references an
    /// existing teacher.
    pub open spec fn courses_wf(self) -> bool {
        &&& forall|i: int|
            0 <= i < self.courses.len() ==> 0 < (#[trigger] self.courses[i]).id
                < self.next_course_id
        &&& forall|i: int, j: int|
            0 <= i < self.courses.len() && 0 <= j < self.courses.len() && i != j ==> (
            #[trigger] self.courses[i]).id != (#[trigger] self.courses[j]).id
        &&& forall|i: int|
            0 <= i < self.courses.len() ==> self.has_teacher(
                (#[trigger] self.courses[i]).teacher_id,
            )
    }

    /// The storage layer's invariant.
    pub open spec fn wf(self) -> bool {
        &&& self.teachers_wf()
        &&& self.courses_wf()
        &&& 0 < self.next_teacher_id <= i32::MAX as int
        &&& 0 < self.next_course_id <= i32::MAX as int
    }
}

/// The in-memory storage layer.
pub struct Db {
    pub teachers: Vec<Teacher>,
    pub courses: Vec<Course>,
    pub next_teacher_id: i32,
    pub next_course_id: i32,
    pub clock: i64,
}

impl View for Db {
    type V = DbView;

    open spec fn view(&self) -> DbView {
        DbView {
            teachers: teacher_views(self.teachers@),
            courses: course_views(self.courses@),
            next_teacher_id: self.next_teacher_id as int,
            next_course_id: self.next_course_id as int,
            clock: self.clock as int,
        }
    }
}

impl Db {
    /// An empty storage layer: no rows, counters at one, clock at zero.
    pub fn new() -> (db: Db)
        ensures
            db@.wf(),
            db@.teachers.len() == 0,
            db@.courses.len() == 0,
            db@.next_teacher_id == 1,
            db@.next_course_id == 1,
            db@.clock == 0,
    {
        Db {
            teachers: Vec::new(),
            courses: Vec::new(),
            next_teacher_id: 1,
            next_course_id: 1,
            clock: 0,
        }
    }

    /// Sets the storage layer's clock, which stamps created courses.
    pub fn set_clock(&mut self, now: i64)
        ensures
            final(self)@.clock == now as int,
            final(self)@.teachers == old(self)@.teachers,
            final(self)@.courses == old(self)@.courses,
            final(self)@.next_teacher_id == old(self)@.next_teacher_id,
            final(self)@.next_course_id == old(self)@.next_course_id,
    {
        self.clock = now;
    }
}

/// Finds the row index of the teacher with this identifier, if any.
pub(crate) fn find_teacher(teachers: &Vec<Teacher>, id: i32) -> (r: Option<usize>)
    ensures
        match r {
            Some(i) => i < teachers@.len() && teachers@[i as int]@.id == id as int,
            None => forall|j: int|
                0 <= j < teachers@.len() ==> (#[trigger] teachers@[j])@.id != id as int,
        },
{
    let mut i: usize = 0;
    while i < teachers.len()
        invariant
            i <= teachers@.len(),
            forall|j: int| 0 <= j < i ==> (#[trigger] teachers@[j])@.id != id as int,
        decreases teachers@.len() - i,
    {
        if teachers[i].id == id {
            return Some(i);
        }
        i = i + 1;
    }
    None
}

/// Finds the row index of the course with this composite key, if any.
pub(crate) fn find_course(courses: &Vec<Course>, teacher_id: i32, id: i32) -> (r: Option<usize>)
    ensures
        match r {
            Some(i) => i < courses@.len() && courses@[i as int]@.id == id as int
                && courses@[i as int]@.teacher_id == teacher_id as int,
            None => forall|j: int|
                0 <= j < courses@.len() ==> !((#[trigger] courses@[j])@.id == id as int
                    && courses@[j]@.teacher_id == teacher_id as int),
        },
{
    let mut i: usize = 0;
    while i < courses.len()
        invariant
            i <= courses@.len(),
            forall|j: int|
                0 <= j < i ==> !((#[trigger] courses@[j])@.id == id as int
                    && courses@[j]@.teacher_id == teacher_id as int),
        decreases courses@.len() - i,
    {
        if courses[i].teacher_id == teacher_id && courses[i].id == id {
            return Some(i);
        }
        i = i + 1;
    }
    None
}

/// Decides whether any course references this teacher.
pub(crate) fn any_course_of_teacher(courses: &Vec<Course>, teacher_id: i32) -> (b: bool)
    ensures
        b == exists|j: int|
            0 <= j < courses@.len() && (#[trigger] courses@[j])@.teacher_id == teacher_id as int,
{
    let mut i: usize = 0;
    while i < courses.len()
        invariant
            i <= courses@.len(),
            forall|j: int| 0 <= j < i ==> (#[trigger] courses@[j])@.teacher_id != teacher_id as int,
        decreases courses@.len() - i,
    {
        if courses[i].teacher_id == teacher_id {
            return true;
        }
        i = i + 1;
    }
    false
}

/// Inserting a fresh teacher row keeps the storage invariant.
pub(crate) proof fn lemma_teacher_insert_wf(pre: DbView, post: DbView, t: TeacherView)
    requires
        pre.wf(),
        t.id == pre.next_teacher_id,
        pre.next_teacher_id < i32::MAX as int,
        post.teachers == pre.teachers.push(t),
        post.courses == pre.courses,
        post.next_teacher_id == pre.next_teacher_id + 1,
        post.next_course_id == pre.next_course_id,
    ensures
        post.wf(),
{
    assert forall|i: int|
        0 <= i < post.courses.len() implies post.has_teacher(
        (#[trigger] post.courses[i]).teacher_id,
    ) by {
        assert(pre.has_teacher(pre.courses[i].teacher_id));
        let w = choose|j: int|
            0 <= j < pre.teachers.len() && (#[trigger] pre.teachers[j]).id
                == pre.courses[i].teacher_id;
        assert(post.teachers[w] == pre.teachers[w]);
    }
}

/// Inserting a fresh course row that references an existing teacher keeps
/// the storage invariant.
pub(crate) proof fn lemma_course_insert_wf(pre: DbView, post: DbView, c: CourseView)
    requires
        pre.wf(),
        c.id == pre.next_course_id,
        pre.next_course_id < i32::MAX as int,
        pre.has_teacher(c.teacher_id),
        post.teachers == pre.teachers,
        post.courses == pre.courses.push(c),
        post.next_teacher_id == pre.next_teacher_id,
        post.next_course_id == pre.next_course_id + 1,
    ensures
        post.wf(),
{
    assert forall|i: int|
        0 <= i < post.courses.len() implies post.has_teacher(
        (#[trigger] post.courses[i]).teacher_id,
    ) by {
        if i < pre.courses.len() {
            assert(pre.has_teacher(pre.courses[i].teacher_id));
            let w = choose|j: int|
                0 <= j < pre.teachers.len() && (#[trigger] pre.teachers[j]).id
                    == pre.courses[i].teacher_id;
            assert(post.teachers[w] == pre.teachers[w]);
        } else {
            assert(post.courses[i] == c);
            let w = choose|j: int|
                0 <= j < pre.teachers.len() && (#[trigger] pre.teachers[j]).id == c.teacher_id;
            assert(post.teachers[w] == pre.teachers[w]);
        }
    }
}

/// Replacing a row by one with the same key keeps the storage invariant.
pub(crate) proof fn lemma_teacher_update_wf(pre: DbView, post: DbView, i: int, t: TeacherView)
    requires
        pre.wf(),
        0 <= i < pre.teachers.len(),
        t.id == pre.teachers[i].id,
        post.teachers == pre.teachers.update(i, t),
        post.courses == pre.courses,
        post.next_teacher_id == pre.next_teacher_id,
        post.next_course_id == pre.next_course_id,
    ensures
        post.wf(),
{
    assert forall|k: int|
        0 <= k < post.courses.len() implies post.has_teacher(
        (#[trigger] post.courses[k]).teacher_id,
    ) by {
        assert(pre.has_teacher(pre.courses[k].teacher_id));
        let w = choose|j: int|
            0 <= j < pre.teachers.len() && (#[trigger] pre.teachers[j]).id
                == pre.courses[k].teacher_id;
        assert(post.teachers[w].id == pre.teachers[w].id);
    }
}

/// Replacing a course row by one with the same keys keeps the storage
/// invariant.
pub(crate) proof fn lemma_course_update_wf(pre: DbView, post: DbView, i: int, c: CourseView)
    requires
        pre.wf(),
        0 <= i < pre.courses.len(),
        c.id == pre.courses[i].id,
        c.teacher_id == pre.courses[i].teacher_id,
        post.teachers == pre.teachers,
        post.courses == pre.courses.update(i, c),
        post.next_teacher_id == pre.next_teacher_id,
        post.next_course_id == pre.next_course_id,
    ensures
        post.wf(),
{
    assert forall|k: int|
        0 <= k < post.courses.len() implies post.has_teacher(
        (#[trigger] post.courses[k]).teacher_id,
    ) by {
        assert(post.courses[k].teacher_id == pre.courses[k].teacher_id);
        assert(pre.has_teacher(pre.courses[k].teacher_id));
    }
}

/// Removing a teacher row that no course references keeps the storage
/// invariant.
pub(crate) proof fn lemma_teacher_remove_wf(pre: DbView, post: DbView, i: int)
    requires
        pre.wf(),
        0 <= i < pre.teachers.len(),
        !pre.teacher_has_courses(pre.teachers[i].id),
        post.teachers == pre.teachers.remove(i),
        post.courses == pre.courses,
        post.next_teacher_id == pre.next_teacher_id,
        post.next_course_id == pre.next_course_id,
    ensures
        post.wf(),
{
    pre.teachers.remove_ensures(i);
    assert forall|k: int|
        0 <= k < post.courses.len() implies post.has_teacher(
        (#[trigger] post.courses[k]).teacher_id,
    ) by {
        assert(pre.has_teacher(pre.courses[k].teacher_id));
        let w = choose|j: int|
            0 <= j < pre.teachers.len() && (#[trigger] pre.teachers[j]).id
                == pre.courses[k].teacher_id;
        assert(pre.teachers[w].id != pre.teachers[i].id);
        if w < i {
            assert(post.teachers[w] == pre.teachers[w]);
        } else {
            assert(post.teachers[w - 1] == pre.teachers[w]);
        }
    }
}

/// Removing a course row keeps the storage invariant.
pub(crate) proof fn lemma_course_remove_wf(pre: DbView, post: DbView, i: int)
    requires
        pre.wf(),
        0 <= i < pre.courses.len(),
        post.teachers == pre.teachers,
        post.courses == pre.courses.remove(i),
        post.next_teacher_id == pre.next_teacher_id,
        post.next_course_id == pre.next_course_id,
    ensures
        post.wf(),
{
    pre.courses.remove_ensures(i);
    assert forall|k: int|
        0 <= k < post.courses.len() implies post.has_teacher(
        (#[trigger] post.courses[k]).teacher_id,
    ) by {
        if k < i {
            assert(post.courses[k] == pre.courses[k]);
        } else {
            assert(post.courses[k] == pre.courses[k + 1]);
        }
    }
}

/// One step of walking a table while filtering it: extending the prefix by
/// one row extends the filtered prefix exactly when the row matches.
pub(crate) proof fn lemma_filter_take_step<A>(s: Seq<A>, p: spec_fn(A) -> bool, i: int)
    requires
        0 <= i < s.len(),
    ensures
        s.take(i + 1).filter(p) == if p(s[i]) {
            s.take(i).filter(p).push(s[i])
        } else {
            s.take(i).filter(p)
        },
{
    reveal(Seq::filter);
    assert(s.take(i + 1).drop_last() =~= s.take(i));
    assert(s.take(i + 1).last() == s[i]);
}

} // verus!
