//! Data access for the `course` table: list-by-owner, get, create, update,
//! delete.

use vstd::prelude::*;

use crate::decimal::{spec_decimal, u64_decimal};
use crate::errors::{MyError, MyErrorView};
use crate::models::course::{
    spec_merge_course, merge_course, Course, CourseView, CreateCourse, UpdateCourse,
};
use crate::storage::{
    course_belongs, course_views, find_course, find_teacher, lemma_course_insert_wf,
    lemma_course_remove_wf, lemma_course_update_wf, lemma_filter_take_step, Db,
};

verus! {

/// The confirmation message of a course deletion that affected `count`
/// rows.
pub open spec fn spec_course_delete_report(count: nat) -> Seq<char> {
    "Deleted "@ + spec_decimal(count) + " record"@
}

/// Lists the courses of one teacher, in stored order. A teacher without
/// courses yields the empty list, not an error.
pub fn get_course_for_teacher_db(db: &Db, teacher_id: i32) -> (r: Result<Vec<Course>, MyError>)
    ensures
        r matches Ok(v) && course_views(v@) == db@.courses_of(teacher_id as int),
{
    let mut courses: Vec<Course> = Vec::new();
    let mut i: usize = 0;
    while i < db.courses.len()
        invariant
            i <= db.courses@.len(),
            courses@.len() == db@.courses.take(i as int).filter(
                course_belongs(teacher_id as int),
            ).len(),
            course_views(courses@) == db@.courses.take(i as int).filter(
                course_belongs(teacher_id as int),
            ),
        decreases db.courses@.len() - i,
    {
        proof {
            lemma_filter_take_step(db@.courses, course_belongs(teacher_id as int), i as int);
            assert(db@.courses[i as int] == db.courses@[i as int]@);
        }
        if db.courses[i].teacher_id == teacher_id {
            courses.push(db.courses[i].clone());
            proof {
                assert(course_views(courses@) =~= db@.courses.take(i + 1 as int).filter(
                    course_belongs(teacher_id as int),
                ));
            }
        }
        i = i + 1;
    }
    proof {
        assert(db@.courses.take(db.courses@.len() as int) =~= db@.courses);
    }
    Ok(courses)
}

/// Gets the course with this composite key (owner, identifier), or
/// `NotFound` if no row matches.
pub fn get_course_detail_db(db: &Db, teacher_id: i32, course_id: i32) -> (r: Result<
    Course,
    MyError,
>)
    requires
        db@.wf(),
    ensures
        db@.has_course(teacher_id as int, course_id as int) ==> (r matches Ok(c) && c@
            == db@.course_with(teacher_id as int, course_id as int)),
        !db@.has_course(teacher_id as int, course_id as int) ==> (r matches Err(e) && e@
            == MyErrorView::NotFound("Course ID not found"@)),
{
    match find_course(&db.courses, teacher_id, course_id) {
        Some(i) => {
            let c = db.courses[i].clone();
            proof {
                assert(db@.courses[i as int].id == course_id as int);
                assert(db@.courses[i as int].teacher_id == teacher_id as int);
                assert(db@.has_course(teacher_id as int, course_id as int));
                let w = db@.course_ix(teacher_id as int, course_id as int);
                assert(db@.courses[w].id == course_id as int);
                assert(w == i as int);
            }
            Ok(c)
        },
        None => Err(MyError::NotFound("Course ID not found".to_string())),
    }
}

/// Creates a course: inserts the row with a storage-assigned identifier
/// and creation timestamp, and returns the stored record. The assigned
/// identifier is fresh: it differs from every existing one. A course whose
/// owning teacher does not exist is refused by the storage layer's foreign
/// key, reported as a database error; nothing changes then, nor when the
/// identifier space is exhausted.
pub fn post_new_course_db(db: &mut Db, new_course: CreateCourse) -> (r: Result<Course, MyError>)
    requires
        old(db)@.wf(),
    ensures
        final(db)@.wf(),
        final(db)@.teachers == old(db)@.teachers,
        final(db)@.next_teacher_id == old(db)@.next_teacher_id,
        final(db)@.clock == old(db)@.clock,
        !old(db)@.has_teacher(new_course@.teacher_id) ==> (r matches Err(e) && e@
            == MyErrorView::DBError("foreign key constraint violated"@) && final(db)@ == old(
            db,
        )@),
        old(db)@.has_teacher(new_course@.teacher_id) && old(db)@.next_course_id < i32::MAX as int
            ==> {
            &&& r matches Ok(c) && c@ == (CourseView {
                teacher_id: new_course@.teacher_id,
                id: old(db)@.next_course_id,
                name: new_course@.name,
                time: Some(old(db)@.clock),
                description: new_course@.description,
                format: new_course@.format,
                structure: new_course@.structure,
                duration: new_course@.duration,
                price: new_course@.price,
                language: new_course@.language,
                level: new_course@.level,
            })
            &&& final(db)@.courses == old(db)@.courses.push(
                CourseView {
                    teacher_id: new_course@.teacher_id,
                    id: old(db)@.next_course_id,
                    name: new_course@.name,
                    time: Some(old(db)@.clock),
                    description: new_course@.description,
                    format: new_course@.format,
                    structure: new_course@.structure,
                    duration: new_course@.duration,
                    price: new_course@.price,
                    language: new_course@.language,
                    level: new_course@.level,
                },
            )
            &&& final(db)@.next_course_id == old(db)@.next_course_id + 1
            &&& forall|i: int|
                0 <= i < old(db)@.courses.len() ==> (#[trigger] old(db)@.courses[i]).id != old(
                    db,
                )@.next_course_id
        },
        old(db)@.has_teacher(new_course@.teacher_id) && old(db)@.next_course_id == i32::MAX as int
            ==> (r matches Err(e) && e@ == MyErrorView::DBError("Course id space exhausted"@)
            && final(db)@ == old(db)@),
{
    match find_teacher(&db.teachers, new_course.teacher_id) {
        None => {
            proof {
                assert forall|k: int|
                    0 <= k < db@.teachers.len() implies (#[trigger] db@.teachers[k]).id
                    != new_course.teacher_id as int by {
                    assert(db@.teachers[k] == db.teachers@[k]@);
                }
            }
            return Err(MyError::DBError("foreign key constraint violated".to_owned()));
        },
        Some(w) => {
            proof {
                assert(db@.teachers[w as int].id == new_course.teacher_id as int);
                assert(db@.has_teacher(new_course@.teacher_id));
            }
        },
    }
    if db.next_course_id == i32::MAX {
        return Err(MyError::DBError("Course id space exhausted".to_owned()));
    }
    let id = db.next_course_id;
    let course = Course {
        teacher_id: new_course.teacher_id,
        id,
        name: new_course.name,
        time: Some(db.clock),
        description: new_course.description,
        format: new_course.format,
        structure: new_course.structure,
        duration: new_course.duration,
        price: new_course.price,
        language: new_course.language,
        level: new_course.level,
    };
    let stored = course.clone();
    let ghost pre = db@;
    db.courses.push(course);
    db.next_course_id = id + 1;
    proof {
        assert(db@.courses =~= pre.courses.push(stored@));
        lemma_course_insert_wf(pre, db@, stored@);
    }
    Ok(stored)
}

/// Deletes the course with this composite key and reports how many rows
/// were affected. Deleting an absent key is not an error: the message
/// reports zero rows.
pub fn delete_course_db(db: &mut Db, teacher_id: i32, id: i32) -> (r: Result<String, MyError>)
    requires
        old(db)@.wf(),
    ensures
        final(db)@.wf(),
        final(db)@.teachers == old(db)@.teachers,
        final(db)@.next_teacher_id == old(db)@.next_teacher_id,
        final(db)@.next_course_id == old(db)@.next_course_id,
        final(db)@.clock == old(db)@.clock,
        !old(db)@.has_course(teacher_id as int, id as int) ==> (r matches Ok(m) && m@
            == spec_course_delete_report(0) && final(db)@ == old(db)@),
        old(db)@.has_course(teacher_id as int, id as int) ==> (r matches Ok(m) && m@
            == spec_course_delete_report(1) && final(db)@.courses == old(db)@.courses.remove(
            old(db)@.course_ix(teacher_id as int, id as int),
        )),
{
    match find_course(&db.courses, teacher_id, id) {
        Some(i) => {
            let ghost pre = db@;
            proof {
                assert(pre.courses[i as int].id == id as int);
                assert(pre.courses[i as int].teacher_id == teacher_id as int);
                assert(pre.has_course(teacher_id as int, id as int));
                let w = pre.course_ix(teacher_id as int, id as int);
                assert(pre.courses[w].id == id as int);
                assert(w == i as int);
            }
            db.courses.remove(i);
            proof {
                pre.courses.remove_ensures(i as int);
                assert(db@.courses =~= pre.courses.remove(i as int));
                lemma_course_remove_wf(pre, db@, i as int);
            }
            let mut msg = "Deleted ".to_owned();
            let count = u64_decimal(1);
            msg.append(count.as_str());
            msg.append(" record");
            Ok(msg)
        },
        None => {
            let mut msg = "Deleted ".to_owned();
            let count = u64_decimal(0);
            msg.append(count.as_str());
            msg.append(" record");
            Ok(msg)
        },
    }
}

/// Updates the course with this composite key: reads the current row,
/// merges in the provided fields, writes the merged row back by its key,
/// and returns the merged record reconstructed from the already-known
/// values, without re-reading. Returns `NotFound`, changing nothing, if no
/// row matches.
pub fn update_course_db(
    db: &mut Db,
    teacher_id: i32,
    id: i32,
    update_course: UpdateCourse,
) -> (r: Result<Course, MyError>)
    requires
        old(db)@.wf(),
    ensures
        final(db)@.wf(),
        final(db)@.teachers == old(db)@.teachers,
        final(db)@.next_teacher_id == old(db)@.next_teacher_id,
        final(db)@.next_course_id == old(db)@.next_course_id,
        final(db)@.clock == old(db)@.clock,
        !old(db)@.has_course(teacher_id as int, id as int) ==> (r matches Err(e) && e@
            == MyErrorView::NotFound("Course ID not found"@) && final(db)@ == old(db)@),
        old(db)@.has_course(teacher_id as int, id as int) ==> {
            &&& r matches Ok(c) && c@ == spec_merge_course(
                old(db)@.course_with(teacher_id as int, id as int),
                update_course@,
            )
            &&& final(db)@.courses == old(db)@.courses.update(
                old(db)@.course_ix(teacher_id as int, id as int),
                spec_merge_course(
                    old(db)@.course_with(teacher_id as int, id as int),
                    update_course@,
                ),
            )
        },
{
    match find_course(&db.courses, teacher_id, id) {
        Some(i) => {
            let merged = merge_course(&db.courses[i], update_course);
            let stored = merged.clone();
            let ghost pre = db@;
            proof {
                assert(pre.courses[i as int].id == id as int);
                assert(pre.courses[i as int].teacher_id == teacher_id as int);
                assert(pre.has_course(teacher_id as int, id as int));
                let w = pre.course_ix(teacher_id as int, id as int);
                assert(pre.courses[w].id == id as int);
                assert(w == i as int);
            }
            db.courses[i] = merged;
            proof {
                assert(db@.courses =~= pre.courses.update(i as int, stored@));
                lemma_course_update_wf(pre, db@, i as int, stored@);
            }
            Ok(stored)
        },
        None => Err(MyError::NotFound("Course ID not found".to_string())),
    }
}

} // verus!
