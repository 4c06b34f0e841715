//! Data access for the `teacher` table: list, get, create, update, delete.

use vstd::prelude::*;

use crate::decimal::{spec_decimal, u64_decimal};
use crate::errors::{MyError, MyErrorView};
use crate::models::teacher::{
    spec_merge_teacher, merge_teacher, CreateTeacher, Teacher, TeacherView, UpdateTeacher,
};
use crate::storage::{
    find_teacher, any_course_of_teacher, lemma_teacher_insert_wf, lemma_teacher_remove_wf,
    lemma_teacher_update_wf, teacher_views, Db,
};

verus! {

/// The confirmation message of a teacher deletion that affected `count`
/// rows.
pub open spec fn spec_teacher_delete_report(count: nat) -> Seq<char> {
    "Delete "@ + spec_decimal(count) + " record"@
}

/// Lists every teacher, in stored order. An empty table is reported as
/// `NotFound`, unlike the course listing.
pub fn get_all_teachers_db(db: &Db) -> (r: Result<Vec<Teacher>, MyError>)
    ensures
        db@.teachers.len() == 0 ==> (r matches Err(e) && e@ == MyErrorView::NotFound(
            "No teachers found"@,
        )),
        db@.teachers.len() > 0 ==> (r matches Ok(v) && teacher_views(v@) == db@.teachers),
{
    let mut teachers: Vec<Teacher> = Vec::new();
    let mut i: usize = 0;
    while i < db.teachers.len()
        invariant
            i <= db.teachers@.len(),
            teachers@.len() == i,
            teacher_views(teachers@) == db@.teachers.take(i as int),
        decreases db.teachers@.len() - i,
    {
        let t = db.teachers[i].clone();
        let ghost prefix = teachers@;
        teachers.push(t);
        proof {
            assert forall|k: int|
                0 <= k < i + 1 implies teacher_views(teachers@)[k] == db@.teachers.take(
                i + 1 as int,
            )[k] by {
                assert(db@.teachers[k] == db.teachers@[k]@);
                if k < i as int {
                    assert(teachers@[k] == prefix[k]);
                    assert(teacher_views(prefix)[k] == db@.teachers.take(i as int)[k]);
                } else {
                    assert(teachers@[k] == prefix.push(teachers@[i as int])[k]);
                }
            }
            assert(teacher_views(teachers@) =~= db@.teachers.take(i + 1 as int));
        }
        i = i + 1;
    }
    proof {
        assert(db@.teachers.take(db.teachers@.len() as int) =~= db@.teachers);
    }
    if teachers.len() == 0 {
        Err(MyError::NotFound("No teachers found".to_owned()))
    } else {
        Ok(teachers)
    }
}

/// Gets the teacher with this identifier, or `NotFound` if no row matches.
pub fn get_teacher_details_db(db: &Db, teacher_id: i32) -> (r: Result<Teacher, MyError>)
    requires
        db@.wf(),
    ensures
        db@.has_teacher(teacher_id as int) ==> (r matches Ok(t) && t@ == db@.teacher_with_id(
            teacher_id as int,
        )),
        !db@.has_teacher(teacher_id as int) ==> (r matches Err(e) && e@ == MyErrorView::NotFound(
            "Teacher id not found"@,
        )),
{
    match find_teacher(&db.teachers, teacher_id) {
        Some(i) => {
            let t = db.teachers[i].clone();
            proof {
                assert(db@.teachers[i as int].id == teacher_id as int);
                assert(db@.has_teacher(teacher_id as int));
                let w = db@.teacher_ix(teacher_id as int);
                assert(db@.teachers[w].id == teacher_id as int);
                assert(w == i as int);
            }
            Ok(t)
        },
        None => {
            proof {
                assert(!db@.has_teacher(teacher_id as int));
            }
            Err(MyError::NotFound("Teacher id not found".to_owned()))
        },
    }
}

/// Creates a teacher: inserts the row with a storage-assigned identifier
/// and returns the stored record. The assigned identifier is fresh: it
/// differs from every existing one. If the identifier space is exhausted,
/// the storage layer reports a database error and nothing changes.
pub fn post_new_teacher_db(db: &mut Db, new_teacher: CreateTeacher) -> (r: Result<
    Teacher,
    MyError,
>)
    requires
        old(db)@.wf(),
    ensures
        final(db)@.wf(),
        final(db)@.courses == old(db)@.courses,
        final(db)@.next_course_id == old(db)@.next_course_id,
        final(db)@.clock == old(db)@.clock,
        old(db)@.next_teacher_id < i32::MAX as int ==> {
            &&& r matches Ok(t) && t@ == (TeacherView {
                id: old(db)@.next_teacher_id,
                name: new_teacher@.name,
                picture_url: new_teacher@.picture_url,
                profile: new_teacher@.profile,
            })
            &&& final(db)@.teachers == old(db)@.teachers.push(
                TeacherView {
                    id: old(db)@.next_teacher_id,
                    name: new_teacher@.name,
                    picture_url: new_teacher@.picture_url,
                    profile: new_teacher@.profile,
                },
            )
            &&& final(db)@.next_teacher_id == old(db)@.next_teacher_id + 1
            &&& forall|i: int|
                0 <= i < old(db)@.teachers.len() ==> (#[trigger] old(db)@.teachers[i]).id
                    != old(db)@.next_teacher_id
        },
        old(db)@.next_teacher_id == i32::MAX as int ==> (r matches Err(e) && e@
            == MyErrorView::DBError("Teacher id space exhausted"@) && final(db)@ == old(db)@),
{
    if db.next_teacher_id == i32::MAX {
        return Err(MyError::DBError("Teacher id space exhausted".to_owned()));
    }
    let id = db.next_teacher_id;
    let teacher = Teacher {
        id,
        name: new_teacher.name,
        picture_url: new_teacher.picture_url,
        profile: new_teacher.profile,
    };
    let stored = teacher.clone();
    let ghost pre = db@;
    db.teachers.push(teacher);
    db.next_teacher_id = id + 1;
    proof {
        assert(db@.teachers =~= pre.teachers.push(stored@));
        lemma_teacher_insert_wf(pre, db@, stored@);
    }
    Ok(stored)
}

/// Updates the teacher with this identifier: reads the current row, merges
/// in the provided fields, writes the merged row back, and returns the row
/// re-read after the write — which is exactly the merged record. Returns
/// `NotFound`, changing nothing, if no row matches.
pub fn update_teacher_details_db(
    db: &mut Db,
    teacher_id: i32,
    update_teacher: UpdateTeacher,
) -> (r: Result<Teacher, MyError>)
    requires
        old(db)@.wf(),
    ensures
        final(db)@.wf(),
        final(db)@.courses == old(db)@.courses,
        final(db)@.next_teacher_id == old(db)@.next_teacher_id,
        final(db)@.next_course_id == old(db)@.next_course_id,
        final(db)@.clock == old(db)@.clock,
        !old(db)@.has_teacher(teacher_id as int) ==> (r matches Err(e) && e@
            == MyErrorView::NotFound("Teacher id not found"@) && final(db)@ == old(db)@),
        old(db)@.has_teacher(teacher_id as int) ==> {
            &&& r matches Ok(t) && t@ == spec_merge_teacher(
                old(db)@.teacher_with_id(teacher_id as int),
                update_teacher@,
            )
            &&& final(db)@.teachers == old(db)@.teachers.update(
                old(db)@.teacher_ix(teacher_id as int),
                spec_merge_teacher(old(db)@.teacher_with_id(teacher_id as int), update_teacher@),
            )
        },
{
    match find_teacher(&db.teachers, teacher_id) {
        Some(i) => {
            let merged = merge_teacher(&db.teachers[i], update_teacher);
            let stored = merged.clone();
            let ghost pre = db@;
            proof {
                assert(pre.teachers[i as int].id == teacher_id as int);
                assert(pre.has_teacher(teacher_id as int));
                let w = pre.teacher_ix(teacher_id as int);
                assert(pre.teachers[w].id == teacher_id as int);
                assert(w == i as int);
            }
            db.teachers[i] = merged;
            proof {
                assert(db@.teachers =~= pre.teachers.update(i as int, stored@));
                lemma_teacher_update_wf(pre, db@, i as int, stored@);
            }
            Ok(stored)
        },
        None => Err(MyError::NotFound("Teacher id not found".to_owned())),
    }
}

/// Deletes the teacher with this identifier and reports how many rows were
/// affected. Deleting an absent identifier is not an error: the message
/// reports zero rows. A teacher still referenced by courses cannot be
/// deleted; the storage layer refuses and a database error is reported.
pub fn delete_teacher_db(db: &mut Db, teacher_id: i32) -> (r: Result<String, MyError>)
    requires
        old(db)@.wf(),
    ensures
        final(db)@.wf(),
        final(db)@.courses == old(db)@.courses,
        final(db)@.next_teacher_id == old(db)@.next_teacher_id,
        final(db)@.next_course_id == old(db)@.next_course_id,
        final(db)@.clock == old(db)@.clock,
        !old(db)@.has_teacher(teacher_id as int) ==> (r matches Ok(m) && m@
            == spec_teacher_delete_report(0) && final(db)@ == old(db)@),
        old(db)@.has_teacher(teacher_id as int) && old(db)@.teacher_has_courses(teacher_id as int)
            ==> (r matches Err(e) && e@ == MyErrorView::DBError("Unable to delete teacher"@)
            && final(db)@ == old(db)@),
        old(db)@.has_teacher(teacher_id as int) && !old(db)@.teacher_has_courses(teacher_id as int)
            ==> (r matches Ok(m) && m@ == spec_teacher_delete_report(1) && final(db)@.teachers
            == old(db)@.teachers.remove(old(db)@.teacher_ix(teacher_id as int))),
{
    match find_teacher(&db.teachers, teacher_id) {
        Some(i) => {
            if any_course_of_teacher(&db.courses, teacher_id) {
                proof {
                    let j = choose|j: int|
                        0 <= j < db.courses@.len() && (#[trigger] db.courses@[j])@.teacher_id
                            == teacher_id as int;
                    assert(db@.courses[j].teacher_id == teacher_id as int);
                }
                Err(MyError::DBError("Unable to delete teacher".to_owned()))
            } else {
                proof {
                    assert forall|k: int|
                        0 <= k < db@.courses.len() implies (#[trigger] db@.courses[k]).teacher_id
                        != teacher_id as int by {
                        assert(db@.courses[k] == db.courses@[k]@);
                    }
                }
                let ghost pre = db@;
                proof {
                    assert(pre.teachers[i as int].id == teacher_id as int);
                    assert(pre.has_teacher(teacher_id as int));
                    let w = pre.teacher_ix(teacher_id as int);
                    assert(pre.teachers[w].id == teacher_id as int);
                    assert(w == i as int);
                }
                db.teachers.remove(i);
                proof {
                    pre.teachers.remove_ensures(i as int);
                    assert(db@.teachers =~= pre.teachers.remove(i as int));
                    lemma_teacher_remove_wf(pre, db@, i as int);
                }
                let mut msg = "Delete ".to_owned();
                let count = u64_decimal(1);
                msg.append(count.as_str());
                msg.append(" record");
                Ok(msg)
            }
        },
        None => {
            let mut msg = "Delete ".to_owned();
            let count = u64_decimal(0);
            msg.append(count.as_str());
            msg.append(" record");
            Ok(msg)
        },
    }
}

} // verus!
