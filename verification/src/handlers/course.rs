//! Handlers for the course routes, nested under a teacher. Each takes the
//! typed values extracted from the request, invokes one data-access
//! function against the shared state, and renders the outcome.

use vstd::prelude::*;

use crate::dbaccess::course::{
    delete_course_db, get_course_detail_db, get_course_for_teacher_db, post_new_course_db,
    spec_course_delete_report, update_course_db,
};
use crate::models::course::{spec_merge_course, Course, CourseView, CreateCourse, UpdateCourse};
use crate::response::{reply_of, HttpReply, ReplyBody};
use crate::state::AppState;
use crate::storage::course_views;

verus! {

/// `POST /teachers/{teacher_id}/courses`: creates a course and returns the
/// stored record, whose identifier and timestamp the storage layer
/// assigned — the caller never supplies the identifier, and it differs
/// from every existing one. A body whose owning teacher does not exist is
/// refused by the storage layer's foreign key, reported as 500.
pub fn post_new_course(new_course: CreateCourse, app_state: &mut AppState) -> (r: HttpReply<
    Course,
>)
    requires
        old(app_state).db@.wf(),
    ensures
        final(app_state).db@.wf(),
        final(app_state).health_check_response@ == old(app_state).health_check_response@,
        final(app_state).visit_count == old(app_state).visit_count,
        final(app_state).db@.teachers == old(app_state).db@.teachers,
        final(app_state).db@.next_teacher_id == old(app_state).db@.next_teacher_id,
        final(app_state).db@.clock == old(app_state).db@.clock,
        !old(app_state).db@.has_teacher(new_course@.teacher_id) ==> r.status == 500 && (r.body
            matches ReplyBody::Error(b) && b@.error_msg == "Database error"@) && final(app_state).db@ == old(app_state).db@,
        old(app_state).db@.has_teacher(new_course@.teacher_id) && old(app_state).db@.next_course_id < i32::MAX as int ==> {
            &&& r.status == 200
            &&& r.body matches ReplyBody::Json(c) && c@ == (CourseView {
                teacher_id: new_course@.teacher_id,
                id: old(app_state).db@.next_course_id,
                name: new_course@.name,
                time: Some(old(app_state).db@.clock),
                description: new_course@.description,
                format: new_course@.format,
                structure: new_course@.structure,
                duration: new_course@.duration,
                price: new_course@.price,
                language: new_course@.language,
                level: new_course@.level,
            })
            &&& final(app_state).db@.courses == old(app_state).db@.courses.push(
                CourseView {
                    teacher_id: new_course@.teacher_id,
                    id: old(app_state).db@.next_course_id,
                    name: new_course@.name,
                    time: Some(old(app_state).db@.clock),
                    description: new_course@.description,
                    format: new_course@.format,
                    structure: new_course@.structure,
                    duration: new_course@.duration,
                    price: new_course@.price,
                    language: new_course@.language,
                    level: new_course@.level,
                },
            )
            &&& final(app_state).db@.next_course_id == old(app_state).db@.next_course_id + 1
            &&& forall|i: int|
                0 <= i < old(app_state).db@.courses.len() ==> (#[trigger] old(app_state).db@.courses[i]).id != old(app_state).db@.next_course_id
        },
        old(app_state).db@.has_teacher(new_course@.teacher_id) && old(app_state).db@.next_course_id == i32::MAX as int ==> r.status == 500 && (r.body
            matches ReplyBody::Error(b) && b@.error_msg == "Database error"@) && final(app_state).db@ == old(app_state).db@,
{
    reply_of(post_new_course_db(&mut app_state.db, new_course))
}

/// `GET /teachers/{teacher_id}/courses`: the courses of that teacher, in
/// stored order — the empty array when there are none, never an error.
pub fn get_courses_for_teacher(app_state: &AppState, teacher_id: i32) -> (r: HttpReply<
    Vec<Course>,
>)
    ensures
        r.status == 200,
        r.body matches ReplyBody::Json(v) && course_views(v@) == app_state.db@.courses_of(
            teacher_id as int,
        ),
{
    reply_of(get_course_for_teacher_db(&app_state.db, teacher_id))
}

/// `GET /teachers/{teacher_id}/courses/{course_id}`: the course with that
/// composite key, or 404.
pub fn get_course_detail(app_state: &AppState, teacher_id: i32, course_id: i32) -> (r: HttpReply<
    Course,
>)
    requires
        app_state.db@.wf(),
    ensures
        app_state.db@.has_course(teacher_id as int, course_id as int) ==> r.status == 200 && (
        r.body matches ReplyBody::Json(c) && c@ == app_state.db@.course_with(
            teacher_id as int,
            course_id as int,
        )),
        !app_state.db@.has_course(teacher_id as int, course_id as int) ==> r.status == 404 && (
        r.body matches ReplyBody::Error(b) && b@.error_msg == "Course ID not found"@),
{
    reply_of(get_course_detail_db(&app_state.db, teacher_id, course_id))
}

/// `DELETE /teachers/{teacher_id}/courses/{course_id}`: deletes the course
/// and reports how many rows were affected — an absent key yields 200
/// with a zero-row message, not 404.
pub fn delete_course(app_state: &mut AppState, teacher_id: i32, course_id: i32) -> (r: HttpReply<
    String,
>)
    requires
        old(app_state).db@.wf(),
    ensures
        final(app_state).db@.wf(),
        final(app_state).health_check_response@ == old(app_state).health_check_response@,
        final(app_state).visit_count == old(app_state).visit_count,
        final(app_state).db@.teachers == old(app_state).db@.teachers,
        final(app_state).db@.next_teacher_id == old(app_state).db@.next_teacher_id,
        final(app_state).db@.next_course_id == old(app_state).db@.next_course_id,
        final(app_state).db@.clock == old(app_state).db@.clock,
        !old(app_state).db@.has_course(teacher_id as int, course_id as int) ==> r.status == 200
            && (r.body matches ReplyBody::Json(m) && m@ == spec_course_delete_report(0)) && final(app_state).db@ == old(app_state).db@,
        old(app_state).db@.has_course(teacher_id as int, course_id as int) ==> r.status == 200 && (
        r.body matches ReplyBody::Json(m) && m@ == spec_course_delete_report(1)) && final(app_state).db@.courses == old(app_state).db@.courses.remove(
            old(app_state).db@.course_ix(teacher_id as int, course_id as int),
        ),
{
    reply_of(delete_course_db(&mut app_state.db, teacher_id, course_id))
}

/// `PUT /teachers/{teacher_id}/courses/{course_id}`: merges the provided
/// fields into the stored record and returns the merged record, or 404 if
/// the composite key is absent.
pub fn update_course_detail(
    app_state: &mut AppState,
    teacher_id: i32,
    course_id: i32,
    update_course: UpdateCourse,
) -> (r: HttpReply<Course>)
    requires
        old(app_state).db@.wf(),
    ensures
        final(app_state).db@.wf(),
        final(app_state).health_check_response@ == old(app_state).health_check_response@,
        final(app_state).visit_count == old(app_state).visit_count,
        final(app_state).db@.teachers == old(app_state).db@.teachers,
        final(app_state).db@.next_teacher_id == old(app_state).db@.next_teacher_id,
        final(app_state).db@.next_course_id == old(app_state).db@.next_course_id,
        final(app_state).db@.clock == old(app_state).db@.clock,
        !old(app_state).db@.has_course(teacher_id as int, course_id as int) ==> r.status == 404
            && (r.body matches ReplyBody::Error(b) && b@.error_msg == "Course ID not found"@)
            && final(app_state).db@ == old(app_state).db@,
        old(app_state).db@.has_course(teacher_id as int, course_id as int) ==> {
            &&& r.status == 200
            &&& r.body matches ReplyBody::Json(c) && c@ == spec_merge_course(
                old(app_state).db@.course_with(teacher_id as int, course_id as int),
                update_course@,
            )
            &&& final(app_state).db@.courses == old(app_state).db@.courses.update(
                old(app_state).db@.course_ix(teacher_id as int, course_id as int),
                spec_merge_course(
                    old(app_state).db@.course_with(teacher_id as int, course_id as int),
                    update_course@,
                ),
            )
        },
{
    reply_of(update_course_db(&mut app_state.db, teacher_id, course_id, update_course))
}

} // verus!
