//! Handlers for the teacher routes. Each takes the typed values extracted
//! from the request, invokes one data-access function against the shared
//! state, and renders the outcome: 200 with the result on success, the
//! taxonomy status and error body on failure, with no handler-level
//! recovery.

use vstd::prelude::*;

use crate::dbaccess::teacher::{
    delete_teacher_db, get_all_teachers_db, get_teacher_details_db, post_new_teacher_db,
    spec_teacher_delete_report, update_teacher_details_db,
};
use crate::models::teacher::{spec_merge_teacher, CreateTeacher, Teacher, TeacherView, UpdateTeacher};
use crate::response::{reply_of, HttpReply, ReplyBody};
use crate::state::AppState;
use crate::storage::teacher_views;

verus! {

/// `GET /teachers`: every teacher, or 404 when the table is empty.
pub fn get_all_teachers(app_state: &AppState) -> (r: HttpReply<Vec<Teacher>>)
    ensures
        app_state.db@.teachers.len() == 0 ==> r.status == 404 && (r.body
            matches ReplyBody::Error(b) && b@.error_msg == "No teachers found"@),
        app_state.db@.teachers.len() > 0 ==> r.status == 200 && (r.body matches ReplyBody::Json(v)
            && teacher_views(v@) == app_state.db@.teachers),
{
    reply_of(get_all_teachers_db(&app_state.db))
}

/// `GET /teachers/{id}`: the teacher with that identifier, or 404.
pub fn get_teacher_details(app_state: &AppState, teacher_id: i32) -> (r: HttpReply<Teacher>)
    requires
        app_state.db@.wf(),
    ensures
        app_state.db@.has_teacher(teacher_id as int) ==> r.status == 200 && (r.body
            matches ReplyBody::Json(t) && t@ == app_state.db@.teacher_with_id(teacher_id as int)),
        !app_state.db@.has_teacher(teacher_id as int) ==> r.status == 404 && (r.body
            matches ReplyBody::Error(b) && b@.error_msg == "Teacher id not found"@),
{
    reply_of(get_teacher_details_db(&app_state.db, teacher_id))
}

/// `POST /teachers`: creates a teacher and returns the stored record,
/// whose identifier the storage layer assigned — the caller never supplies
/// it, and it differs from every existing identifier.
pub fn post_new_teacher(app_state: &mut AppState, new_teacher: CreateTeacher) -> (r: HttpReply<
    Teacher,
>)
    requires
        old(app_state).db@.wf(),
    ensures
        final(app_state).db@.wf(),
        final(app_state).health_check_response@ == old(app_state).health_check_response@,
        final(app_state).visit_count == old(app_state).visit_count,
        final(app_state).db@.courses == old(app_state).db@.courses,
        final(app_state).db@.next_course_id == old(app_state).db@.next_course_id,
        final(app_state).db@.clock == old(app_state).db@.clock,
        old(app_state).db@.next_teacher_id < i32::MAX as int ==> {
            &&& r.status == 200
            &&& r.body matches ReplyBody::Json(t) && t@ == (TeacherView {
                id: old(app_state).db@.next_teacher_id,
                name: new_teacher@.name,
                picture_url: new_teacher@.picture_url,
                profile: new_teacher@.profile,
            })
            &&& final(app_state).db@.teachers == old(app_state).db@.teachers.push(
                TeacherView {
                    id: old(app_state).db@.next_teacher_id,
                    name: new_teacher@.name,
                    picture_url: new_teacher@.picture_url,
                    profile: new_teacher@.profile,
                },
            )
            &&& final(app_state).db@.next_teacher_id == old(app_state).db@.next_teacher_id + 1
            &&& forall|i: int|
                0 <= i < old(app_state).db@.teachers.len() ==> (#[trigger] old(app_state).db@.teachers[i]).id != old(app_state).db@.next_teacher_id
        },
        old(app_state).db@.next_teacher_id == i32::MAX as int ==> r.status == 500 && (r.body
            matches ReplyBody::Error(b) && b@.error_msg == "Database error"@) && final(app_state).db@ == old(app_state).db@,
{
    reply_of(post_new_teacher_db(&mut app_state.db, new_teacher))
}

/// `PUT /teachers/{id}`: merges the provided fields into the stored record
/// and returns the merged record, or 404 if the identifier is absent.
pub fn update_teacher_details(
    app_state: &mut AppState,
    teacher_id: i32,
    update_teacher: UpdateTeacher,
) -> (r: HttpReply<Teacher>)
    requires
        old(app_state).db@.wf(),
    ensures
        final(app_state).db@.wf(),
        final(app_state).health_check_response@ == old(app_state).health_check_response@,
        final(app_state).visit_count == old(app_state).visit_count,
        final(app_state).db@.courses == old(app_state).db@.courses,
        final(app_state).db@.next_teacher_id == old(app_state).db@.next_teacher_id,
        final(app_state).db@.next_course_id == old(app_state).db@.next_course_id,
        final(app_state).db@.clock == old(app_state).db@.clock,
        !old(app_state).db@.has_teacher(teacher_id as int) ==> r.status == 404 && (r.body
            matches ReplyBody::Error(b) && b@.error_msg == "Teacher id not found"@) && final(app_state).db@ == old(app_state).db@,
        old(app_state).db@.has_teacher(teacher_id as int) ==> {
            &&& r.status == 200
            &&& r.body matches ReplyBody::Json(t) && t@ == spec_merge_teacher(
                old(app_state).db@.teacher_with_id(teacher_id as int),
                update_teacher@,
            )
            &&& final(app_state).db@.teachers == old(app_state).db@.teachers.update(
                old(app_state).db@.teacher_ix(teacher_id as int),
                spec_merge_teacher(
                    old(app_state).db@.teacher_with_id(teacher_id as int),
                    update_teacher@,
                ),
            )
        },
{
    reply_of(update_teacher_details_db(&mut app_state.db, teacher_id, update_teacher))
}

/// `DELETE /teachers/{id}`: deletes the teacher and reports how many rows
/// were affected — an absent identifier yields 200 with a zero-row
/// message, not 404. A teacher still referenced by courses is refused by
/// the storage layer, reported as 500.
pub fn delete_teacher(app_state: &mut AppState, teacher_id: i32) -> (r: HttpReply<String>)
    requires
        old(app_state).db@.wf(),
    ensures
        final(app_state).db@.wf(),
        final(app_state).health_check_response@ == old(app_state).health_check_response@,
        final(app_state).visit_count == old(app_state).visit_count,
        final(app_state).db@.courses == old(app_state).db@.courses,
        final(app_state).db@.next_teacher_id == old(app_state).db@.next_teacher_id,
        final(app_state).db@.next_course_id == old(app_state).db@.next_course_id,
        final(app_state).db@.clock == old(app_state).db@.clock,
        !old(app_state).db@.has_teacher(teacher_id as int) ==> r.status == 200 && (r.body
            matches ReplyBody::Json(m) && m@ == spec_teacher_delete_report(0)) && final(app_state).db@ == old(app_state).db@,
        old(app_state).db@.has_teacher(teacher_id as int) && old(app_state).db@.teacher_has_courses(
            teacher_id as int,
        ) ==> r.status == 500 && (r.body matches ReplyBody::Error(b) && b@.error_msg
            == "Database error"@) && final(app_state).db@ == old(app_state).db@,
        old(app_state).db@.has_teacher(teacher_id as int)
            && !old(app_state).db@.teacher_has_courses(teacher_id as int) ==> r.status == 200 && (
        r.body matches ReplyBody::Json(m) && m@ == spec_teacher_delete_report(1)) && final(app_state).db@.teachers == old(app_state).db@.teachers.remove(
            old(app_state).db@.teacher_ix(teacher_id as int),
        ),
{
    reply_of(delete_teacher_db(&mut app_state.db, teacher_id))
}

} // verus!
