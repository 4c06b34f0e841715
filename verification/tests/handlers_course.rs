//! Tests of the course handlers against a freshly seeded storage layer.

use teacher_service::handlers::course::{
    delete_course, get_course_detail, get_courses_for_teacher, post_new_course,
    update_course_detail,
};
use teacher_service::handlers::teacher::post_new_teacher;
use teacher_service::models::course::{CreateCourse, UpdateCourse};
use teacher_service::models::teacher::CreateTeacher;
use teacher_service::response::ReplyBody;
use teacher_service::state::AppState;
use teacher_service::storage::Db;

fn fresh_state() -> AppState {
    AppState::new("I'm OK.".to_string(), Db::new())
}

fn seed_teacher(state: &mut AppState) {
    let resp = post_new_teacher(
        state,
        CreateTeacher {
            name: "Owner".to_string(),
            picture_url: "https://example.com/owner".to_string(),
            profile: "profile".to_string(),
        },
    );
    assert_eq!(resp.status, 200);
}

fn plain_course(teacher_id: i32, name: &str) -> CreateCourse {
    CreateCourse {
        teacher_id,
        name: name.to_string(),
        description: None,
        format: None,
        structure: None,
        duration: None,
        price: None,
        language: None,
        level: None,
    }
}

#[test]
fn post_course_success() {
    let mut state = fresh_state();
    seed_teacher(&mut state);

    let new_course = CreateCourse {
        teacher_id: 1,
        name: "post new course from test function".into(),
        description: None,
        format: None,
        structure: None,
        duration: None,
        price: None,
        language: Some("Chinese".to_string()),
        level: Some("Medium".to_string()),
    };

    let resp = post_new_course(new_course, &mut state);

    assert_eq!(resp.status, 200);
}

#[test]
fn get_all_courses_success() {
    let mut state = fresh_state();
    seed_teacher(&mut state);

    let resp = get_courses_for_teacher(&state, 1);

    assert_eq!(resp.status, 200);
}

#[test]
fn get_course_detail_success() {
    let mut state = fresh_state();
    seed_teacher(&mut state);
    assert_eq!(post_new_course(plain_course(1, "first"), &mut state).status, 200);
    assert_eq!(post_new_course(plain_course(1, "second"), &mut state).status, 200);

    let resp = get_course_detail(&state, 1, 2);

    assert_eq!(resp.status, 200);
}

#[test]
fn delete_course_success() {
    let mut state = fresh_state();
    seed_teacher(&mut state);
    assert_eq!(post_new_course(plain_course(1, "first"), &mut state).status, 200);

    let resp = delete_course(&mut state, 1, 1);

    assert_eq!(resp.status, 200);
}

#[test]
fn update_course_success() {
    let mut state = fresh_state();
    seed_teacher(&mut state);
    assert_eq!(post_new_course(plain_course(1, "first"), &mut state).status, 200);
    assert_eq!(post_new_course(plain_course(1, "second"), &mut state).status, 200);

    let update_course = UpdateCourse {
        name: Some("Update Course".to_string()),
        description: Some("Update information".to_string()),
        format: None,
        structure: None,
        duration: None,
        price: None,
        language: None,
        level: None,
    };

    let resp = update_course_detail(&mut state, 1, 2, update_course);

    assert_eq!(resp.status, 200);
}

#[test]
fn teacher_without_courses_gets_empty_list_not_error() {
    let mut state = fresh_state();
    seed_teacher(&mut state);

    let resp = get_courses_for_teacher(&state, 1);

    assert_eq!(resp.status, 200);
    match resp.body {
        ReplyBody::Json(v) => assert!(v.is_empty()),
        ReplyBody::Error(_) => panic!("expected an empty list"),
    }
}

#[test]
fn created_course_carries_generated_id_and_timestamp() {
    let mut state = fresh_state();
    seed_teacher(&mut state);
    state.db.set_clock(42);

    let resp = post_new_course(plain_course(1, "stamped"), &mut state);

    assert_eq!(resp.status, 200);
    match resp.body {
        ReplyBody::Json(c) => {
            assert_eq!(c.id, 1);
            assert_eq!(c.teacher_id, 1);
            assert_eq!(c.name, "stamped");
            assert_eq!(c.time, Some(42));
        },
        ReplyBody::Error(_) => panic!("expected a created course"),
    }
}

#[test]
fn created_courses_get_distinct_generated_ids() {
    let mut state = fresh_state();
    seed_teacher(&mut state);

    let first = post_new_course(plain_course(1, "first"), &mut state);
    let second = post_new_course(plain_course(1, "second"), &mut state);

    match (first.body, second.body) {
        (ReplyBody::Json(a), ReplyBody::Json(b)) => assert_ne!(a.id, b.id),
        _ => panic!("expected two created courses"),
    }
}

#[test]
fn missing_course_is_not_found() {
    let mut state = fresh_state();
    seed_teacher(&mut state);

    let resp = get_course_detail(&state, 1, 99);

    assert_eq!(resp.status, 404);
    match resp.body {
        ReplyBody::Error(b) => assert_eq!(b.error_msg(), "Course ID not found"),
        ReplyBody::Json(_) => panic!("expected a not-found body"),
    }
}

#[test]
fn empty_update_keeps_course_unchanged() {
    let mut state = fresh_state();
    seed_teacher(&mut state);
    let mut created = plain_course(1, "initial");
    created.description = Some("desc".to_string());
    created.duration = Some(10);
    assert_eq!(post_new_course(created, &mut state).status, 200);

    let update = UpdateCourse {
        name: None,
        description: None,
        format: None,
        structure: None,
        duration: None,
        price: None,
        language: None,
        level: None,
    };
    let resp = update_course_detail(&mut state, 1, 1, update);

    assert_eq!(resp.status, 200);
    match resp.body {
        ReplyBody::Json(c) => {
            assert_eq!(c.name, "initial");
            assert_eq!(c.description, Some("desc".to_string()));
            assert_eq!(c.duration, Some(10));
            assert_eq!(c.price, None);
        },
        ReplyBody::Error(_) => panic!("expected the unchanged course"),
    }
}

#[test]
fn partial_course_update_changes_only_provided_fields() {
    let mut state = fresh_state();
    seed_teacher(&mut state);
    let mut created = plain_course(1, "initial");
    created.language = Some("Chinese".to_string());
    assert_eq!(post_new_course(created, &mut state).status, 200);

    let update = UpdateCourse {
        name: None,
        description: Some("new description".to_string()),
        format: None,
        structure: None,
        duration: None,
        price: Some(99),
        language: None,
        level: None,
    };
    let resp = update_course_detail(&mut state, 1, 1, update);

    assert_eq!(resp.status, 200);
    match resp.body {
        ReplyBody::Json(c) => {
            assert_eq!(c.name, "initial");
            assert_eq!(c.description, Some("new description".to_string()));
            assert_eq!(c.price, Some(99));
            assert_eq!(c.language, Some("Chinese".to_string()));
        },
        ReplyBody::Error(_) => panic!("expected the merged course"),
    }
}

#[test]
fn updating_missing_course_is_not_found() {
    let mut state = fresh_state();
    seed_teacher(&mut state);

    let update = UpdateCourse {
        name: Some("anything".to_string()),
        description: None,
        format: None,
        structure: None,
        duration: None,
        price: None,
        language: None,
        level: None,
    };
    let resp = update_course_detail(&mut state, 1, 5, update);

    assert_eq!(resp.status, 404);
    match resp.body {
        ReplyBody::Error(b) => assert_eq!(b.error_msg(), "Course ID not found"),
        ReplyBody::Json(_) => panic!("expected a not-found body"),
    }
}

#[test]
fn deleting_missing_course_reports_zero_rows() {
    let mut state = fresh_state();
    seed_teacher(&mut state);

    let resp = delete_course(&mut state, 1, 9);

    assert_eq!(resp.status, 200);
    match resp.body {
        ReplyBody::Json(m) => assert_eq!(m, "Deleted 0 record"),
        ReplyBody::Error(_) => panic!("expected a confirmation message"),
    }
}

#[test]
fn deleting_existing_course_reports_one_row() {
    let mut state = fresh_state();
    seed_teacher(&mut state);
    assert_eq!(post_new_course(plain_course(1, "doomed"), &mut state).status, 200);

    let resp = delete_course(&mut state, 1, 1);

    assert_eq!(resp.status, 200);
    match resp.body {
        ReplyBody::Json(m) => assert_eq!(m, "Deleted 1 record"),
        ReplyBody::Error(_) => panic!("expected a confirmation message"),
    }
    let resp = get_course_detail(&state, 1, 1);
    assert_eq!(resp.status, 404);
}

#[test]
fn course_for_missing_teacher_is_a_database_error() {
    let mut state = fresh_state();

    let resp = post_new_course(plain_course(99, "orphan"), &mut state);

    assert_eq!(resp.status, 500);
    match resp.body {
        ReplyBody::Error(b) => assert_eq!(b.error_msg(), "Database error"),
        ReplyBody::Json(_) => panic!("expected a database error"),
    }
}

#[test]
fn deleting_teacher_with_courses_is_a_database_error() {
    let mut state = fresh_state();
    seed_teacher(&mut state);
    assert_eq!(post_new_course(plain_course(1, "anchor"), &mut state).status, 200);

    let resp = teacher_service::handlers::teacher::delete_teacher(&mut state, 1);

    assert_eq!(resp.status, 500);
    match resp.body {
        ReplyBody::Error(b) => assert_eq!(b.error_msg(), "Database error"),
        ReplyBody::Json(_) => panic!("expected a database error"),
    }
}

#[test]
fn course_listing_preserves_stored_order_and_owner() {
    let mut state = fresh_state();
    seed_teacher(&mut state);
    seed_teacher_second(&mut state);
    assert_eq!(post_new_course(plain_course(1, "a"), &mut state).status, 200);
    assert_eq!(post_new_course(plain_course(2, "b"), &mut state).status, 200);
    assert_eq!(post_new_course(plain_course(1, "c"), &mut state).status, 200);

    let resp = get_courses_for_teacher(&state, 1);

    assert_eq!(resp.status, 200);
    match resp.body {
        ReplyBody::Json(v) => {
            assert_eq!(v.len(), 2);
            assert_eq!(v[0].name, "a");
            assert_eq!(v[1].name, "c");
            assert!(v.iter().all(|c| c.teacher_id == 1));
        },
        ReplyBody::Error(_) => panic!("expected a course list"),
    }
}

fn seed_teacher_second(state: &mut AppState) {
    let resp = post_new_teacher(
        state,
        CreateTeacher {
            name: "Second".to_string(),
            picture_url: "https://example.com/second".to_string(),
            profile: "profile".to_string(),
        },
    );
    assert_eq!(resp.status, 200);
}
