//! Tests of the teacher handlers against a freshly seeded storage layer.

use teacher_service::handlers::teacher::{
    delete_teacher, get_all_teachers, get_teacher_details, post_new_teacher,
    update_teacher_details,
};
use teacher_service::models::teacher::{CreateTeacher, UpdateTeacher};
use teacher_service::response::ReplyBody;
use teacher_service::state::AppState;
use teacher_service::storage::Db;

fn fresh_state() -> AppState {
    AppState::new("I'm OK.".to_string(), Db::new())
}

fn seed_teachers(state: &mut AppState, count: usize) {
    for i in 0..count {
        let resp = post_new_teacher(
            state,
            CreateTeacher {
                name: format!("Teacher {}", i + 1),
                picture_url: format!("https://example.com/{}", i + 1),
                profile: "profile".to_string(),
            },
        );
        assert_eq!(resp.status, 200);
    }
}

#[test]
fn post_new_teacher_success() {
    let mut state = fresh_state();
    let teacher = CreateTeacher {
        name: "Han Siyuan".to_string(),
        picture_url: "https://onederive.com/Haydn.Kong".to_string(),
        profile: "rich".to_string(),
    };

    let resp = post_new_teacher(&mut state, teacher);

    assert_eq!(resp.status, 200);
}

#[test]
fn get_all_teachers_success() {
    let mut state = fresh_state();
    seed_teachers(&mut state, 1);

    let resp = get_all_teachers(&state);

    assert_eq!(resp.status, 200);
}

#[test]
fn get_teacher_detail_success() {
    let mut state = fresh_state();
    seed_teachers(&mut state, 3);

    let resp = get_teacher_details(&state, 3);

    assert_eq!(resp.status, 200);
}

#[test]
fn update_teacher_details_success() {
    let mut state = fresh_state();
    seed_teachers(&mut state, 2);
    let teacher = UpdateTeacher {
        name: Some("Haydn Kong".to_string()),
        picture_url: Some("https://onederive.com/Haydn.Kong".to_string()),
        profile: Some("rich".to_string()),
    };

    let resp = update_teacher_details(&mut state, 2, teacher);

    assert_eq!(resp.status, 200);
}

#[test]
fn delete_teacher_success() {
    let mut state = fresh_state();
    seed_teachers(&mut state, 6);

    let resp = delete_teacher(&mut state, 6);

    assert_eq!(resp.status, 200);
}

#[test]
fn created_teacher_carries_submitted_fields_and_generated_id() {
    let mut state = fresh_state();
    let resp = post_new_teacher(
        &mut state,
        CreateTeacher {
            name: "A".to_string(),
            picture_url: "u".to_string(),
            profile: "p".to_string(),
        },
    );

    assert_eq!(resp.status, 200);
    match resp.body {
        ReplyBody::Json(t) => {
            assert_eq!(t.id, 1);
            assert_eq!(t.name, "A");
            assert_eq!(t.picture_url, "u");
            assert_eq!(t.profile, "p");
        },
        ReplyBody::Error(_) => panic!("expected a created teacher"),
    }
}

#[test]
fn created_teachers_get_distinct_generated_ids() {
    let mut state = fresh_state();
    seed_teachers(&mut state, 2);

    let first = get_teacher_details(&state, 1);
    let second = get_teacher_details(&state, 2);
    assert_eq!(first.status, 200);
    assert_eq!(second.status, 200);
    match (first.body, second.body) {
        (ReplyBody::Json(a), ReplyBody::Json(b)) => {
            assert_ne!(a.id, b.id);
        },
        _ => panic!("expected two teachers"),
    }
}

#[test]
fn empty_update_keeps_teacher_unchanged() {
    let mut state = fresh_state();
    // Teacher 5 exists, with name "X".
    seed_teachers(&mut state, 4);
    let resp = post_new_teacher(
        &mut state,
        CreateTeacher {
            name: "X".to_string(),
            picture_url: "pic".to_string(),
            profile: "prof".to_string(),
        },
    );
    assert_eq!(resp.status, 200);

    let update = UpdateTeacher { name: None, picture_url: None, profile: None };
    let resp = update_teacher_details(&mut state, 5, update);

    assert_eq!(resp.status, 200);
    match resp.body {
        ReplyBody::Json(t) => {
            assert_eq!(t.id, 5);
            assert_eq!(t.name, "X");
            assert_eq!(t.picture_url, "pic");
            assert_eq!(t.profile, "prof");
        },
        ReplyBody::Error(_) => panic!("expected the unchanged teacher"),
    }
}

#[test]
fn partial_teacher_update_changes_only_provided_fields() {
    let mut state = fresh_state();
    seed_teachers(&mut state, 1);

    let update = UpdateTeacher {
        name: Some("Renamed".to_string()),
        picture_url: None,
        profile: None,
    };
    let resp = update_teacher_details(&mut state, 1, update);

    assert_eq!(resp.status, 200);
    match resp.body {
        ReplyBody::Json(t) => {
            assert_eq!(t.name, "Renamed");
            assert_eq!(t.picture_url, "https://example.com/1");
            assert_eq!(t.profile, "profile");
        },
        ReplyBody::Error(_) => panic!("expected the merged teacher"),
    }
}

#[test]
fn listing_no_teachers_is_not_found() {
    let state = fresh_state();

    let resp = get_all_teachers(&state);

    assert_eq!(resp.status, 404);
    match resp.body {
        ReplyBody::Error(b) => assert_eq!(b.error_msg(), "No teachers found"),
        ReplyBody::Json(_) => panic!("expected a not-found body"),
    }
}

#[test]
fn missing_teacher_is_not_found() {
    let mut state = fresh_state();
    seed_teachers(&mut state, 1);

    let resp = get_teacher_details(&state, 42);

    assert_eq!(resp.status, 404);
    match resp.body {
        ReplyBody::Error(b) => assert_eq!(b.error_msg(), "Teacher id not found"),
        ReplyBody::Json(_) => panic!("expected a not-found body"),
    }
}

#[test]
fn updating_missing_teacher_is_not_found() {
    let mut state = fresh_state();

    let update = UpdateTeacher { name: None, picture_url: None, profile: None };
    let resp = update_teacher_details(&mut state, 7, update);

    assert_eq!(resp.status, 404);
    match resp.body {
        ReplyBody::Error(b) => assert_eq!(b.error_msg(), "Teacher id not found"),
        ReplyBody::Json(_) => panic!("expected a not-found body"),
    }
}

#[test]
fn deleting_missing_teacher_reports_zero_rows() {
    let mut state = fresh_state();

    let resp = delete_teacher(&mut state, 999);

    assert_eq!(resp.status, 200);
    match resp.body {
        ReplyBody::Json(m) => assert_eq!(m, "Delete 0 record"),
        ReplyBody::Error(_) => panic!("expected a confirmation message"),
    }
}

#[test]
fn deleting_existing_teacher_reports_one_row() {
    let mut state = fresh_state();
    seed_teachers(&mut state, 1);

    let resp = delete_teacher(&mut state, 1);

    assert_eq!(resp.status, 200);
    match resp.body {
        ReplyBody::Json(m) => assert_eq!(m, "Delete 1 record"),
        ReplyBody::Error(_) => panic!("expected a confirmation message"),
    }
    let resp = get_teacher_details(&state, 1);
    assert_eq!(resp.status, 404);
}

#[test]
fn exhausted_id_space_is_a_database_error() {
    let db = Db {
        teachers: vec![],
        courses: vec![],
        next_teacher_id: i32::MAX,
        next_course_id: 1,
        clock: 0,
    };
    let mut state = AppState::new("I'm OK.".to_string(), db);

    let resp = post_new_teacher(
        &mut state,
        CreateTeacher {
            name: "A".to_string(),
            picture_url: "u".to_string(),
            profile: "p".to_string(),
        },
    );

    assert_eq!(resp.status, 500);
    match resp.body {
        ReplyBody::Error(b) => assert_eq!(b.error_msg(), "Database error"),
        ReplyBody::Json(_) => panic!("expected a database error"),
    }
}
