//! Tests of body validation, the two error taxonomies, the response
//! rendering, and the decimal rendering.

use teacher_service::decimal::u64_decimal;
use teacher_service::errors::{MyError, MyErrorResponse};
use teacher_service::models::course::{parse_create_course, CreateCourseForm};
use teacher_service::models::teacher::{parse_create_teacher, CreateTeacherForm};
use teacher_service::response::{reply_of, ReplyBody};
use teacher_service::web_errors;

fn empty_course_form() -> CreateCourseForm {
    CreateCourseForm {
        teacher_id: None,
        name: None,
        description: None,
        format: None,
        structure: None,
        duration: None,
        price: None,
        language: None,
        level: None,
    }
}

#[test]
fn course_body_missing_name_is_invalid_input() {
    let mut form = empty_course_form();
    form.teacher_id = Some(1);

    let parsed = parse_create_course(form);

    let err = match parsed {
        Err(e) => e,
        Ok(_) => panic!("a body without a name must be rejected"),
    };
    assert_eq!(err.status_code(), 400);
    assert_eq!(err.error_response(), "Please provide valid Json input");

    // Rendered through the response layer it is a 400 with the message.
    let reply = reply_of::<teacher_service::models::course::CreateCourse>(Err(err));
    assert_eq!(reply.status, 400);
    match reply.body {
        ReplyBody::Error(b) => assert_eq!(b.error_msg(), "Please provide valid Json input"),
        ReplyBody::Json(_) => panic!("expected an error body"),
    }
}

#[test]
fn course_body_missing_teacher_is_invalid_input() {
    let mut form = empty_course_form();
    form.name = Some("a name".to_string());

    assert!(parse_create_course(form).is_err());
}

#[test]
fn complete_course_body_parses() {
    let mut form = empty_course_form();
    form.teacher_id = Some(3);
    form.name = Some("a name".to_string());
    form.language = Some("Chinese".to_string());

    let parsed = parse_create_course(form);

    match parsed {
        Ok(c) => {
            assert_eq!(c.teacher_id, 3);
            assert_eq!(c.name, "a name");
            assert_eq!(c.language, Some("Chinese".to_string()));
            assert_eq!(c.description, None);
        },
        Err(_) => panic!("a complete body must parse"),
    }
}

#[test]
fn teacher_body_missing_field_is_invalid_input() {
    let form = CreateTeacherForm {
        name: Some("A".to_string()),
        picture_url: None,
        profile: Some("p".to_string()),
    };

    let parsed = parse_create_teacher(form);

    let err = match parsed {
        Err(e) => e,
        Ok(_) => panic!("an incomplete body must be rejected"),
    };
    assert_eq!(err.status_code(), 400);
    assert_eq!(err.error_response(), "Please provide valid Json input");
}

#[test]
fn complete_teacher_body_parses() {
    let form = CreateTeacherForm {
        name: Some("A".to_string()),
        picture_url: Some("u".to_string()),
        profile: Some("p".to_string()),
    };

    let parsed = parse_create_teacher(form);

    match parsed {
        Ok(t) => {
            assert_eq!(t.name, "A");
            assert_eq!(t.picture_url, "u");
            assert_eq!(t.profile, "p");
        },
        Err(_) => panic!("a complete body must parse"),
    }
}

#[test]
fn error_kinds_map_to_their_status_codes() {
    assert_eq!(MyError::DBError("detail".to_string()).status_code(), 500);
    assert_eq!(MyError::ActixError("detail".to_string()).status_code(), 500);
    assert_eq!(MyError::NotFound("missing".to_string()).status_code(), 404);
    assert_eq!(MyError::InvalidInput("bad".to_string()).status_code(), 400);
}

#[test]
fn internal_detail_is_never_echoed_to_the_client() {
    let db_err = MyError::from_database("SELECT failed on table teacher".to_string());
    assert_eq!(db_err.error_response(), "Database error");

    let fw_err = MyError::from_framework("worker panicked".to_string());
    assert_eq!(fw_err.error_response(), "Internal server error");
}

#[test]
fn client_visible_messages_pass_through() {
    assert_eq!(
        MyError::NotFound("Teacher id not found".to_string()).error_response(),
        "Teacher id not found"
    );
    assert_eq!(MyError::InvalidInput("bad field".to_string()).error_response(), "bad field");
}

#[test]
fn error_response_body_carries_the_client_message() {
    let body = MyErrorResponse::of_error(&MyError::NotFound("gone".to_string()));
    assert_eq!(body.error_msg(), "gone");

    let body = MyErrorResponse::of_error(&MyError::DBError("secret".to_string()));
    assert_eq!(body.error_msg(), "Database error");
}

#[test]
fn reply_of_success_is_200_with_the_value() {
    let reply = reply_of::<u32>(Ok(7));
    assert_eq!(reply.status, 200);
    match reply.body {
        ReplyBody::Json(v) => assert_eq!(v, 7),
        ReplyBody::Error(_) => panic!("expected the value"),
    }
}

#[test]
fn web_error_messages() {
    let err = web_errors::MyError::ActixError("detail".to_string());
    assert_eq!(err.error_response(), "Internal server error");

    let err = web_errors::MyError::NotFound("no such page".to_string());
    assert_eq!(err.error_response(), "no such page");

    let err = web_errors::MyError::TeraError("template broke".to_string());
    assert_eq!(err.error_response(), "template broke");

    let err = web_errors::MyError::from_framework("boom".to_string());
    let body = web_errors::MyErrorResponse::of_error(&err);
    assert_eq!(body.error_message(), "Internal server error");
}

#[test]
fn decimal_rendering_is_exact() {
    assert_eq!(u64_decimal(0), "0");
    assert_eq!(u64_decimal(7), "7");
    assert_eq!(u64_decimal(10), "10");
    assert_eq!(u64_decimal(123), "123");
    assert_eq!(u64_decimal(1000000), "1000000");
    assert_eq!(u64_decimal(u64::MAX), "18446744073709551615");
}
