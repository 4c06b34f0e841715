//! The Course entity and its create/update shapes.
//!
//! A course belongs to a teacher, has a required name, a creation timestamp
//! assigned by the storage layer, and a set of optional attributes.
//! `CreateCourse` omits the server-generated fields; `UpdateCourse` makes
//! every field optional, where an absent field means "leave unchanged".

use vstd::prelude::*;

use crate::errors::{MyError, MyErrorView};
use crate::models::teacher::{clone_opt_string, opt_i32_view, opt_i64_view, opt_str_view};

verus! {

/// A stored course record. The timestamp counts seconds since the epoch and
/// is assigned by the storage layer on insert.
#[derive(Debug)]
pub struct Course {
    pub teacher_id: i32,
    pub id: i32,
    pub name: String,
    pub time: Option<i64>,
    pub description: Option<String>,
    pub format: Option<String>,
    pub structure: Option<String>,
    pub duration: Option<i32>,
    pub price: Option<i32>,
    pub language: Option<String>,
    pub level: Option<String>,
}

/// The mathematical value of a [`Course`].
#[verifier::ext_equal]
pub struct CourseView {
    pub teacher_id: int,
    pub id: int,
    pub name: Seq<char>,
    pub time: Option<int>,
    pub description: Option<Seq<char>>,
    pub format: Option<Seq<char>>,
    pub structure: Option<Seq<char>>,
    pub duration: Option<int>,
    pub price: Option<int>,
    pub language: Option<Seq<char>>,
    pub level: Option<Seq<char>>,
}

impl View for Course {
    type V = CourseView;

    open spec fn view(&self) -> CourseView {
        CourseView {
            teacher_id: self.teacher_id as int,
            id: self.id as int,
            name: self.name@,
            time: opt_i64_view(self.time),
            description: opt_str_view(self.description),
            format: opt_str_view(self.format),
            structure: opt_str_view(self.structure),
            duration: opt_i32_view(self.duration),
            price: opt_i32_view(self.price),
            language: opt_str_view(self.language),
            level: opt_str_view(self.level),
        }
    }
}

impl Clone for Course {
    fn clone(&self) -> (r: Self)
        ensures
            r@ == self@,
    {
        Course {
            teacher_id: self.teacher_id,
            id: self.id,
            name: self.name.clone(),
            time: self.time,
            description: clone_opt_string(&self.description),
            format: clone_opt_string(&self.format),
            structure: clone_opt_string(&self.structure),
            duration: self.duration,
            price: self.price,
            language: clone_opt_string(&self.language),
            level: clone_opt_string(&self.level),
        }
    }
}

/// The write-side shape for creating a course: the owning teacher and the
/// required name, plus the optional attributes. The identifier and the
/// timestamp are assigned by the storage layer.
#[derive(Debug)]
pub struct CreateCourse {
    pub teacher_id: i32,
    pub name: String,
    pub description: Option<String>,
    pub format: Option<String>,
    pub structure: Option<String>,
    pub duration: Option<i32>,
    pub price: Option<i32>,
    pub language: Option<String>,
    pub level: Option<String>,
}

/// The mathematical value of a [`CreateCourse`].
#[verifier::ext_equal]
pub struct CreateCourseView {
    pub teacher_id: int,
    pub name: Seq<char>,
    pub description: Option<Seq<char>>,
    pub format: Option<Seq<char>>,
    pub structure: Option<Seq<char>>,
    pub duration: Option<int>,
    pub price: Option<int>,
    pub language: Option<Seq<char>>,
    pub level: Option<Seq<char>>,
}

impl View for CreateCourse {
    type V = CreateCourseView;

    open spec fn view(&self) -> CreateCourseView {
        CreateCourseView {
            teacher_id: self.teacher_id as int,
            name: self.name@,
            description: opt_str_view(self.description),
            format: opt_str_view(self.format),
            structure: opt_str_view(self.structure),
            duration: opt_i32_view(self.duration),
            price: opt_i32_view(self.price),
            language: opt_str_view(self.language),
            level: opt_str_view(self.level),
        }
    }
}

/// The partial-update shape for a course: a present field replaces the
/// stored value, an absent field retains it. The owning teacher, the
/// identifier and the timestamp cannot be updated.
#[derive(Debug)]
pub struct UpdateCourse {
    pub name: Option<String>,
    pub description: Option<String>,
    pub format: Option<String>,
    pub structure: Option<String>,
    pub duration: Option<i32>,
    pub price: Option<i32>,
    pub language: Option<String>,
    pub level: Option<String>,
}

/// The mathematical value of an [`UpdateCourse`].
#[verifier::ext_equal]
pub struct UpdateCourseView {
    pub name: Option<Seq<char>>,
    pub description: Option<Seq<char>>,
    pub format: Option<Seq<char>>,
    pub structure: Option<Seq<char>>,
    pub duration: Option<int>,
    pub price: Option<int>,
    pub language: Option<Seq<char>>,
    pub level: Option<Seq<char>>,
}

impl View for UpdateCourse {
    type V = UpdateCourseView;

    open spec fn view(&self) -> UpdateCourseView {
        UpdateCourseView {
            name: opt_str_view(self.name),
            description: opt_str_view(self.description),
            format: opt_str_view(self.format),
            structure: opt_str_view(self.structure),
            duration: opt_i32_view(self.duration),
            price: opt_i32_view(self.price),
            language: opt_str_view(self.language),
            level: opt_str_view(self.level),
        }
    }
}

/// The value an optional field has after a partial update: the provided
/// value if present, else the stored one.
pub open spec fn spec_keep_or<T>(provided: Option<T>, stored: T) -> T {
    match provided {
        Option::Some(v) => v,
        Option::None => stored,
    }
}

/// The merge rule of a partial course update: each updatable field is the
/// provided value if present, else the stored value; the identifiers and
/// the timestamp never change.
pub open spec fn spec_merge_course(cur: CourseView, upd: UpdateCourseView) -> CourseView {
    CourseView {
        teacher_id: cur.teacher_id,
        id: cur.id,
        name: spec_keep_or(upd.name, cur.name),
        time: cur.time,
        description: spec_keep_or_opt(upd.description, cur.description),
        format: spec_keep_or_opt(upd.format, cur.format),
        structure: spec_keep_or_opt(upd.structure, cur.structure),
        duration: spec_keep_or_opt(upd.duration, cur.duration),
        price: spec_keep_or_opt(upd.price, cur.price),
        language: spec_keep_or_opt(upd.language, cur.language),
        level: spec_keep_or_opt(upd.level, cur.level),
    }
}

/// The value an optional stored attribute has after a partial update: the
/// provided value if present, else the stored one (which may itself be
/// absent; an absent input never clears a stored value).
pub open spec fn spec_keep_or_opt<T>(provided: Option<T>, stored: Option<T>) -> Option<T> {
    match provided {
        Option::Some(v) => Option::Some(v),
        Option::None => stored,
    }
}

/// Computes the merged record a partial update writes back.
pub fn merge_course(current: &Course, update: UpdateCourse) -> (merged: Course)
    ensures
        merged@ == spec_merge_course(current@, update@),
{
    Course {
        teacher_id: current.teacher_id,
        id: current.id,
        name: match update.name {
            Option::Some(n) => n,
            Option::None => current.name.clone(),
        },
        time: current.time,
        description: match update.description {
            Option::Some(d) => Option::Some(d),
            Option::None => clone_opt_string(&current.description),
        },
        format: match update.format {
            Option::Some(f) => Option::Some(f),
            Option::None => clone_opt_string(&current.format),
        },
        structure: match update.structure {
            Option::Some(s) => Option::Some(s),
            Option::None => clone_opt_string(&current.structure),
        },
        duration: match update.duration {
            Option::Some(d) => Option::Some(d),
            Option::None => current.duration,
        },
        price: match update.price {
            Option::Some(p) => Option::Some(p),
            Option::None => current.price,
        },
        language: match update.language {
            Option::Some(l) => Option::Some(l),
            Option::None => clone_opt_string(&current.language),
        },
        level: match update.level {
            Option::Some(l) => Option::Some(l),
            Option::None => clone_opt_string(&current.level),
        },
    }
}

/// Law: an update that provides no fields leaves the record unchanged.
pub proof fn lemma_empty_update_course(cur: CourseView, upd: UpdateCourseView)
    requires
        upd.name is None,
        upd.description is None,
        upd.format is None,
        upd.structure is None,
        upd.duration is None,
        upd.price is None,
        upd.language is None,
        upd.level is None,
    ensures
        spec_merge_course(cur, upd) == cur,
{
    assert(spec_merge_course(cur, upd) =~= cur);
}

/// Law: a partial update changes exactly the provided fields; every other
/// field, the identifiers and the timestamp keep their prior stored values.
pub proof fn lemma_partial_update_course(cur: CourseView, upd: UpdateCourseView)
    ensures
        spec_merge_course(cur, upd).teacher_id == cur.teacher_id,
        spec_merge_course(cur, upd).id == cur.id,
        spec_merge_course(cur, upd).time == cur.time,
        upd.name is None ==> spec_merge_course(cur, upd).name == cur.name,
        upd.name matches Some(n) ==> spec_merge_course(cur, upd).name == n,
        upd.description is None ==> spec_merge_course(cur, upd).description == cur.description,
        upd.description matches Some(d) ==> spec_merge_course(cur, upd).description == Some(d),
        upd.format is None ==> spec_merge_course(cur, upd).format == cur.format,
        upd.format matches Some(f) ==> spec_merge_course(cur, upd).format == Some(f),
        upd.structure is None ==> spec_merge_course(cur, upd).structure == cur.structure,
        upd.structure matches Some(s) ==> spec_merge_course(cur, upd).structure == Some(s),
        upd.duration is None ==> spec_merge_course(cur, upd).duration == cur.duration,
        upd.duration matches Some(d) ==> spec_merge_course(cur, upd).duration == Some(d),
        upd.price is None ==> spec_merge_course(cur, upd).price == cur.price,
        upd.price matches Some(p) ==> spec_merge_course(cur, upd).price == Some(p),
        upd.language is None ==> spec_merge_course(cur, upd).language == cur.language,
        upd.language matches Some(l) ==> spec_merge_course(cur, upd).language == Some(l),
        upd.level is None ==> spec_merge_course(cur, upd).level == cur.level,
        upd.level matches Some(l) ==> spec_merge_course(cur, upd).level == Some(l),
{
}

/// The wire shape of a course-creation request body, before the required
/// fields have been checked.
#[derive(Debug)]
pub struct CreateCourseForm {
    pub teacher_id: Option<i32>,
    pub name: Option<String>,
    pub description: Option<String>,
    pub format: Option<String>,
    pub structure: Option<String>,
    pub duration: Option<i32>,
    pub price: Option<i32>,
    pub language: Option<String>,
    pub level: Option<String>,
}

/// Checks a course-creation body for its required fields, as the JSON
/// decoding of the request does: the owning teacher and the name must be
/// present, else the request is rejected as invalid input.
pub fn parse_create_course(form: CreateCourseForm) -> (r: Result<CreateCourse, MyError>)
    ensures
        (form.teacher_id is Some && form.name is Some) ==> (
            r matches Ok(c) && c@ == (CreateCourseView {
                teacher_id: form.teacher_id->0 as int,
                name: form.name->0@,
                description: opt_str_view(form.description),
                format: opt_str_view(form.format),
                structure: opt_str_view(form.structure),
                duration: opt_i32_view(form.duration),
                price: opt_i32_view(form.price),
                language: opt_str_view(form.language),
                level: opt_str_view(form.level),
            })
        ),
        !(form.teacher_id is Some && form.name is Some) ==> (
            r matches Err(e) && e@ == MyErrorView::InvalidInput(
                "Please provide valid Json input"@,
            )
        ),
{
    match (form.teacher_id, form.name) {
        (Option::Some(teacher_id), Option::Some(name)) => Ok(
            CreateCourse {
                teacher_id,
                name,
                description: form.description,
                format: form.format,
                structure: form.structure,
                duration: form.duration,
                price: form.price,
                language: form.language,
                level: form.level,
            },
        ),
        _ => Err(MyError::invalid_json_input()),
    }
}

} // verus!
