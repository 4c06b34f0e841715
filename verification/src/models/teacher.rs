//! The Teacher entity and its create/update shapes.
//!
//! A teacher is a stored record whose identifier is assigned by the storage
//! layer. `CreateTeacher` omits the identifier; `UpdateTeacher` makes every
//! field optional, where an absent field means "leave unchanged".

use vstd::prelude::*;

use crate::errors::{MyError, MyErrorView};

verus! {

/// The value of an optional text field: the character sequence, if present.
pub open spec fn opt_str_view(o: Option<String>) -> Option<Seq<char>> {
    match o {
        Option::Some(s) => Option::Some(s@),
        Option::None => Option::None,
    }
}

/// The value of an optional 32-bit integer field.
pub open spec fn opt_i32_view(o: Option<i32>) -> Option<int> {
    match o {
        Option::Some(v) => Option::Some(v as int),
        Option::None => Option::None,
    }
}

/// The value of an optional 64-bit integer field.
pub open spec fn opt_i64_view(o: Option<i64>) -> Option<int> {
    match o {
        Option::Some(v) => Option::Some(v as int),
        Option::None => Option::None,
    }
}

/// Clones an optional text field, keeping its value.
pub fn clone_opt_string(o: &Option<String>) -> (r: Option<String>)
    ensures
        opt_str_view(r) == opt_str_view(*o),
{
    match o {
        Option::Some(s) => Option::Some(s.clone()),
        Option::None => Option::None,
    }
}

/// A stored teacher record. All fields are required on read.
#[derive(Debug)]
pub struct Teacher {
    pub id: i32,
    pub name: String,
    pub picture_url: String,
    pub profile: String,
}

/// The mathematical value of a [`Teacher`].
#[verifier::ext_equal]
pub struct TeacherView {
    pub id: int,
    pub name: Seq<char>,
    pub picture_url: Seq<char>,
    pub profile: Seq<char>,
}

impl View for Teacher {
    type V = TeacherView;

    open spec fn view(&self) -> TeacherView {
        TeacherView {
            id: self.id as int,
            name: self.name@,
            picture_url: self.picture_url@,
            profile: self.profile@,
        }
    }
}

impl Clone for Teacher {
    fn clone(&self) -> (r: Self)
        ensures
            r@ == self@,
    {
        Teacher {
            id: self.id,
            name: self.name.clone(),
            picture_url: self.picture_url.clone(),
            profile: self.profile.clone(),
        }
    }
}

/// The write-side shape for creating a teacher: every stored field except
/// the server-generated identifier, all required.
#[derive(Debug)]
pub struct CreateTeacher {
    pub name: String,
    pub picture_url: String,
    pub profile: String,
}

/// The mathematical value of a [`CreateTeacher`].
#[verifier::ext_equal]
pub struct CreateTeacherView {
    pub name: Seq<char>,
    pub picture_url: Seq<char>,
    pub profile: Seq<char>,
}

impl View for CreateTeacher {
    type V = CreateTeacherView;

    open spec fn view(&self) -> CreateTeacherView {
        CreateTeacherView {
            name: self.name@,
            picture_url: self.picture_url@,
            profile: self.profile@,
        }
    }
}

/// The partial-update shape for a teacher: a present field replaces the
/// stored value, an absent field retains it.
#[derive(Debug)]
pub struct UpdateTeacher {
    pub name: Option<String>,
    pub picture_url: Option<String>,
    pub profile: Option<String>,
}

/// The mathematical value of an [`UpdateTeacher`].
#[verifier::ext_equal]
pub struct UpdateTeacherView {
    pub name: Option<Seq<char>>,
    pub picture_url: Option<Seq<char>>,
    pub profile: Option<Seq<char>>,
}

impl View for UpdateTeacher {
    type V = UpdateTeacherView;

    open spec fn view(&self) -> UpdateTeacherView {
        UpdateTeacherView {
            name: opt_str_view(self.name),
            picture_url: opt_str_view(self.picture_url),
            profile: opt_str_view(self.profile),
        }
    }
}

/// The merge rule of a partial teacher update: each field is the provided
/// value if present, else the stored value; the identifier never changes.
pub open spec fn spec_merge_teacher(cur: TeacherView, upd: UpdateTeacherView) -> TeacherView {
    TeacherView {
        id: cur.id,
        name: match upd.name {
            Option::Some(n) => n,
            Option::None => cur.name,
        },
        picture_url: match upd.picture_url {
            Option::Some(p) => p,
            Option::None => cur.picture_url,
        },
        profile: match upd.profile {
            Option::Some(p) => p,
            Option::None => cur.profile,
        },
    }
}

/// Computes the merged record a partial update writes back.
pub fn merge_teacher(current: &Teacher, update: UpdateTeacher) -> (merged: Teacher)
    ensures
        merged@ == spec_merge_teacher(current@, update@),
{
    Teacher {
        id: current.id,
        name: match update.name {
            Option::Some(n) => n,
            Option::None => current.name.clone(),
        },
        picture_url: match update.picture_url {
            Option::Some(p) => p,
            Option::None => current.picture_url.clone(),
        },
        profile: match update.profile {
            Option::Some(p) => p,
            Option::None => current.profile.clone(),
        },
    }
}

/// Law: an update that provides no fields leaves the record unchanged.
pub proof fn lemma_empty_update_teacher(cur: TeacherView, upd: UpdateTeacherView)
    requires
        upd.name is None,
        upd.picture_url is None,
        upd.profile is None,
    ensures
        spec_merge_teacher(cur, upd) == cur,
{
    assert(spec_merge_teacher(cur, upd) =~= cur);
}

/// Law: a partial update changes exactly the provided fields; every other
/// field, and the identifier, keeps its prior stored value.
pub proof fn lemma_partial_update_teacher(cur: TeacherView, upd: UpdateTeacherView)
    ensures
        spec_merge_teacher(cur, upd).id == cur.id,
        upd.name is None ==> spec_merge_teacher(cur, upd).name == cur.name,
        upd.name matches Some(n) ==> spec_merge_teacher(cur, upd).name == n,
        upd.picture_url is None ==> spec_merge_teacher(cur, upd).picture_url == cur.picture_url,
        upd.picture_url matches Some(p) ==> spec_merge_teacher(cur, upd).picture_url == p,
        upd.profile is None ==> spec_merge_teacher(cur, upd).profile == cur.profile,
        upd.profile matches Some(p) ==> spec_merge_teacher(cur, upd).profile == p,
{
}

/// The wire shape of a teacher-creation request body, before the required
/// fields have been checked.
#[derive(Debug)]
pub struct CreateTeacherForm {
    pub name: Option<String>,
    pub picture_url: Option<String>,
    pub profile: Option<String>,
}

/// Checks a teacher-creation body for its required fields, as the JSON
/// decoding of the request does: every field of [`CreateTeacher`] must be
/// present, else the request is rejected as invalid input.
pub fn parse_create_teacher(form: CreateTeacherForm) -> (r: Result<CreateTeacher, MyError>)
    ensures
        (form.name is Some && form.picture_url is Some && form.profile is Some) ==> (
            r matches Ok(c) && c@ == (CreateTeacherView {
                name: form.name->0@,
                picture_url: form.picture_url->0@,
                profile: form.profile->0@,
            })
        ),
        !(form.name is Some && form.picture_url is Some && form.profile is Some) ==> (
            r matches Err(e) && e@ == MyErrorView::InvalidInput(
                "Please provide valid Json input"@,
            )
        ),
{
    match (form.name, form.picture_url, form.profile) {
        (Option::Some(name), Option::Some(picture_url), Option::Some(profile)) => Ok(
            CreateTeacher { name, picture_url, profile },
        ),
        _ => Err(MyError::invalid_json_input()),
    }
}

} // verus!
