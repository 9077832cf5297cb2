//! The values that the authentication subsystem exchanges with its callers.

use crate::trusted::{current_time, new_uuid};
use vstd::prelude::*;

verus! {

/// A stored credential, as the credential store hands it over. The store owns
/// it; this crate reads it and never holds a plaintext password.
#[derive(Debug, Clone, PartialEq, Eq)]
pub struct User {
    pub id: String,
    pub email: String,
    pub password_hash: String,
    pub name: String,
    pub created_at: Timestamp,
}

/// The mathematical content of a [`User`].
pub struct UserView {
    pub id: Seq<char>,
    pub email: Seq<char>,
    pub password_hash: Seq<char>,
    pub name: Seq<char>,
    pub created_at: Timestamp,
}

impl View for User {
    type V = UserView;

    open spec fn view(&self) -> UserView {
        UserView {
            id: self.id@,
            email: self.email@,
            password_hash: self.password_hash@,
            name: self.name@,
            created_at: self.created_at,
        }
    }
}

/// What a client sends to log in.
#[derive(Debug, Clone, PartialEq, Eq)]
pub struct LoginRequest {
    pub email: String,
    pub password: String,
}

/// What a client gets back from a successful login.
#[derive(Debug, Clone, PartialEq, Eq)]
pub struct LoginResponse {
    pub token: String,
    pub user: UserInfo,
}

/// The mathematical content of a [`LoginResponse`].
pub struct LoginResponseView {
    pub token: Seq<char>,
    pub user: UserInfoView,
}

impl View for LoginResponse {
    type V = LoginResponseView;

    open spec fn view(&self) -> LoginResponseView {
        LoginResponseView { token: self.token@, user: self.user@ }
    }
}

/// The part of a credential that is shown to clients.
#[derive(Debug, Clone, PartialEq, Eq)]
pub struct UserInfo {
    pub id: String,
    pub email: String,
    pub name: String,
}

/// The mathematical content of a [`UserInfo`].
pub struct UserInfoView {
    pub id: Seq<char>,
    pub email: Seq<char>,
    pub name: Seq<char>,
}

impl View for UserInfo {
    type V = UserInfoView;

    open spec fn view(&self) -> UserInfoView {
        UserInfoView { id: self.id@, email: self.email@, name: self.name@ }
    }
}

impl UserInfo {
    /// The client-visible part of a credential.
    pub open spec fn of(user: UserView) -> UserInfoView {
        UserInfoView { id: user.id, email: user.email, name: user.name }
    }
}

impl vstd::std_specs::convert::FromSpecImpl<User> for UserInfo {
    open spec fn obeys_from_spec() -> bool {
        true
    }

    open spec fn from_spec(user: User) -> UserInfo {
        UserInfo { id: user.id, email: user.email, name: user.name }
    }
}

impl From<User> for UserInfo {
    fn from(user: User) -> (info: UserInfo) {
        UserInfo { id: user.id, email: user.email, name: user.name }
    }
}

/// What a client sends to have a credential created.
#[derive(Debug, Clone, PartialEq, Eq)]
pub struct CreateUserRequest {
    pub email: String,
    pub password: String,
    pub name: String,
}

/// What a client sends to have a credential's email or name changed. A
/// field that is absent stays as it is.
#[derive(Debug, Clone, PartialEq, Eq)]
pub struct UpdateUserRequest {
    pub email: Option<String>,
    pub name: Option<String>,
}

/// What a client sends to have a password changed.
#[derive(Debug, Clone, PartialEq, Eq)]
pub struct ChangePasswordRequest {
    pub current_password: String,
    pub new_password: String,
}

/// The identity and validity that a token carries in its signed payload.
#[derive(Debug, Clone, PartialEq, Eq)]
pub struct Claims {
    /// The credential's id.
    pub sub: String,
    pub email: String,
    /// Expiry, in seconds since the Unix epoch.
    pub exp: u64,
    /// Time of issue, in seconds since the Unix epoch.
    pub iat: u64,
}

/// The mathematical content of [`Claims`].
pub struct ClaimsView {
    pub sub: Seq<char>,
    pub email: Seq<char>,
    pub exp: nat,
    pub iat: nat,
}

impl View for Claims {
    type V = ClaimsView;

    open spec fn view(&self) -> ClaimsView {
        ClaimsView { sub: self.sub@, email: self.email@, exp: self.exp as nat, iat: self.iat as nat }
    }
}

/// What a client sends to report an issue.
#[derive(Debug, Clone, PartialEq, Eq)]
pub struct CreateIssueRequest {
    pub title: String,
    pub description: String,
    /// `bug`, `feature` or `enhancement`.
    pub issue_type: String,
    /// `low`, `medium` or `high`.
    pub priority: String,
}

/// What is sent to the issue tracker to open an issue.
#[derive(Debug, Clone, PartialEq, Eq)]
pub struct GitHubIssueRequest {
    pub title: String,
    pub body: String,
    pub labels: Vec<String>,
}

/// What the issue tracker answers when an issue was opened.
#[derive(Debug, Clone, PartialEq, Eq)]
pub struct GitHubIssueResponse {
    pub id: u64,
    pub number: u32,
    pub title: String,
    pub body: Option<String>,
    pub html_url: String,
    pub state: String,
    pub labels: Vec<GitHubLabel>,
}

/// A label of an issue, as the issue tracker reports it.
#[derive(Debug, Clone, PartialEq, Eq)]
pub struct GitHubLabel {
    pub id: u64,
    pub name: String,
    pub color: String,
}

/// What a client gets back when its issue was opened.
#[derive(Debug, Clone, PartialEq, Eq)]
pub struct CreateIssueResponse {
    pub success: bool,
    pub message: String,
    pub html_url: Option<String>,
    pub issue_number: Option<u32>,
}

/// An instant: seconds since the Unix epoch and the nanoseconds into that second.
#[derive(Debug, Clone, Copy, PartialEq, Eq, Structural)]
pub struct Timestamp {
    pub seconds: i64,
    pub nanos: u32,
}

/// A patient's record.
#[derive(Debug, Clone, PartialEq, Eq)]
pub struct Patient {
    pub id: String,
    pub name: String,
    pub email: String,
    pub phone_number: String,
    pub description: String,
    /// The date of registration.
    pub date: Timestamp,
    pub active: bool,
}

/// The mathematical content of a [`Patient`].
pub struct PatientView {
    pub id: Seq<char>,
    pub name: Seq<char>,
    pub email: Seq<char>,
    pub phone_number: Seq<char>,
    pub description: Seq<char>,
    pub date: Timestamp,
    pub active: bool,
}

impl View for Patient {
    type V = PatientView;

    open spec fn view(&self) -> PatientView {
        PatientView {
            id: self.id@,
            name: self.name@,
            email: self.email@,
            phone_number: self.phone_number@,
            description: self.description@,
            date: self.date,
            active: self.active,
        }
    }
}

/// What a client sends to have a patient registered.
#[derive(Debug, Clone, PartialEq, Eq)]
pub struct CreatePatientRequest {
    pub name: String,
    pub email: String,
    pub phone_number: String,
    pub description: String,
    /// The date of registration; the present where there is none.
    pub date: Option<Timestamp>,
}

/// What a client sends to have a patient's record changed. A field that is
/// absent stays as it is.
#[derive(Debug, Clone, PartialEq, Eq)]
pub struct UpdatePatientRequest {
    pub name: Option<String>,
    pub email: Option<String>,
    pub phone_number: Option<String>,
    pub description: Option<String>,
    pub date: Option<Timestamp>,
}

/// The view of an optional text.
pub open spec fn text_view(text: Option<String>) -> Option<Seq<char>> {
    match text {
        Some(text) => Some(text@),
        None => None,
    }
}

/// The new value of a field where the request has one, the old one where not.
pub open spec fn replaced<T>(old: T, new: Option<T>) -> T {
    match new {
        Some(value) => value,
        None => old,
    }
}

impl Patient {
    /// A new, active patient with the given id. `now` is the date of
    /// registration where `date` is absent.
    pub fn with_id(
        id: String,
        name: String,
        email: String,
        phone_number: String,
        description: String,
        date: Option<Timestamp>,
        now: Timestamp,
    ) -> (patient: Patient)
        ensures
            patient@ == (PatientView {
                id: id@,
                name: name@,
                email: email@,
                phone_number: phone_number@,
                description: description@,
                date: replaced(now, date),
                active: true,
            }),
    {
        let date = match date {
            Some(date) => date,
            None => now,
        };
        Patient { id, name, email, phone_number, description, date, active: true }
    }

    /// A new, active patient under a fresh random id. The date of
    /// registration is the one given, or else the system clock's present
    /// reading, whatever that is.
    pub fn new(
        name: String,
        email: String,
        phone_number: String,
        description: String,
        date: Option<Timestamp>,
    ) -> (patient: Patient)
        ensures
            patient.name@ == name@,
            patient.email@ == email@,
            patient.phone_number@ == phone_number@,
            patient.description@ == description@,
            date matches Some(given) ==> patient.date == given,
            patient.active,
    {
        Patient::with_id(new_uuid(), name, email, phone_number, description, date, current_time())
    }

    /// Overwrites the fields that the request has; the id and the activity stay.
    pub fn update(&mut self, update_req: UpdatePatientRequest)
        ensures
            final(self)@ == (PatientView {
                id: old(self)@.id,
                name: replaced(old(self)@.name, text_view(update_req.name)),
                email: replaced(old(self)@.email, text_view(update_req.email)),
                phone_number: replaced(old(self)@.phone_number, text_view(update_req.phone_number)),
                description: replaced(old(self)@.description, text_view(update_req.description)),
                date: replaced(old(self)@.date, update_req.date),
                active: old(self)@.active,
            }),
    {
        if let Some(name) = update_req.name {
            self.name = name;
        }
        if let Some(email) = update_req.email {
            self.email = email;
        }
        if let Some(phone_number) = update_req.phone_number {
            self.phone_number = phone_number;
        }
        if let Some(description) = update_req.description {
            self.description = description;
        }
        if let Some(date) = update_req.date {
            self.date = date;
        }
    }
}

/// One treatment of a patient.
#[derive(Debug, Clone, PartialEq, Eq)]
pub struct Treatment {
    pub id: String,
    pub patient_id: String,
    pub summary: String,
    pub date: Timestamp,
}

/// The mathematical content of a [`Treatment`].
pub struct TreatmentView {
    pub id: Seq<char>,
    pub patient_id: Seq<char>,
    pub summary: Seq<char>,
    pub date: Timestamp,
}

impl View for Treatment {
    type V = TreatmentView;

    open spec fn view(&self) -> TreatmentView {
        TreatmentView { id: self.id@, patient_id: self.patient_id@, summary: self.summary@, date: self.date }
    }
}

/// What a client sends to have a treatment recorded.
#[derive(Debug, Clone, PartialEq, Eq)]
pub struct CreateTreatmentRequest {
    pub summary: String,
    /// The date of the treatment; the present where there is none.
    pub date: Option<Timestamp>,
}

/// What a client sends to have a treatment's record changed. A field that
/// is absent stays as it is.
#[derive(Debug, Clone, PartialEq, Eq)]
pub struct UpdateTreatmentRequest {
    pub summary: Option<String>,
    pub date: Option<Timestamp>,
}

impl Treatment {
    /// A new treatment of the patient with the given id. `now` is its date
    /// where `date` is absent.
    pub fn with_id(
        id: String,
        patient_id: String,
        summary: String,
        date: Option<Timestamp>,
        now: Timestamp,
    ) -> (treatment: Treatment)
        ensures
            treatment@ == (TreatmentView {
                id: id@,
                patient_id: patient_id@,
                summary: summary@,
                date: replaced(now, date),
            }),
    {
        let date = match date {
            Some(date) => date,
            None => now,
        };
        Treatment { id, patient_id, summary, date }
    }

    /// A new treatment of the patient under a fresh random id. Its date is
    /// the one given, or else the system clock's present reading, whatever
    /// that is.
    pub fn new(
        patient_id: String,
        summary: String,
        date: Option<Timestamp>,
    ) -> (treatment: Treatment)
        ensures
            treatment.patient_id@ == patient_id@,
            treatment.summary@ == summary@,
            date matches Some(given) ==> treatment.date == given,
    {
        Treatment::with_id(new_uuid(), patient_id, summary, date, current_time())
    }

    /// Overwrites the fields that the request has; the ids stay.
    pub fn update(&mut self, update_req: UpdateTreatmentRequest)
        ensures
            final(self)@ == (TreatmentView {
                id: old(self)@.id,
                patient_id: old(self)@.patient_id,
                summary: replaced(old(self)@.summary, text_view(update_req.summary)),
                date: replaced(old(self)@.date, update_req.date),
            }),
    {
        if let Some(summary) = update_req.summary {
            self.summary = summary;
        }
        if let Some(date) = update_req.date {
            self.date = date;
        }
    }
}

} // verus!
