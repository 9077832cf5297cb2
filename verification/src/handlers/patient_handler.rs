//! What the endpoints for patients decide, given what the store answered.

use crate::models::{
    replaced, text_view, CreatePatientRequest, Patient, PatientView, UpdatePatientRequest,
};
use crate::reply::{Answer, Reply, StoreFailure};
use vstd::prelude::*;

verus! {

/// What a client is told with the record of a patient that was registered.
pub const PATIENT_CREATED_MESSAGE: &'static str = "Patient created successfully";

/// What a client is told with the record of a patient that was changed.
pub const PATIENT_UPDATED_MESSAGE: &'static str = "Patient updated successfully";

/// The body of the answer where a patient was deleted.
pub const PATIENT_DELETED_BODY: &'static str = "{\"message\":\"Patient deleted successfully\"}";

/// The body of the answer where no patient has the id.
pub const PATIENT_NOT_FOUND_BODY: &'static str = "{\"error\":\"Patient not found\"}";

/// The bodies of the answers where the store failed.
pub const CREATE_PATIENT_FAILURE_BODY: &'static str = "{\"error\":\"Failed to create patient\"}";

pub const FETCH_PATIENTS_FAILURE_BODY: &'static str = "{\"error\":\"Failed to fetch patients\"}";

pub const FETCH_PATIENT_FAILURE_BODY: &'static str = "{\"error\":\"Failed to fetch patient\"}";

pub const UPDATE_PATIENT_FAILURE_BODY: &'static str = "{\"error\":\"Failed to update patient\"}";

pub const DELETE_PATIENT_FAILURE_BODY: &'static str = "{\"error\":\"Failed to delete patient\"}";

/// The record of a patient that is to be registered: under a fresh random
/// id, active, and dated as the request says or else as the system clock reads.
pub fn create_patient(data: CreatePatientRequest) -> (patient: Patient)
    ensures
        patient.name@ == data.name@,
        patient.email@ == data.email@,
        patient.phone_number@ == data.phone_number@,
        patient.description@ == data.description@,
        data.date matches Some(given) ==> patient.date == given,
        patient.active,
{
    Patient::new(data.name, data.email, data.phone_number, data.description, data.date)
}

/// The status of the answer once the store has been asked to hold a new
/// patient: 201 with the record, or the fixed answer to a failure.
pub fn create_patient_reply(stored: Result<(), StoreFailure>) -> (answer: Result<u16, Reply>)
    ensures
        stored is Ok ==> answer == Ok::<u16, Reply>(201),
        stored is Err ==> answer == Err::<u16, Reply>(
            (Reply { status: 500, body: CREATE_PATIENT_FAILURE_BODY }),
        ),
{
    match stored {
        Ok(_) => Ok(201),
        Err(_) => Err(Reply { status: 500, body: CREATE_PATIENT_FAILURE_BODY }),
    }
}

/// The patients to list, or the fixed answer where the store failed.
pub fn get_all_patients(
    stored: Result<Vec<Patient>, StoreFailure>,
) -> (answer: Answer<Vec<Patient>>)
    ensures
        stored matches Ok(patients) ==> answer == (Answer::Record { status: 200, record: patients }),
        stored is Err ==> answer == Answer::<Vec<Patient>>::Fixed(
            (Reply { status: 500, body: FETCH_PATIENTS_FAILURE_BODY }),
        ),
{
    match stored {
        Ok(patients) => Answer::Record { status: 200, record: patients },
        Err(_) => Answer::Fixed(Reply { status: 500, body: FETCH_PATIENTS_FAILURE_BODY }),
    }
}

/// The patient that the store found for an id, or the fixed answer where
/// it found none or failed.
pub fn get_patient_by_id(found: Result<Option<Patient>, StoreFailure>) -> (answer: Answer<Patient>)
    ensures
        found matches Ok(Some(patient)) ==> answer == (Answer::Record { status: 200, record: patient }),
        found matches Ok(None) ==> answer == Answer::<Patient>::Fixed(
            (Reply { status: 404, body: PATIENT_NOT_FOUND_BODY }),
        ),
        found is Err ==> answer == Answer::<Patient>::Fixed(
            (Reply { status: 500, body: FETCH_PATIENT_FAILURE_BODY }),
        ),
{
    match found {
        Ok(Some(patient)) => Answer::Record { status: 200, record: patient },
        Ok(None) => Answer::Fixed(Reply { status: 404, body: PATIENT_NOT_FOUND_BODY }),
        Err(_) => Answer::Fixed(Reply { status: 500, body: FETCH_PATIENT_FAILURE_BODY }),
    }
}

/// The changed record of the patient that the store found for an id, to
/// be stored; or the fixed answer where it found none or failed.
pub fn update_patient(
    found: Result<Option<Patient>, StoreFailure>,
    data: UpdatePatientRequest,
) -> (r: Result<Patient, Reply>)
    ensures
        found matches Ok(Some(patient)) ==> (r matches Ok(changed) && changed@ == (PatientView {
            id: patient@.id,
            name: replaced(patient@.name, text_view(data.name)),
            email: replaced(patient@.email, text_view(data.email)),
            phone_number: replaced(patient@.phone_number, text_view(data.phone_number)),
            description: replaced(patient@.description, text_view(data.description)),
            date: replaced(patient@.date, data.date),
            active: patient@.active,
        })),
        found matches Ok(None) ==> r == Err::<Patient, Reply>(
            (Reply { status: 404, body: PATIENT_NOT_FOUND_BODY }),
        ),
        found is Err ==> r == Err::<Patient, Reply>(
            (Reply { status: 500, body: FETCH_PATIENT_FAILURE_BODY }),
        ),
{
    match found {
        Ok(Some(patient)) => {
            let mut changed = patient;
            changed.update(data);
            Ok(changed)
        },
        Ok(None) => Err(Reply { status: 404, body: PATIENT_NOT_FOUND_BODY }),
        Err(_) => Err(Reply { status: 500, body: FETCH_PATIENT_FAILURE_BODY }),
    }
}

/// The status of the answer once the store has been asked to hold a changed
/// patient: 200 with the record where it wrote one, or the fixed answer
/// where there was none to write to or it failed.
pub fn update_patient_reply(written: Result<bool, StoreFailure>) -> (answer: Result<u16, Reply>)
    ensures
        written == Ok::<bool, StoreFailure>(true) ==> answer == Ok::<u16, Reply>(200),
        written == Ok::<bool, StoreFailure>(false) ==> answer == Err::<u16, Reply>(
            (Reply { status: 404, body: PATIENT_NOT_FOUND_BODY }),
        ),
        written is Err ==> answer == Err::<u16, Reply>(
            (Reply { status: 500, body: UPDATE_PATIENT_FAILURE_BODY }),
        ),
{
    match written {
        Ok(true) => Ok(200),
        Ok(false) => Err(Reply { status: 404, body: PATIENT_NOT_FOUND_BODY }),
        Err(_) => Err(Reply { status: 500, body: UPDATE_PATIENT_FAILURE_BODY }),
    }
}

/// The answer to a request to delete a patient: `deleted` says whether the
/// store had one to delete.
pub fn delete_patient(deleted: Result<bool, StoreFailure>) -> (reply: Reply)
    ensures
        deleted == Ok::<bool, StoreFailure>(true) ==> reply == (Reply {
            status: 200,
            body: PATIENT_DELETED_BODY,
        }),
        deleted == Ok::<bool, StoreFailure>(false) ==> reply == (Reply {
            status: 404,
            body: PATIENT_NOT_FOUND_BODY,
        }),
        deleted is Err ==> reply == (Reply { status: 500, body: DELETE_PATIENT_FAILURE_BODY }),
{
    match deleted {
        Ok(true) => Reply { status: 200, body: PATIENT_DELETED_BODY },
        Ok(false) => Reply { status: 404, body: PATIENT_NOT_FOUND_BODY },
        Err(_) => Reply { status: 500, body: DELETE_PATIENT_FAILURE_BODY },
    }
}

} // verus!
