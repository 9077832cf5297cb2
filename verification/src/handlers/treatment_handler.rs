//! What the endpoints for treatments decide, given what the store answered.
//! A treatment is reached through its patient: one that belongs to another
//! patient is treated as not found.

use crate::models::{
    replaced, text_view, CreateTreatmentRequest, Treatment, TreatmentView, UpdateTreatmentRequest,
};
use crate::reply::{Answer, Reply, StoreFailure};
use crate::text::str_eq;
use vstd::prelude::*;

verus! {

/// The bodies of the answers where something was not found.
pub const PATIENT_MISSING_BODY: &'static str = "\"Patient not found\"";

pub const TREATMENT_NOT_FOUND_BODY: &'static str = "\"Treatment not found\"";

pub const NOT_THIS_PATIENT_BODY: &'static str = "\"Treatment not found for this patient\"";

/// The bodies of the answers where the store failed.
pub const CHECK_PATIENT_FAILURE_BODY: &'static str = "\"Failed to check patient\"";

pub const CREATE_TREATMENT_FAILURE_BODY: &'static str = "\"Failed to create treatment\"";

pub const FETCH_TREATMENTS_FAILURE_BODY: &'static str = "\"Failed to fetch treatments\"";

pub const FETCH_TREATMENT_FAILURE_BODY: &'static str = "\"Failed to fetch treatment\"";

pub const UPDATE_TREATMENT_FAILURE_BODY: &'static str = "\"Failed to update treatment\"";

pub const DELETE_TREATMENT_FAILURE_BODY: &'static str = "\"Failed to delete treatment\"";

/// The record of a treatment that is to be stored for a patient: under a
/// fresh random id and dated as the request says or else as the system
/// clock reads. `patient_exists` is the store's word on the patient.
pub fn create_treatment(
    patient_exists: Result<bool, StoreFailure>,
    patient_id: String,
    body: CreateTreatmentRequest,
) -> (r: Result<Treatment, Reply>)
    ensures
        patient_exists == Ok::<bool, StoreFailure>(true) ==> (r matches Ok(treatment) && treatment.patient_id@
            == patient_id@ && treatment.summary@ == body.summary@ && (body.date matches Some(given)
            ==> treatment.date == given)),
        patient_exists == Ok::<bool, StoreFailure>(false) ==> r == Err::<Treatment, Reply>(
            (Reply { status: 404, body: PATIENT_MISSING_BODY }),
        ),
        patient_exists is Err ==> r == Err::<Treatment, Reply>(
            (Reply { status: 500, body: CHECK_PATIENT_FAILURE_BODY }),
        ),
{
    match patient_exists {
        Ok(true) => Ok(Treatment::new(patient_id, body.summary, body.date)),
        Ok(false) => Err(Reply { status: 404, body: PATIENT_MISSING_BODY }),
        Err(_) => Err(Reply { status: 500, body: CHECK_PATIENT_FAILURE_BODY }),
    }
}

/// The status of the answer once the store has been asked to hold a new
/// treatment: 201 with the record, or the fixed answer to a failure.
pub fn create_treatment_reply(stored: Result<(), StoreFailure>) -> (answer: Result<u16, Reply>)
    ensures
        stored is Ok ==> answer == Ok::<u16, Reply>(201),
        stored is Err ==> answer == Err::<u16, Reply>(
            (Reply { status: 500, body: CREATE_TREATMENT_FAILURE_BODY }),
        ),
{
    match stored {
        Ok(_) => Ok(201),
        Err(_) => Err(Reply { status: 500, body: CREATE_TREATMENT_FAILURE_BODY }),
    }
}

/// The treatments of one patient to list, or the fixed answer where the store failed.
pub fn get_treatments_for_patient(
    stored: Result<Vec<Treatment>, StoreFailure>,
) -> (answer: Answer<Vec<Treatment>>)
    ensures
        stored matches Ok(treatments) ==> answer == (Answer::Record { status: 200, record: treatments }),
        stored is Err ==> answer == Answer::<Vec<Treatment>>::Fixed(
            (Reply { status: 500, body: FETCH_TREATMENTS_FAILURE_BODY }),
        ),
{
    match stored {
        Ok(treatments) => Answer::Record { status: 200, record: treatments },
        Err(_) => Answer::Fixed(Reply { status: 500, body: FETCH_TREATMENTS_FAILURE_BODY }),
    }
}

/// All treatments to list, or the fixed answer where the store failed.
pub fn get_all_treatments(
    stored: Result<Vec<Treatment>, StoreFailure>,
) -> (answer: Answer<Vec<Treatment>>)
    ensures
        stored matches Ok(treatments) ==> answer == (Answer::Record { status: 200, record: treatments }),
        stored is Err ==> answer == Answer::<Vec<Treatment>>::Fixed(
            (Reply { status: 500, body: FETCH_TREATMENTS_FAILURE_BODY }),
        ),
{
    match stored {
        Ok(treatments) => Answer::Record { status: 200, record: treatments },
        Err(_) => Answer::Fixed(Reply { status: 500, body: FETCH_TREATMENTS_FAILURE_BODY }),
    }
}

/// What looking up a treatment of a patient gives: the treatment where the
/// store found it and it belongs to the patient, else the fixed answer.
pub open spec fn treatment_of_patient(
    found: Result<Option<Treatment>, StoreFailure>,
    patient_id: Seq<char>,
) -> Result<Treatment, Reply> {
    match found {
        Err(_) => Err(Reply { status: 500, body: FETCH_TREATMENT_FAILURE_BODY }),
        Ok(None) => Err(Reply { status: 404, body: TREATMENT_NOT_FOUND_BODY }),
        Ok(Some(treatment)) => if treatment.patient_id@ == patient_id {
            Ok(treatment)
        } else {
            Err(Reply { status: 404, body: NOT_THIS_PATIENT_BODY })
        },
    }
}

/// The treatment that the store found for an id, where it belongs to the
/// patient; the fixed answer where it does not, where the store found none
/// and where it failed.
pub fn get_treatment_by_id(
    found: Result<Option<Treatment>, StoreFailure>,
    patient_id: &str,
) -> (r: Result<Treatment, Reply>)
    ensures
        r == treatment_of_patient(found, patient_id@),
{
    match found {
        Err(_) => Err(Reply { status: 500, body: FETCH_TREATMENT_FAILURE_BODY }),
        Ok(None) => Err(Reply { status: 404, body: TREATMENT_NOT_FOUND_BODY }),
        Ok(Some(treatment)) => if str_eq(treatment.patient_id.as_str(), patient_id) {
            Ok(treatment)
        } else {
            Err(Reply { status: 404, body: NOT_THIS_PATIENT_BODY })
        },
    }
}

/// The changed record of a patient's treatment, to be stored; or the fixed
/// answer where the treatment cannot be reached through the patient.
pub fn update_treatment(
    found: Result<Option<Treatment>, StoreFailure>,
    patient_id: &str,
    body: UpdateTreatmentRequest,
) -> (r: Result<Treatment, Reply>)
    ensures
        treatment_of_patient(found, patient_id@) matches Ok(treatment) ==> (r matches Ok(changed) && changed@
            == (TreatmentView {
            id: treatment@.id,
            patient_id: treatment@.patient_id,
            summary: replaced(treatment@.summary, text_view(body.summary)),
            date: replaced(treatment@.date, body.date),
        })),
        treatment_of_patient(found, patient_id@) matches Err(reply) ==> r == Err::<Treatment, Reply>(reply),
{
    match get_treatment_by_id(found, patient_id) {
        Ok(treatment) => {
            let mut changed = treatment;
            changed.update(body);
            Ok(changed)
        },
        Err(reply) => Err(reply),
    }
}

/// The status of the answer once the store has been asked to hold a changed
/// treatment: 200 with the record where it wrote one, or the fixed answer
/// where there was none to write to or it failed.
pub fn update_treatment_reply(written: Result<bool, StoreFailure>) -> (answer: Result<u16, Reply>)
    ensures
        written == Ok::<bool, StoreFailure>(true) ==> answer == Ok::<u16, Reply>(200),
        written == Ok::<bool, StoreFailure>(false) ==> answer == Err::<u16, Reply>(
            (Reply { status: 404, body: TREATMENT_NOT_FOUND_BODY }),
        ),
        written is Err ==> answer == Err::<u16, Reply>(
            (Reply { status: 500, body: UPDATE_TREATMENT_FAILURE_BODY }),
        ),
{
    match written {
        Ok(true) => Ok(200),
        Ok(false) => Err(Reply { status: 404, body: TREATMENT_NOT_FOUND_BODY }),
        Err(_) => Err(Reply { status: 500, body: UPDATE_TREATMENT_FAILURE_BODY }),
    }
}

/// The answer to a request to delete a treatment that was reached through
/// its patient: 204 and no body where the store deleted it.
pub fn delete_treatment(deleted: Result<bool, StoreFailure>) -> (answer: Result<u16, Reply>)
    ensures
        deleted == Ok::<bool, StoreFailure>(true) ==> answer == Ok::<u16, Reply>(204),
        deleted == Ok::<bool, StoreFailure>(false) ==> answer == Err::<u16, Reply>(
            (Reply { status: 404, body: TREATMENT_NOT_FOUND_BODY }),
        ),
        deleted is Err ==> answer == Err::<u16, Reply>(
            (Reply { status: 500, body: DELETE_TREATMENT_FAILURE_BODY }),
        ),
{
    match deleted {
        Ok(true) => Ok(204),
        Ok(false) => Err(Reply { status: 404, body: TREATMENT_NOT_FOUND_BODY }),
        Err(_) => Err(Reply { status: 500, body: DELETE_TREATMENT_FAILURE_BODY }),
    }
}

} // verus!
