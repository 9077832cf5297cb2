use treatment_manager::handlers::patient_handler::{
    create_patient, create_patient_reply, delete_patient, get_all_patients, get_patient_by_id, update_patient,
    update_patient_reply, PATIENT_CREATED_MESSAGE, PATIENT_UPDATED_MESSAGE,
};
use treatment_manager::handlers::treatment_handler::{
    create_treatment, create_treatment_reply, delete_treatment, get_all_treatments, get_treatment_by_id,
    get_treatments_for_patient, update_treatment, update_treatment_reply,
};
use treatment_manager::models::{
    CreatePatientRequest, CreateTreatmentRequest, Patient, Timestamp, Treatment, UpdatePatientRequest,
    UpdateTreatmentRequest,
};
use treatment_manager::reply::{Answer, Reply, StoreFailure};

fn at(seconds: i64) -> Timestamp {
    Timestamp { seconds, nanos: 0 }
}

fn reply(status: u16, body: &'static str) -> Reply {
    Reply { status, body }
}

fn patient() -> Patient {
    Patient {
        id: "p-1".to_string(),
        name: "Dana".to_string(),
        email: "d@x.com".to_string(),
        phone_number: "050".to_string(),
        description: "".to_string(),
        date: at(5),
        active: false,
    }
}

fn treatment() -> Treatment {
    Treatment { id: "t-1".to_string(), patient_id: "p-1".to_string(), summary: "Massage".to_string(), date: at(5) }
}

#[test]
fn registering_a_patient() {
    let created = create_patient(CreatePatientRequest {
        name: "Dana".to_string(),
        email: "d@x.com".to_string(),
        phone_number: "050".to_string(),
        description: "first visit".to_string(),
        date: Some(at(11)),
    });
    assert_eq!(created.id.len(), 36);
    assert_eq!(created.name, "Dana");
    assert_eq!(created.email, "d@x.com");
    assert_eq!(created.phone_number, "050");
    assert_eq!(created.description, "first visit");
    assert_eq!(created.date, at(11));
    assert!(created.active);
    assert_eq!(create_patient_reply(Ok(())), Ok(201));
    assert_eq!(create_patient_reply(Err(StoreFailure)), Err(reply(500, "{\"error\":\"Failed to create patient\"}")));
    assert_eq!(PATIENT_CREATED_MESSAGE, "Patient created successfully");
}

#[test]
fn listing_and_finding_patients() {
    assert_eq!(get_all_patients(Ok(vec![patient()])), Answer::Record { status: 200, record: vec![patient()] });
    assert_eq!(
        get_all_patients(Err(StoreFailure)),
        Answer::Fixed(reply(500, "{\"error\":\"Failed to fetch patients\"}"))
    );
    assert_eq!(get_patient_by_id(Ok(Some(patient()))), Answer::Record { status: 200, record: patient() });
    assert_eq!(get_patient_by_id(Ok(None)), Answer::Fixed(reply(404, "{\"error\":\"Patient not found\"}")));
    assert_eq!(
        get_patient_by_id(Err(StoreFailure)),
        Answer::Fixed(reply(500, "{\"error\":\"Failed to fetch patient\"}"))
    );
}

#[test]
fn changing_a_patient() {
    let request = UpdatePatientRequest {
        name: Some("Dana Cohen".to_string()),
        email: None,
        phone_number: None,
        description: Some("second visit".to_string()),
        date: None,
    };
    let mut expected = patient();
    expected.name = "Dana Cohen".to_string();
    expected.description = "second visit".to_string();
    assert_eq!(update_patient(Ok(Some(patient())), request.clone()), Ok(expected));
    assert_eq!(update_patient(Ok(None), request.clone()), Err(reply(404, "{\"error\":\"Patient not found\"}")));
    assert_eq!(
        update_patient(Err(StoreFailure), request),
        Err(reply(500, "{\"error\":\"Failed to fetch patient\"}"))
    );
    assert_eq!(update_patient_reply(Ok(true)), Ok(200));
    assert_eq!(update_patient_reply(Ok(false)), Err(reply(404, "{\"error\":\"Patient not found\"}")));
    assert_eq!(update_patient_reply(Err(StoreFailure)), Err(reply(500, "{\"error\":\"Failed to update patient\"}")));
    assert_eq!(PATIENT_UPDATED_MESSAGE, "Patient updated successfully");
}

#[test]
fn deleting_a_patient() {
    assert_eq!(delete_patient(Ok(true)), reply(200, "{\"message\":\"Patient deleted successfully\"}"));
    assert_eq!(delete_patient(Ok(false)), reply(404, "{\"error\":\"Patient not found\"}"));
    assert_eq!(delete_patient(Err(StoreFailure)), reply(500, "{\"error\":\"Failed to delete patient\"}"));
}

#[test]
fn recording_a_treatment() {
    let request = CreateTreatmentRequest { summary: "Massage".to_string(), date: Some(at(7)) };
    let created = create_treatment(Ok(true), "p-1".to_string(), request.clone()).unwrap();
    assert_eq!(created.id.len(), 36);
    assert_eq!(created.patient_id, "p-1");
    assert_eq!(created.summary, "Massage");
    assert_eq!(created.date, at(7));
    assert_eq!(
        create_treatment(Ok(false), "p-1".to_string(), request.clone()),
        Err(reply(404, "\"Patient not found\""))
    );
    assert_eq!(
        create_treatment(Err(StoreFailure), "p-1".to_string(), request),
        Err(reply(500, "\"Failed to check patient\""))
    );
    assert_eq!(create_treatment_reply(Ok(())), Ok(201));
    assert_eq!(create_treatment_reply(Err(StoreFailure)), Err(reply(500, "\"Failed to create treatment\"")));
}

#[test]
fn listing_treatments() {
    let listed = Answer::Record { status: 200, record: vec![treatment()] };
    let failed = Answer::Fixed(reply(500, "\"Failed to fetch treatments\""));
    assert_eq!(get_treatments_for_patient(Ok(vec![treatment()])), listed);
    assert_eq!(get_treatments_for_patient(Err(StoreFailure)), failed);
    assert_eq!(get_all_treatments(Ok(vec![treatment()])), listed);
    assert_eq!(get_all_treatments(Err(StoreFailure)), failed);
}

#[test]
fn treatment_is_reached_through_its_own_patient_only() {
    assert_eq!(get_treatment_by_id(Ok(Some(treatment())), "p-1"), Ok(treatment()));
    for other in ["p-2", "", "P-1", "p-1 "] {
        assert_eq!(
            get_treatment_by_id(Ok(Some(treatment())), other),
            Err(reply(404, "\"Treatment not found for this patient\""))
        );
    }
    assert_eq!(get_treatment_by_id(Ok(None), "p-1"), Err(reply(404, "\"Treatment not found\"")));
    assert_eq!(get_treatment_by_id(Err(StoreFailure), "p-1"), Err(reply(500, "\"Failed to fetch treatment\"")));
}

#[test]
fn changing_a_treatment() {
    let request = UpdateTreatmentRequest { summary: Some("Stretching".to_string()), date: None };
    let mut expected = treatment();
    expected.summary = "Stretching".to_string();
    assert_eq!(update_treatment(Ok(Some(treatment())), "p-1", request.clone()), Ok(expected));
    assert_eq!(
        update_treatment(Ok(Some(treatment())), "p-2", request.clone()),
        Err(reply(404, "\"Treatment not found for this patient\""))
    );
    assert_eq!(update_treatment(Ok(None), "p-1", request.clone()), Err(reply(404, "\"Treatment not found\"")));
    assert_eq!(
        update_treatment(Err(StoreFailure), "p-1", request),
        Err(reply(500, "\"Failed to fetch treatment\""))
    );
    assert_eq!(update_treatment_reply(Ok(true)), Ok(200));
    assert_eq!(update_treatment_reply(Ok(false)), Err(reply(404, "\"Treatment not found\"")));
    assert_eq!(update_treatment_reply(Err(StoreFailure)), Err(reply(500, "\"Failed to update treatment\"")));
}

#[test]
fn deleting_a_treatment() {
    assert_eq!(delete_treatment(Ok(true)), Ok(204));
    assert_eq!(delete_treatment(Ok(false)), Err(reply(404, "\"Treatment not found\"")));
    assert_eq!(delete_treatment(Err(StoreFailure)), Err(reply(500, "\"Failed to delete treatment\"")));
}
