//! The registry's end-to-end operation flows, exercised on concrete records.

use hospital_registry::{EntityKind, Registry, RegistryError};

fn setup() -> (Registry, String, String) {
    let mut registry = Registry::new();
    let admin = String::from("admin");
    let admin_initializer = registry.initialize(admin.clone()).unwrap();
    (registry, admin, admin_initializer)
}

fn patient_data() -> (String, u64, String, Vec<String>, String) {
    let name = String::from("Anna");
    let date_of_birth: u64 = 17061999;
    let blood_type = String::from("A+");
    let allergies = vec![String::from("peanut"), String::from("peanut")];
    let insurance_id = String::from("1S2D5");

    (name, date_of_birth, blood_type, allergies, insurance_id)
}

fn doctor_data() -> (String, String, String) {
    let doctor_name = String::from("Dr Divine");
    let specialization = String::from("neurologist");
    let license_number = String::from("DOC789");

    (doctor_name, specialization, license_number)
}

fn medical_test_data() -> (String, u64, String, String) {
    let test_type = String::from("Blood pressure");
    let test_date: u64 = 0;
    let results = String::from("120/80, Normal");
    let notes = String::from("Patient should continue his medication");

    (test_type, test_date, results, notes)
}

#[test]
pub fn test_register_get_update_patient() {
    let (mut registry, admin, admin_initializer) = setup();

    assert_eq!(admin_initializer, admin);

    let (name, date_of_birth, blood_type, allergies, insurance_id) = patient_data();

    // register patient
    let patient_id = registry.register_patient(
        name.clone(),
        date_of_birth,
        blood_type.clone(),
        allergies.clone(),
        insurance_id.clone(),
    );

    assert_eq!(patient_id, 1);

    // get patient
    let stored_patient = registry.get_patient(patient_id).unwrap();

    assert_eq!(stored_patient.name, name);
    assert_eq!(stored_patient.active, true);

    // update patient
    let updated_allergies = vec![
        String::from("peanut"),
        String::from("peanut"),
        String::from("penicillin"),
    ];

    let updated_patient = registry
        .update_patient(
            patient_id,
            name.clone(),
            date_of_birth,
            blood_type.clone(),
            updated_allergies.clone(),
            insurance_id.clone(),
        )
        .unwrap();

    assert_eq!(updated_patient.allergies.len(), 3);
    assert_eq!(updated_patient.allergies[2], updated_allergies[2]);

    // listing patients
    let patients = registry.list_patients();
    assert_eq!(patients.len(), 1);

    // set patient inactive
    let inactive_patient = registry.set_patient_active(patient_id, false).unwrap();
    assert_eq!(inactive_patient.active, false);
}

#[test]
fn test_register_get_update_doctor() {
    let (mut registry, _, _) = setup();
    let (doctor_name, specialization, license_number) = doctor_data();

    // register doctor
    let doctor_id =
        registry.register_doctor(doctor_name.clone(), specialization.clone(), license_number.clone());

    assert_eq!(doctor_id, 1);

    // get doctor
    let stored_doctor = registry.get_doctor(doctor_id).unwrap();
    assert_eq!(stored_doctor.name, doctor_name);
    assert_eq!(stored_doctor.active, true);

    // update doctor
    let updated_specialization = String::from("Cardiologist");

    let updated_doctor = registry
        .update_doctor(
            doctor_id,
            doctor_name.clone(),
            updated_specialization.clone(),
            license_number.clone(),
        )
        .unwrap();

    assert_eq!(updated_doctor.specialization, updated_specialization);

    // listing doctors
    let doctors = registry.list_doctors();
    assert_eq!(doctors.len(), 1);

    // setting doctor inactive
    let inactive_doctor = registry.set_doctor_active(doctor_id, false).unwrap();
    assert_eq!(inactive_doctor.active, false);
}

#[test]
fn test_record_get_update_medical_test() {
    let (mut registry, _, _) = setup();

    let (name, date_of_birth, blood_type, allergies, insurance_id) = patient_data();
    let (doctor_name, specialization, license_number) = doctor_data();
    let (test_type, test_date, results, notes) = medical_test_data();

    // register patient
    let patient_id =
        registry.register_patient(name, date_of_birth, blood_type, allergies, insurance_id);

    // register doctor
    let doctor_id = registry.register_doctor(doctor_name, specialization, license_number);

    // record medical test
    let test_id = registry
        .record_medical_test(
            patient_id,
            doctor_id,
            test_type.clone(),
            test_date,
            results.clone(),
            notes.clone(),
        )
        .unwrap();

    assert_eq!(test_id, 1);

    // retrieve the medical test
    let test = registry.get_medical_test(test_id).unwrap();
    assert_eq!(test.patient_id, patient_id);
    assert_eq!(test.doctor_id, doctor_id);

    // getting the doctor's tests
    let doctor_test = registry.get_medical_tests_by_doctor(doctor_id);
    assert_eq!(doctor_test.len(), 1);
    assert_eq!(doctor_test[0].id, test_id);

    // getting the patient's tests
    let patient_test = registry.get_medical_tests_for_patient(patient_id);
    assert_eq!(patient_test.len(), 1);
    assert_eq!(patient_test[0].id, test_id);

    // update medical test
    let updated_test_type = String::from("Culture");

    let updated_test = registry
        .update_medical_test(
            test_id,
            patient_id,
            doctor_id,
            updated_test_type.clone(),
            test_date,
            results.clone(),
            notes.clone(),
        )
        .unwrap();

    assert_eq!(updated_test.test_type, updated_test_type);
}

#[test]
fn test_record_inactive_patient_medical_test() {
    let (mut registry, _, _) = setup();

    let (name, date_of_birth, blood_type, allergies, insurance_id) = patient_data();
    let (doctor_name, specialization, license_number) = doctor_data();
    let (test_type, test_date, results, notes) = medical_test_data();

    let patient_id =
        registry.register_patient(name, date_of_birth, blood_type, allergies, insurance_id);
    let doctor_id = registry.register_doctor(doctor_name, specialization, license_number);

    // set patient to inactive
    registry.set_patient_active(patient_id, false).unwrap();

    // recording must fail on the inactive patient
    let outcome =
        registry.record_medical_test(patient_id, doctor_id, test_type, test_date, results, notes);
    let err = outcome.unwrap_err();
    assert_eq!(err, RegistryError::Inactive(EntityKind::Patient));
    assert_eq!(err.message(), "Patient is inactive");
}

#[test]
fn test_record_inactive_doctor_medical_test() {
    let (mut registry, _, _) = setup();

    let (name, date_of_birth, blood_type, allergies, insurance_id) = patient_data();
    let (doctor_name, specialization, license_number) = doctor_data();
    let (test_type, test_date, results, notes) = medical_test_data();

    let patient_id =
        registry.register_patient(name, date_of_birth, blood_type, allergies, insurance_id);
    let doctor_id = registry.register_doctor(doctor_name, specialization, license_number);

    // set doctor to inactive
    registry.set_doctor_active(doctor_id, false).unwrap();

    // recording must fail on the inactive doctor
    let outcome =
        registry.record_medical_test(patient_id, doctor_id, test_type, test_date, results, notes);
    let err = outcome.unwrap_err();
    assert_eq!(err, RegistryError::Inactive(EntityKind::Doctor));
    assert_eq!(err.message(), "Doctor is inactive");
}

#[test]
fn test_initialize_already_initialized_contract() {
    let (mut registry, admin, _) = setup();

    // a second initialization must fail, whatever the argument
    let err = registry.initialize(admin).unwrap_err();
    assert_eq!(err, RegistryError::AlreadyInitialized);
    assert_eq!(err.message(), "Contract already initialized");

    let err = registry.initialize(String::from("someone else")).unwrap_err();
    assert_eq!(err, RegistryError::AlreadyInitialized);
}

#[test]
fn test_get_unregistered_patient() {
    let (registry, _, _) = setup();

    let unregistered_patient_id: u64 = 1;

    let err = registry.get_patient(unregistered_patient_id).unwrap_err();
    assert_eq!(err, RegistryError::NotRegistered(EntityKind::Patient));
    assert_eq!(err.message(), "Patient not registered");
}

#[test]
fn test_get_unregistered_doctor() {
    let (registry, _, _) = setup();

    let unregistered_doctor_id: u64 = 1;

    let err = registry.get_doctor(unregistered_doctor_id).unwrap_err();
    assert_eq!(err, RegistryError::NotRegistered(EntityKind::Doctor));
    assert_eq!(err.message(), "Doctor not registered");
}
