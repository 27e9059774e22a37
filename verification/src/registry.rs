//! The registry: per-kind stores, the one-time administrator gate, and the
//! cross-entity rule that gates the recording of a medical test.

use vstd::prelude::*;

use crate::errors::{EntityKind, RegistryError};
use crate::records::{Doctor, DoctorView, MedicalTest, MedicalTestView, Patient, PatientView};
use crate::store::EntityStore;

verus! {

/// The one-time administrator binding: empty until `initialize` succeeds,
/// set forever after.
pub struct AdminGate {
    pub identity: Option<String>,
}

impl AdminGate {
    /// The bound administrator identity, as a mathematical value.
    pub open spec fn identity_view(&self) -> Option<Seq<char>> {
        self.identity.deep_view()
    }

    /// An unbound gate.
    pub fn new() -> (r: Self)
        ensures
            r.identity_view() is None,
    {
        AdminGate { identity: None }
    }

    /// Binds the administrator identity, exactly once: succeeds only while
    /// no identity is bound yet; afterwards every call fails with
    /// `AlreadyInitialized`, whatever its argument.
    pub fn initialize(&mut self, identity: String) -> (r: Result<String, RegistryError>)
        ensures
            old(self).identity_view() is None ==> ({
                &&& r matches Ok(bound) && bound@ == identity@
                &&& final(self).identity_view() == Some(identity@)
            }),
            old(self).identity_view() is Some ==> ({
                &&& r == Err::<String, RegistryError>(RegistryError::AlreadyInitialized)
                &&& final(self).identity_view() == old(self).identity_view()
            }),
            final(self).identity_view() is Some,
    {
        if self.identity.is_some() {
            Err(RegistryError::AlreadyInitialized)
        } else {
            self.identity = Some(identity.clone());
            Ok(identity)
        }
    }
}

/// The predicate the doctor filter selects on: the test references the doctor.
pub open spec fn by_doctor(doctor_id: u64) -> spec_fn(MedicalTestView) -> bool {
    |t: MedicalTestView| t.doctor_id == doctor_id
}

/// The predicate the patient filter selects on: the test references the patient.
pub open spec fn for_patient(patient_id: u64) -> spec_fn(MedicalTestView) -> bool {
    |t: MedicalTestView| t.patient_id == patient_id
}

/// The record registry. It owns one store per record kind and the
/// administrator gate, and is the only component exposed to callers.
pub struct Registry {
    pub admin: AdminGate,
    pub patients: EntityStore<Patient>,
    pub doctors: EntityStore<Doctor>,
    pub tests: EntityStore<MedicalTest>,
}

impl Registry {
    /// The registry's invariant: in every store, the record at index `i`
    /// carries identifier `i + 1`.
    pub open spec fn wf(&self) -> bool {
        &&& self.patients.ids_sequential()
        &&& self.doctors.ids_sequential()
        &&& self.tests.ids_sequential()
    }

    /// The patient records in registration order, as mathematical values.
    pub open spec fn patients_view(&self) -> Seq<PatientView> {
        self.patients.records.deep_view()
    }

    /// The doctor records in registration order, as mathematical values.
    pub open spec fn doctors_view(&self) -> Seq<DoctorView> {
        self.doctors.records.deep_view()
    }

    /// The medical test records in registration order, as mathematical values.
    pub open spec fn tests_view(&self) -> Seq<MedicalTestView> {
        self.tests.records.deep_view()
    }

    /// The bound administrator identity, if any.
    pub open spec fn admin_view(&self) -> Option<Seq<char>> {
        self.admin.identity_view()
    }

    /// Whether a patient with this identifier is registered.
    pub open spec fn has_patient(&self, id: u64) -> bool {
        1 <= id <= self.patients_view().len()
    }

    /// Whether a doctor with this identifier is registered.
    pub open spec fn has_doctor(&self, id: u64) -> bool {
        1 <= id <= self.doctors_view().len()
    }

    /// Whether a medical test with this identifier is recorded.
    pub open spec fn has_test(&self, id: u64) -> bool {
        1 <= id <= self.tests_view().len()
    }

    /// Whether recording a medical test against these identifiers is
    /// admissible: both referenced records exist and are active.
    pub open spec fn may_record_test(&self, patient_id: u64, doctor_id: u64) -> bool {
        &&& self.has_patient(patient_id)
        &&& self.patients_view()[patient_id - 1].active
        &&& self.has_doctor(doctor_id)
        &&& self.doctors_view()[doctor_id - 1].active
    }

    /// An empty registry: no admin, no records of any kind.
    pub fn new() -> (r: Registry)
        ensures
            r.wf(),
            r.admin_view() is None,
            r.patients_view() == Seq::<PatientView>::empty(),
            r.doctors_view() == Seq::<DoctorView>::empty(),
            r.tests_view() == Seq::<MedicalTestView>::empty(),
    {
        let r = Registry {
            admin: AdminGate::new(),
            patients: EntityStore::new(),
            doctors: EntityStore::new(),
            tests: EntityStore::new(),
        };
        proof {
            assert(r.patients_view() =~= Seq::<PatientView>::empty());
            assert(r.doctors_view() =~= Seq::<DoctorView>::empty());
            assert(r.tests_view() =~= Seq::<MedicalTestView>::empty());
        }
        r
    }

    /// Binds the administrator identity, exactly once over the registry's
    /// lifetime; no record is touched either way.
    pub fn initialize(&mut self, admin: String) -> (r: Result<String, RegistryError>)
        requires
            old(self).wf(),
        ensures
            final(self).wf(),
            final(self).patients_view() == old(self).patients_view(),
            final(self).doctors_view() == old(self).doctors_view(),
            final(self).tests_view() == old(self).tests_view(),
            old(self).admin_view() is None ==> ({
                &&& r matches Ok(bound) && bound@ == admin@
                &&& final(self).admin_view() == Some(admin@)
            }),
            old(self).admin_view() is Some ==> ({
                &&& r == Err::<String, RegistryError>(RegistryError::AlreadyInitialized)
                &&& final(self).admin_view() == old(self).admin_view()
            }),
            final(self).admin_view() is Some,
    {
        self.admin.initialize(admin)
    }

    /// Registers a patient with the given fields, `active` defaulting to
    /// true, under the next patient identifier.
    pub fn register_patient(
        &mut self,
        name: String,
        date_of_birth: u64,
        blood_type: String,
        allergies: Vec<String>,
        insurance_id: String,
    ) -> (r: u64)
        requires
            old(self).wf(),
            old(self).patients_view().len() < u64::MAX,
        ensures
            final(self).wf(),
            r == old(self).patients_view().len() + 1,
            final(self).patients_view() == old(self).patients_view().push(
                (PatientView {
                    id: r,
                    name: name@,
                    date_of_birth,
                    blood_type: blood_type@,
                    allergies: allergies.deep_view(),
                    insurance_id: insurance_id@,
                    active: true,
                }),
            ),
            final(self).doctors_view() == old(self).doctors_view(),
            final(self).tests_view() == old(self).tests_view(),
            final(self).admin_view() == old(self).admin_view(),
    {
        let id = self.patients.next_id();
        let record = Patient {
            id,
            name,
            date_of_birth,
            blood_type,
            allergies,
            insurance_id,
            active: true,
        };
        self.patients.append(record);
        proof {
            assert(self.patients_view() =~= old(self).patients_view().push(
                self.patients.records@.last().deep_view(),
            ));
        }
        id
    }

    /// The patient with this identifier, or `NotRegistered(Patient)` when
    /// the identifier was never handed out.
    pub fn get_patient(&self, patient_id: u64) -> (r: Result<Patient, RegistryError>)
        requires
            self.wf(),
        ensures
            self.has_patient(patient_id) ==> (r matches Ok(p) && p.deep_view()
                == self.patients_view()[patient_id - 1]),
            !self.has_patient(patient_id) ==> r == Err::<Patient, RegistryError>(
                RegistryError::NotRegistered(EntityKind::Patient),
            ),
    {
        match self.patients.lookup(patient_id) {
            Some(record) => Ok(record.clone()),
            None => Err(RegistryError::NotRegistered(EntityKind::Patient)),
        }
    }

    /// Replaces every field of the patient except its identifier and its
    /// active flag, and returns the new snapshot; fails with
    /// `NotRegistered(Patient)` when the identifier is unknown.
    pub fn update_patient(
        &mut self,
        patient_id: u64,
        name: String,
        date_of_birth: u64,
        blood_type: String,
        allergies: Vec<String>,
        insurance_id: String,
    ) -> (r: Result<Patient, RegistryError>)
        requires
            old(self).wf(),
        ensures
            final(self).wf(),
            final(self).doctors_view() == old(self).doctors_view(),
            final(self).tests_view() == old(self).tests_view(),
            final(self).admin_view() == old(self).admin_view(),
            old(self).has_patient(patient_id) ==> ({
                let updated = PatientView {
                    id: patient_id,
                    name: name@,
                    date_of_birth,
                    blood_type: blood_type@,
                    allergies: allergies.deep_view(),
                    insurance_id: insurance_id@,
                    active: old(self).patients_view()[patient_id - 1].active,
                };
                &&& r matches Ok(p) && p.deep_view() == updated
                &&& final(self).patients_view() == old(self).patients_view().update(
                    patient_id - 1,
                    updated,
                )
            }),
            !old(self).has_patient(patient_id) ==> ({
                &&& r == Err::<Patient, RegistryError>(RegistryError::NotRegistered(
                    EntityKind::Patient,
                ))
                &&& final(self).patients_view() == old(self).patients_view()
            }),
    {
        let active = match self.patients.lookup(patient_id) {
            Some(record) => record.active,
            None => {
                return Err(RegistryError::NotRegistered(EntityKind::Patient));
            },
        };
        let record = Patient {
            id: patient_id,
            name,
            date_of_birth,
            blood_type,
            allergies,
            insurance_id,
            active,
        };
        let snapshot = record.clone();
        self.patients.replace(patient_id, record);
        proof {
            assert(self.patients_view() =~= old(self).patients_view().update(
                patient_id - 1,
                snapshot.deep_view(),
            ));
        }
        Ok(snapshot)
    }

    /// Every patient record, active or not, in registration order.
    pub fn list_patients(&self) -> (r: Vec<Patient>)
        requires
            self.wf(),
        ensures
            r.deep_view() == self.patients_view(),
    {
        let mut out: Vec<Patient> = Vec::new();
        let mut i: usize = 0;
        let n = self.patients.records.len();
        while i < n
            invariant
                i <= n,
                n == self.patients.records@.len(),
                out@.len() == i,
                out.deep_view() == self.patients_view().take(i as int),
            decreases n - i,
        {
            let item = self.patients.records[i].clone();
            proof {
                assert(item.deep_view() == self.patients_view()[i as int]);
            }
            out.push(item);
            proof {
                assert(out.deep_view() =~= self.patients_view().take(i + 1));
            }
            i += 1;
        }
        proof {
            assert(self.patients_view().take(n as int) =~= self.patients_view());
        }
        out
    }

    /// Flips the patient's active flag to `value` and nothing else; fails
    /// with `NotRegistered(Patient)` when the identifier is unknown.
    pub fn set_patient_active(&mut self, patient_id: u64, value: bool) -> (r: Result<
        Patient,
        RegistryError,
    >)
        requires
            old(self).wf(),
        ensures
            final(self).wf(),
            final(self).doctors_view() == old(self).doctors_view(),
            final(self).tests_view() == old(self).tests_view(),
            final(self).admin_view() == old(self).admin_view(),
            old(self).has_patient(patient_id) ==> ({
                let previous = old(self).patients_view()[patient_id - 1];
                let updated = PatientView {
                    id: previous.id,
                    name: previous.name,
                    date_of_birth: previous.date_of_birth,
                    blood_type: previous.blood_type,
                    allergies: previous.allergies,
                    insurance_id: previous.insurance_id,
                    active: value,
                };
                &&& r matches Ok(p) && p.deep_view() == updated
                &&& final(self).patients_view() == old(self).patients_view().update(
                    patient_id - 1,
                    updated,
                )
            }),
            !old(self).has_patient(patient_id) ==> ({
                &&& r == Err::<Patient, RegistryError>(RegistryError::NotRegistered(
                    EntityKind::Patient,
                ))
                &&& final(self).patients_view() == old(self).patients_view()
            }),
    {
        let mut record = match self.patients.lookup(patient_id) {
            Some(record) => record.clone(),
            None => {
                return Err(RegistryError::NotRegistered(EntityKind::Patient));
            },
        };
        record.active = value;
        let snapshot = record.clone();
        self.patients.replace(patient_id, record);
        proof {
            assert(self.patients_view() =~= old(self).patients_view().update(
                patient_id - 1,
                snapshot.deep_view(),
            ));
        }
        Ok(snapshot)
    }

    /// Registers a doctor with the given fields, `active` defaulting to
    /// true, under the next doctor identifier.
    pub fn register_doctor(
        &mut self,
        name: String,
        specialization: String,
        license_number: String,
    ) -> (r: u64)
        requires
            old(self).wf(),
            old(self).doctors_view().len() < u64::MAX,
        ensures
            final(self).wf(),
            r == old(self).doctors_view().len() + 1,
            final(self).doctors_view() == old(self).doctors_view().push(
                (DoctorView {
                    id: r,
                    name: name@,
                    specialization: specialization@,
                    license_number: license_number@,
                    active: true,
                }),
            ),
            final(self).patients_view() == old(self).patients_view(),
            final(self).tests_view() == old(self).tests_view(),
            final(self).admin_view() == old(self).admin_view(),
    {
        let id = self.doctors.next_id();
        let record = Doctor { id, name, specialization, license_number, active: true };
        self.doctors.append(record);
        proof {
            assert(self.doctors_view() =~= old(self).doctors_view().push(
                self.doctors.records@.last().deep_view(),
            ));
        }
        id
    }

    /// The doctor with this identifier, or `NotRegistered(Doctor)` when the
    /// identifier was never handed out.
    pub fn get_doctor(&self, doctor_id: u64) -> (r: Result<Doctor, RegistryError>)
        requires
            self.wf(),
        ensures
            self.has_doctor(doctor_id) ==> (r matches Ok(d) && d.deep_view()
                == self.doctors_view()[doctor_id - 1]),
            !self.has_doctor(doctor_id) ==> r == Err::<Doctor, RegistryError>(
                RegistryError::NotRegistered(EntityKind::Doctor),
            ),
    {
        match self.doctors.lookup(doctor_id) {
            Some(record) => Ok(record.clone()),
            None => Err(RegistryError::NotRegistered(EntityKind::Doctor)),
        }
    }

    /// Replaces every field of the doctor except its identifier and its
    /// active flag, and returns the new snapshot; fails with
    /// `NotRegistered(Doctor)` when the identifier is unknown.
    pub fn update_doctor(
        &mut self,
        doctor_id: u64,
        name: String,
        specialization: String,
        license_number: String,
    ) -> (r: Result<Doctor, RegistryError>)
        requires
            old(self).wf(),
        ensures
            final(self).wf(),
            final(self).patients_view() == old(self).patients_view(),
            final(self).tests_view() == old(self).tests_view(),
            final(self).admin_view() == old(self).admin_view(),
            old(self).has_doctor(doctor_id) ==> ({
                let updated = DoctorView {
                    id: doctor_id,
                    name: name@,
                    specialization: specialization@,
                    license_number: license_number@,
                    active: old(self).doctors_view()[doctor_id - 1].active,
                };
                &&& r matches Ok(d) && d.deep_view() == updated
                &&& final(self).doctors_view() == old(self).doctors_view().update(
                    doctor_id - 1,
                    updated,
                )
            }),
            !old(self).has_doctor(doctor_id) ==> ({
                &&& r == Err::<Doctor, RegistryError>(RegistryError::NotRegistered(
                    EntityKind::Doctor,
                ))
                &&& final(self).doctors_view() == old(self).doctors_view()
            }),
    {
        let active = match self.doctors.lookup(doctor_id) {
            Some(record) => record.active,
            None => {
                return Err(RegistryError::NotRegistered(EntityKind::Doctor));
            },
        };
        let record = Doctor { id: doctor_id, name, specialization, license_number, active };
        let snapshot = record.clone();
        self.doctors.replace(doctor_id, record);
        proof {
            assert(self.doctors_view() =~= old(self).doctors_view().update(
                doctor_id - 1,
                snapshot.deep_view(),
            ));
        }
        Ok(snapshot)
    }

    /// Every doctor record, active or not, in registration order.
    pub fn list_doctors(&self) -> (r: Vec<Doctor>)
        requires
            self.wf(),
        ensures
            r.deep_view() == self.doctors_view(),
    {
        let mut out: Vec<Doctor> = Vec::new();
        let mut i: usize = 0;
        let n = self.doctors.records.len();
        while i < n
            invariant
                i <= n,
                n == self.doctors.records@.len(),
                out@.len() == i,
                out.deep_view() == self.doctors_view().take(i as int),
            decreases n - i,
        {
            let item = self.doctors.records[i].clone();
            proof {
                assert(item.deep_view() == self.doctors_view()[i as int]);
            }
            out.push(item);
            proof {
                assert(out.deep_view() =~= self.doctors_view().take(i + 1));
            }
            i += 1;
        }
        proof {
            assert(self.doctors_view().take(n as int) =~= self.doctors_view());
        }
        out
    }

    /// Flips the doctor's active flag to `value` and nothing else; fails
    /// with `NotRegistered(Doctor)` when the identifier is unknown.
    pub fn set_doctor_active(&mut self, doctor_id: u64, value: bool) -> (r: Result<
        Doctor,
        RegistryError,
    >)
        requires
            old(self).wf(),
        ensures
            final(self).wf(),
            final(self).patients_view() == old(self).patients_view(),
            final(self).tests_view() == old(self).tests_view(),
            final(self).admin_view() == old(self).admin_view(),
            old(self).has_doctor(doctor_id) ==> ({
                let previous = old(self).doctors_view()[doctor_id - 1];
                let updated = DoctorView {
                    id: previous.id,
                    name: previous.name,
                    specialization: previous.specialization,
                    license_number: previous.license_number,
                    active: value,
                };
                &&& r matches Ok(d) && d.deep_view() == updated
                &&& final(self).doctors_view() == old(self).doctors_view().update(
                    doctor_id - 1,
                    updated,
                )
            }),
            !old(self).has_doctor(doctor_id) ==> ({
                &&& r == Err::<Doctor, RegistryError>(RegistryError::NotRegistered(
                    EntityKind::Doctor,
                ))
                &&& final(self).doctors_view() == old(self).doctors_view()
            }),
    {
        let mut record = match self.doctors.lookup(doctor_id) {
            Some(record) => record.clone(),
            None => {
                return Err(RegistryError::NotRegistered(EntityKind::Doctor));
            },
        };
        record.active = value;
        let snapshot = record.clone();
        self.doctors.replace(doctor_id, record);
        proof {
            assert(self.doctors_view() =~= old(self).doctors_view().update(
                doctor_id - 1,
                snapshot.deep_view(),
            ));
        }
        Ok(snapshot)
    }

    /// Records a medical test under the next test identifier, but only when
    /// the referenced patient and doctor both exist and are both active.
    ///
    /// The four checks run in a fixed order and the first failure wins:
    /// patient existence, patient activity, doctor existence, doctor
    /// activity. No record is touched on failure.
    pub fn record_medical_test(
        &mut self,
        patient_id: u64,
        doctor_id: u64,
        test_type: String,
        test_date: u64,
        results: String,
        notes: String,
    ) -> (r: Result<u64, RegistryError>)
        requires
            old(self).wf(),
            old(self).tests_view().len() < u64::MAX,
        ensures
            final(self).wf(),
            final(self).patients_view() == old(self).patients_view(),
            final(self).doctors_view() == old(self).doctors_view(),
            final(self).admin_view() == old(self).admin_view(),
            r is Ok <==> old(self).may_record_test(patient_id, doctor_id),
            ({
                let pre = *old(self);
                if !pre.has_patient(patient_id) {
                    &&& r == Err::<u64, RegistryError>(RegistryError::NotRegistered(
                        EntityKind::Patient,
                    ))
                    &&& final(self).tests_view() == pre.tests_view()
                } else if !pre.patients_view()[patient_id - 1].active {
                    &&& r == Err::<u64, RegistryError>(RegistryError::Inactive(EntityKind::Patient))
                    &&& final(self).tests_view() == pre.tests_view()
                } else if !pre.has_doctor(doctor_id) {
                    &&& r == Err::<u64, RegistryError>(RegistryError::NotRegistered(
                        EntityKind::Doctor,
                    ))
                    &&& final(self).tests_view() == pre.tests_view()
                } else if !pre.doctors_view()[doctor_id - 1].active {
                    &&& r == Err::<u64, RegistryError>(RegistryError::Inactive(EntityKind::Doctor))
                    &&& final(self).tests_view() == pre.tests_view()
                } else {
                    &&& r == Ok::<u64, RegistryError>((pre.tests_view().len() + 1) as u64)
                    &&& final(self).tests_view() == pre.tests_view().push(
                        (MedicalTestView {
                            id: (pre.tests_view().len() + 1) as u64,
                            patient_id,
                            doctor_id,
                            test_type: test_type@,
                            test_date,
                            results: results@,
                            notes: notes@,
                        }),
                    )
                }
            }),
    {
        let patient_active = match self.patients.lookup(patient_id) {
            Some(patient) => patient.active,
            None => {
                return Err(RegistryError::NotRegistered(EntityKind::Patient));
            },
        };
        if !patient_active {
            return Err(RegistryError::Inactive(EntityKind::Patient));
        }
        let doctor_active = match self.doctors.lookup(doctor_id) {
            Some(doctor) => doctor.active,
            None => {
                return Err(RegistryError::NotRegistered(EntityKind::Doctor));
            },
        };
        if !doctor_active {
            return Err(RegistryError::Inactive(EntityKind::Doctor));
        }
        let id = self.tests.next_id();
        let record = MedicalTest {
            id,
            patient_id,
            doctor_id,
            test_type,
            test_date,
            results,
            notes,
        };
        self.tests.append(record);
        proof {
            assert(self.tests_view() =~= old(self).tests_view().push(
                self.tests.records@.last().deep_view(),
            ));
        }
        Ok(id)
    }

    /// The medical test with this identifier, or
    /// `NotRegistered(MedicalTest)` when the identifier was never handed out.
    pub fn get_medical_test(&self, test_id: u64) -> (r: Result<MedicalTest, RegistryError>)
        requires
            self.wf(),
        ensures
            self.has_test(test_id) ==> (r matches Ok(t) && t.deep_view()
                == self.tests_view()[test_id - 1]),
            !self.has_test(test_id) ==> r == Err::<MedicalTest, RegistryError>(
                RegistryError::NotRegistered(EntityKind::MedicalTest),
            ),
    {
        match self.tests.lookup(test_id) {
            Some(record) => Ok(record.clone()),
            None => Err(RegistryError::NotRegistered(EntityKind::MedicalTest)),
        }
    }

    /// The medical tests that reference this doctor, in registration order.
    /// An unknown identifier simply yields an empty sequence.
    pub fn get_medical_tests_by_doctor(&self, doctor_id: u64) -> (r: Vec<MedicalTest>)
        requires
            self.wf(),
        ensures
            r.deep_view() == self.tests_view().filter(by_doctor(doctor_id)),
    {
        let mut out: Vec<MedicalTest> = Vec::new();
        let mut i: usize = 0;
        let n = self.tests.records.len();
        while i < n
            invariant
                i <= n,
                n == self.tests.records@.len(),
                out.deep_view() == self.tests_view().take(i as int).filter(by_doctor(doctor_id)),
            decreases n - i,
        {
            let record = &self.tests.records[i];
            proof {
                reveal(Seq::filter);
                assert(self.tests_view().take(i + 1).drop_last() =~= self.tests_view().take(
                    i as int,
                ));
                assert(self.tests_view().take(i + 1).last() == record.deep_view());
            }
            if record.doctor_id == doctor_id {
                let item = record.clone();
                out.push(item);
                proof {
                    assert(out.deep_view() =~= self.tests_view().take(i + 1).filter(
                        by_doctor(doctor_id),
                    ));
                }
            }
            i += 1;
        }
        proof {
            assert(self.tests_view().take(n as int) =~= self.tests_view());
        }
        out
    }

    /// The medical tests that reference this patient, in registration order.
    /// An unknown identifier simply yields an empty sequence.
    pub fn get_medical_tests_for_patient(&self, patient_id: u64) -> (r: Vec<MedicalTest>)
        requires
            self.wf(),
        ensures
            r.deep_view() == self.tests_view().filter(for_patient(patient_id)),
    {
        let mut out: Vec<MedicalTest> = Vec::new();
        let mut i: usize = 0;
        let n = self.tests.records.len();
        while i < n
            invariant
                i <= n,
                n == self.tests.records@.len(),
                out.deep_view() == self.tests_view().take(i as int).filter(for_patient(patient_id)),
            decreases n - i,
        {
            let record = &self.tests.records[i];
            proof {
                reveal(Seq::filter);
                assert(self.tests_view().take(i + 1).drop_last() =~= self.tests_view().take(
                    i as int,
                ));
                assert(self.tests_view().take(i + 1).last() == record.deep_view());
            }
            if record.patient_id == patient_id {
                let item = record.clone();
                out.push(item);
                proof {
                    assert(out.deep_view() =~= self.tests_view().take(i + 1).filter(
                        for_patient(patient_id),
                    ));
                }
            }
            i += 1;
        }
        proof {
            assert(self.tests_view().take(n as int) =~= self.tests_view());
        }
        out
    }

    /// Replaces every field of the medical test except its identifier and
    /// returns the new snapshot; fails with `NotRegistered(MedicalTest)`
    /// when the identifier is unknown.
    ///
    /// Deliberately, and unlike `record_medical_test`, this re-validates
    /// neither the referenced patient nor the referenced doctor.
    pub fn update_medical_test(
        &mut self,
        test_id: u64,
        patient_id: u64,
        doctor_id: u64,
        test_type: String,
        test_date: u64,
        results: String,
        notes: String,
    ) -> (r: Result<MedicalTest, RegistryError>)
        requires
            old(self).wf(),
        ensures
            final(self).wf(),
            final(self).patients_view() == old(self).patients_view(),
            final(self).doctors_view() == old(self).doctors_view(),
            final(self).admin_view() == old(self).admin_view(),
            old(self).has_test(test_id) ==> ({
                let updated = MedicalTestView {
                    id: test_id,
                    patient_id,
                    doctor_id,
                    test_type: test_type@,
                    test_date,
                    results: results@,
                    notes: notes@,
                };
                &&& r matches Ok(t) && t.deep_view() == updated
                &&& final(self).tests_view() == old(self).tests_view().update(test_id - 1, updated)
            }),
            !old(self).has_test(test_id) ==> ({
                &&& r == Err::<MedicalTest, RegistryError>(RegistryError::NotRegistered(
                    EntityKind::MedicalTest,
                ))
                &&& final(self).tests_view() == old(self).tests_view()
            }),
    {
        if self.tests.lookup(test_id).is_none() {
            return Err(RegistryError::NotRegistered(EntityKind::MedicalTest));
        }
        let record = MedicalTest {
            id: test_id,
            patient_id,
            doctor_id,
            test_type,
            test_date,
            results,
            notes,
        };
        let snapshot = record.clone();
        self.tests.replace(test_id, record);
        proof {
            assert(self.tests_view() =~= old(self).tests_view().update(
                test_id - 1,
                snapshot.deep_view(),
            ));
        }
        Ok(snapshot)
    }
}

} // verus!
