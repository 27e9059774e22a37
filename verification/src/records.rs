//! The three record types and their mathematical views.
//!
//! Contracts throughout the crate speak of the `...View` ghost structs, which
//! hold each record's fields as plain mathematical values (`Seq<char>` for
//! text). `deep_view` maps a stored record to its view.

use vstd::prelude::*;

verus! {

/// A patient record. The identifier is assigned once at registration and
/// never changes; `active` defaults to true and is toggled only through the
/// dedicated lifecycle operation.
#[derive(Debug)]
pub struct Patient {
    pub id: u64,
    pub name: String,
    pub date_of_birth: u64,
    pub blood_type: String,
    pub allergies: Vec<String>,
    pub insurance_id: String,
    pub active: bool,
}

/// The mathematical view of a [`Patient`].
#[verifier::ext_equal]
pub ghost struct PatientView {
    pub id: u64,
    pub name: Seq<char>,
    pub date_of_birth: u64,
    pub blood_type: Seq<char>,
    pub allergies: Seq<Seq<char>>,
    pub insurance_id: Seq<char>,
    pub active: bool,
}

/// A doctor record, with the same identifier and lifecycle rules as a patient.
#[derive(Debug)]
pub struct Doctor {
    pub id: u64,
    pub name: String,
    pub specialization: String,
    pub license_number: String,
    pub active: bool,
}

/// The mathematical view of a [`Doctor`].
#[verifier::ext_equal]
pub ghost struct DoctorView {
    pub id: u64,
    pub name: Seq<char>,
    pub specialization: Seq<char>,
    pub license_number: Seq<char>,
    pub active: bool,
}

/// A medical test record. `patient_id` and `doctor_id` reference records in
/// the patient and doctor stores; both must exist and be active when the test
/// is recorded.
#[derive(Debug)]
pub struct MedicalTest {
    pub id: u64,
    pub patient_id: u64,
    pub doctor_id: u64,
    pub test_type: String,
    pub test_date: u64,
    pub results: String,
    pub notes: String,
}

/// The mathematical view of a [`MedicalTest`].
#[verifier::ext_equal]
pub ghost struct MedicalTestView {
    pub id: u64,
    pub patient_id: u64,
    pub doctor_id: u64,
    pub test_type: Seq<char>,
    pub test_date: u64,
    pub results: Seq<char>,
    pub notes: Seq<char>,
}

impl DeepView for Patient {
    type V = PatientView;

    open spec fn deep_view(&self) -> PatientView {
        PatientView {
            id: self.id,
            name: self.name@,
            date_of_birth: self.date_of_birth,
            blood_type: self.blood_type@,
            allergies: self.allergies.deep_view(),
            insurance_id: self.insurance_id@,
            active: self.active,
        }
    }
}

impl DeepView for Doctor {
    type V = DoctorView;

    open spec fn deep_view(&self) -> DoctorView {
        DoctorView {
            id: self.id,
            name: self.name@,
            specialization: self.specialization@,
            license_number: self.license_number@,
            active: self.active,
        }
    }
}

impl DeepView for MedicalTest {
    type V = MedicalTestView;

    open spec fn deep_view(&self) -> MedicalTestView {
        MedicalTestView {
            id: self.id,
            patient_id: self.patient_id,
            doctor_id: self.doctor_id,
            test_type: self.test_type@,
            test_date: self.test_date,
            results: self.results@,
            notes: self.notes@,
        }
    }
}

/// A copy of a string vector whose view equals the original's.
fn clone_strings(xs: &Vec<String>) -> (r: Vec<String>)
    ensures
        r@ == xs@,
{
    let mut r: Vec<String> = Vec::new();
    let mut i: usize = 0;
    while i < xs.len()
        invariant
            i <= xs@.len(),
            r@ == xs@.subrange(0, i as int),
        decreases xs@.len() - i,
    {
        r.push(xs[i].clone());
        proof {
            assert(r@ =~= xs@.subrange(0, i + 1));
        }
        i += 1;
    }
    proof {
        assert(xs@.subrange(0, xs@.len() as int) =~= xs@);
    }
    r
}

impl Clone for Patient {
    /// An independent snapshot with the same view.
    fn clone(&self) -> (r: Self)
        ensures
            r.deep_view() == self.deep_view(),
    {
        Patient {
            id: self.id,
            name: self.name.clone(),
            date_of_birth: self.date_of_birth,
            blood_type: self.blood_type.clone(),
            allergies: clone_strings(&self.allergies),
            insurance_id: self.insurance_id.clone(),
            active: self.active,
        }
    }
}

impl Clone for Doctor {
    /// An independent snapshot with the same view.
    fn clone(&self) -> (r: Self)
        ensures
            r.deep_view() == self.deep_view(),
    {
        Doctor {
            id: self.id,
            name: self.name.clone(),
            specialization: self.specialization.clone(),
            license_number: self.license_number.clone(),
            active: self.active,
        }
    }
}

impl Clone for MedicalTest {
    /// An independent snapshot with the same view.
    fn clone(&self) -> (r: Self)
        ensures
            r.deep_view() == self.deep_view(),
    {
        MedicalTest {
            id: self.id,
            patient_id: self.patient_id,
            doctor_id: self.doctor_id,
            test_type: self.test_type.clone(),
            test_date: self.test_date,
            results: self.results.clone(),
            notes: self.notes.clone(),
        }
    }
}

} // verus!
