//! A verified registry of patients, doctors and medical tests.
//!
//! The registry keeps one store per record kind, hands out identifiers in a
//! strictly increasing sequence starting at 1 for each kind, guards a one-time
//! administrator binding, and gates the creation of a medical test on the
//! existence and activity of the patient and doctor it references.
//!
//! Every operation's behaviour is stated in its contract over the ghost views
//! of the stored records; the proof functions in [`laws`] state the properties
//! that relate several operations.

pub mod errors;
pub mod laws;
pub mod records;
pub mod registry;
pub mod store;

pub use errors::{EntityKind, RegistryError};
pub use records::{Doctor, DoctorView, MedicalTest, MedicalTestView, Patient, PatientView};
pub use registry::Registry;
