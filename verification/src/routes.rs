pub mod begin_enroll;
pub mod enroll;
pub mod not_found;
pub mod router;
pub mod unlock;
