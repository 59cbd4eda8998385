//! Intake and review of membership applications: typed form answers,
//! durable decision records, the role policy, and the review workflow.
pub mod answers;
pub mod record;
pub mod roles;
pub mod intake;
pub mod review;
pub mod bot;
