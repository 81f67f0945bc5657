//! The deployable component of each service and workflow, with its default
//! artifact.

pub mod finance_service;
pub mod treasury_disbursement;
pub mod engineering_service;
pub mod security_service;
pub mod release_approval;
