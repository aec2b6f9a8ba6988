//! Write-time security checks: site extraction, exact overflow queries, pattern checks and
//! the policy that turns findings into an allow / warn / block decision.

pub mod analyzer;
pub mod cwe;
pub mod findings;
pub mod line_sites;
pub mod patterns;
pub mod policy;
pub mod queries;
pub mod sites;

pub use analyzer::{verify_and_decide, verify_fragment};
pub use findings::{ProofStatus, SecurityFinding, VerifyReport};
pub use policy::{decide, GateAction, PolicyMode, SecurityPolicy};
