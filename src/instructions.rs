//! One module per operation: the request it takes, the outcome it owes as a
//! spec function, and the handler that carries it out.
pub mod initialize;
pub mod launch;
pub mod submit;
pub mod vote;
pub mod claim_by_artist;
pub mod claim_by_voter;
pub mod claim_by_contest_owner;
