//! One module per operation. Each holds what the operation is given, the
//! spec function that says what it makes of it, and the function that does
//! so.
//!
//! An operation that is refused changes nothing.

pub mod accept_milestone_task;
pub mod accept_task;
pub mod accept_token_task;
pub mod auto_release;
pub mod auto_release_token;
pub mod create_escrow;
pub mod create_milestone_escrow;
pub mod create_token_escrow;
pub mod dispute;
pub mod dispute_milestone;
pub mod dispute_token;
pub mod init_reputation;
pub mod refund_milestone_escrow;
pub mod refund_token_escrow;
pub mod release_milestone;
pub mod release_payment;
pub mod release_token_payment;
pub mod request_refund;
pub mod resolve_dispute;
pub mod resolve_milestone_dispute;
pub mod resolve_token_dispute;
