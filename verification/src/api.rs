//! Plain data shapes of the service endpoints that surround the signing
//! core: quote and swap requests against the liquidity aggregator, balance
//! queries, account sign-up and sign-in, user bookkeeping, and the account
//! stream's update records. The core consumes none of them; the transport
//! and storage layers exchange them as JSON and rows.

use vstd::prelude::*;

verus! {

/// A request for a swap quote between two token mints.
#[derive(Debug)]
pub struct QuoteRequest {
    pub input_mint: String,
    pub output_mint: String,
    pub amount: u64,
}

/// A quote: amounts, threshold, mode and slippage as the aggregator reports
/// them.
#[derive(Debug)]
pub struct QuoteResponse {
    pub in_amount: String,
    pub out_amount: String,
    pub other_amount_threshold: String,
    pub swap_mode: String,
    pub slippage_bps: u64,
}

/// A request to execute a swap for a user's public key.
#[derive(Debug)]
pub struct SwapRequest {
    pub input_mint: String,
    pub output_mint: String,
    pub amount: u64,
    pub user_pubkey: String,
}

/// The transaction id of an executed swap.
#[derive(Debug)]
pub struct SwapResponse {
    pub txid: String,
}

/// A native-balance answer, in the chain's base unit.
#[derive(Debug)]
pub struct BalanceResponse {
    pub balance: u64,
}

/// A token-balance answer, in the token's base unit.
#[derive(Debug)]
pub struct TokenBalanceResponse {
    pub balance: u64,
}

/// Credentials offered to create an account.
#[derive(Debug)]
pub struct SignUpRequest {
    pub email: String,
    pub password: String,
}

/// Credentials offered to open a session.
#[derive(Debug)]
pub struct SignInRequest {
    pub email: String,
    pub password: String,
}

/// The session token handed out after a successful sign-in.
#[derive(Debug)]
pub struct AuthResponse {
    pub token: String,
}

/// The confirmation message handed out after a successful sign-up.
#[derive(Debug)]
pub struct SignupResponse {
    message: String,
}

impl SignupResponse {
    pub fn new(message: String) -> SignupResponse {
        SignupResponse { message }
    }

    pub fn message(&self) -> &String {
        &self.message
    }
}

/// One account state observed on the chain stream.
#[derive(Debug)]
pub struct AccountUpdate {
    pub pubkey: String,
    pub lamports: u64,
    pub owner: String,
    pub executable: bool,
    pub rent_epoch: u64,
    pub data: Vec<u8>,
    pub write_version: u64,
    pub slot: u64,
}

/// The fields needed to create a stored user.
#[derive(Debug)]
pub struct CreateUserRequest {
    pub email: String,
    pub password: String,
}

/// The direction of a recorded transfer.
#[derive(Clone, Copy, Debug, PartialEq, Eq, Structural)]
pub enum TransactionType {
    Deposit,
    Withdrawal,
    Transfer,
}

/// The lifecycle state of a recorded transfer.
#[derive(Clone, Copy, Debug, PartialEq, Eq, Structural)]
pub enum TransactionStatus {
    Pending,
    Confirmed,
    Failed,
}

/// What can go wrong in user bookkeeping.
#[derive(Debug)]
pub enum UserError {
    UserExists,
    InvalidInput(String),
    DatabaseError(String),
}

} // verus!
