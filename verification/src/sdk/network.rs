//! Checks that the network the client talks to, and the transactions it
//! handles, belong to the network it was configured for.

use vstd::prelude::*;

use crate::sdk::errors::SdkError;
use crate::text::str_eq;

verus! {

/// Compares the passphrase an RPC server reports with the configured one.
pub fn check_network_passphrase(configured: &str, rpc_reported: &str) -> (r: Result<(), SdkError>)
    ensures
        r is Ok <==> configured@ == rpc_reported@,
        r matches Err(e) ==> (e matches SdkError::NetworkPassphraseMismatch {
            configured: c,
            rpc_reported: p,
        } && c@ == configured@ && p@ == rpc_reported@),
{
    if str_eq(configured, rpc_reported) {
        Ok(())
    } else {
        Err(
            SdkError::NetworkPassphraseMismatch {
                configured: String::from_str(configured),
                rpc_reported: String::from_str(rpc_reported),
            },
        )
    }
}

/// Compares the passphrase a transaction was built for with the configured one.
pub fn verify_transaction_passphrase(configured: &str, in_transaction: &str) -> (r: Result<
    (),
    SdkError,
>)
    ensures
        r is Ok <==> configured@ == in_transaction@,
        r matches Err(e) ==> (e matches SdkError::TransactionPassphraseMismatch {
            configured: c,
            in_transaction: t,
        } && c@ == configured@ && t@ == in_transaction@),
{
    if str_eq(configured, in_transaction) {
        Ok(())
    } else {
        Err(
            SdkError::TransactionPassphraseMismatch {
                configured: String::from_str(configured),
                in_transaction: String::from_str(in_transaction),
            },
        )
    }
}

} // verus!
