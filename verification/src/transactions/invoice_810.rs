use crate::error::EdiError;
use crate::models::transaction::Transaction;
use crate::transactions::TransactionParser;
use vstd::prelude::*;

verus! {

/// The invoice document form; its segment detail is not filled in yet, so
/// parsing always reports the type as unsupported.
#[derive(Debug, PartialEq)]
pub struct Invoice810 {}

impl Invoice810 {
    /// Parsing an invoice is not supported yet.
    pub fn parse_transaction(_transaction: &Transaction) -> (r: Result<Invoice810, EdiError>)
        ensures
            r matches Err(e) && (e matches EdiError::UnsupportedTransactionType(m) && m@
                == "810 parsing not yet implemented"@),
    {
        Err(
            EdiError::UnsupportedTransactionType(
                String::from_str("810 parsing not yet implemented"),
            ),
        )
    }

    /// An empty invoice has nothing to check.
    pub fn validate(&self) -> (r: Result<(), EdiError>)
        ensures
            r is Ok,
    {
        Ok(())
    }
}

impl TransactionParser for Invoice810 {
    type Output = Invoice810;

    fn parse_transaction(transaction: &Transaction) -> Result<Invoice810, EdiError> {
        Invoice810::parse_transaction(transaction)
    }

    fn validate(&self) -> Result<(), EdiError> {
        Invoice810::validate(self)
    }

    fn transaction_type() -> &'static str {
        "810"
    }
}

} // verus!
