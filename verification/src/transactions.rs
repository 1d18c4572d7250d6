pub mod invoice_810;
pub mod purchase_order_850;

use crate::error::EdiError;
use crate::models::transaction::Transaction;
use vstd::prelude::*;

pub use invoice_810::Invoice810;
pub use purchase_order_850::PurchaseOrder850;

verus! {

/// A transaction type with a structured business-document form.  The exact
/// behaviour is stated on the implementing types.
pub trait TransactionParser {
    type Output;

    fn parse_transaction(transaction: &Transaction) -> Result<Self::Output, EdiError>;

    fn validate(&self) -> Result<(), EdiError>;

    fn transaction_type() -> &'static str;
}

} // verus!
