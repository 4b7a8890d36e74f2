//! The ledger's view of a user. The ledger itself (a SQL store) is an
//! external collaborator; the library only works with the plain
//! record it returns. Currency is held in centavos so that thousands
//! of small charges accumulate without rounding drift.

use vstd::prelude::*;

verus! {

/// One registered user as the ledger reports it.
#[derive(Debug)]
pub struct User {
    pub telegram_id: i64,
    pub name: String,
    pub balance_centavos: u64,
}

impl Clone for User {
    fn clone(&self) -> (r: Self)
        ensures
            r == *self,
    {
        User {
            telegram_id: self.telegram_id,
            name: self.name.clone(),
            balance_centavos: self.balance_centavos,
        }
    }
}

/// The balance left after debiting `amount_centavos`, clamped at
/// zero: the ledger never drives a balance negative.
pub fn debited_balance(balance_centavos: u64, amount_centavos: u64) -> (r: u64)
    ensures
        r == if balance_centavos >= amount_centavos {
            balance_centavos - amount_centavos
        } else {
            0
        },
{
    if balance_centavos >= amount_centavos {
        balance_centavos - amount_centavos
    } else {
        0
    }
}

} // verus!
