//! Withdrawing the tokens of a contract to its creator.

use crate::types::ident::ScColor;
use vstd::prelude::*;

verus! {

/// Why a withdrawal is refused.
#[derive(Clone, Copy, Debug, PartialEq, Eq, Structural)]
pub enum WithdrawError {
    /// The caller is not the creator of the contract.
    Unauthorized,
    /// The creator of the contract is not an address.
    BadAddress,
}

impl WithdrawError {
    /// Returns the reason in words.
    pub fn message(self) -> (text: &'static str)
        ensures
            text@ == match self {
                WithdrawError::Unauthorized => "withdraw: unauthorized"@,
                WithdrawError::BadAddress => "withdraw: bad address"@,
            },
    {
        match self {
            WithdrawError::Unauthorized => "withdraw: unauthorized",
            WithdrawError::BadAddress => "withdraw: bad address",
        }
    }
}

/// Checks who may withdraw: the caller has to be the creator of the
/// contract, and the creator has to be an address.
pub fn contract_creator(creator_is_caller: bool, creator_is_address: bool) -> (checked: Result<
    (),
    WithdrawError,
>)
    ensures
        checked == if !creator_is_caller {
            Err::<(), WithdrawError>(WithdrawError::Unauthorized)
        } else if !creator_is_address {
            Err::<(), WithdrawError>(WithdrawError::BadAddress)
        } else {
            Ok::<(), WithdrawError>(())
        },
{
    if !creator_is_caller {
        Err(WithdrawError::Unauthorized)
    } else if !creator_is_address {
        Err(WithdrawError::BadAddress)
    } else {
        Ok(())
    }
}

/// The amount of one color to withdraw: the whole balance where there is
/// one, nothing otherwise.
pub open spec fn payout(balance: i64) -> Option<i64> {
    if balance > 0 {
        Some(balance)
    } else {
        None
    }
}

/// Returns the amount of one color to withdraw.
pub fn token(balance: i64) -> (amount: Option<i64>)
    ensures
        amount == payout(balance),
{
    if balance > 0 {
        Some(balance)
    } else {
        None
    }
}

/// The positions of `balances` that hold more than nothing, in order.
pub open spec fn paying(balances: Seq<(ScColor, i64)>) -> Seq<(ScColor, i64)> {
    balances.filter(|entry: (ScColor, i64)| entry.1 > 0)
}

/// Returns the transfers that withdraw everything: one for each color with
/// a balance of more than nothing, in the order of `balances`, each of the
/// whole balance.
pub fn tokens(balances: &[(ScColor, i64)]) -> (transfers: Vec<(ScColor, i64)>)
    ensures
        transfers@ == paying(balances@),
{
    let mut transfers: Vec<(ScColor, i64)> = Vec::new();
    let mut index: usize = 0;
    proof {
        reveal(Seq::filter);
        assert(balances@.take(0) =~= Seq::<(ScColor, i64)>::empty());
    }
    while index < balances.len()
        invariant
            index <= balances@.len(),
            transfers@ == paying(balances@.take(index as int)),
        decreases balances@.len() - index,
    {
        let entry: (ScColor, i64) = balances[index];
        proof {
            let done = balances@.take(index as int);
            reveal(Seq::filter);
            assert(balances@.take(index as int + 1) =~= done.push(entry));
            assert(done.push(entry).drop_last() =~= done);
        }
        if entry.1 > 0 {
            transfers.push(entry);
        }
        index = index + 1;
    }
    assert(balances@.take(index as int) =~= balances@);
    transfers
}

} // verus!
