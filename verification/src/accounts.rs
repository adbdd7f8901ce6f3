//! The accounts of a run: those that the node manages, and the configured
//! one.

use vstd::prelude::*;
use crate::address::Address;

verus! {

/// The accounts whose balances are reported: those that the node manages, in
/// the node's order, and the configured account last.
pub fn reported_accounts(node_accounts: Vec<Address>, configured: Address) -> (r: Vec<Address>)
    ensures
        r@ == node_accounts@.push(configured),
{
    let mut accounts = node_accounts;
    accounts.push(configured);
    accounts
}

/// The account that sends the swap and receives its output: the first of
/// the reported accounts, which is the node's first account where it manages
/// any, and else the configured one.
pub fn sender(node_accounts: &Vec<Address>, configured: Address) -> (r: Address)
    ensures
        r == node_accounts@.push(configured)[0],
        node_accounts@.len() > 0 ==> r == node_accounts@[0],
        node_accounts@.len() == 0 ==> r == configured,
{
    if node_accounts.len() > 0 {
        node_accounts[0]
    } else {
        configured
    }
}

} // verus!
