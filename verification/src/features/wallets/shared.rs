use vstd::prelude::*;
use crate::store::memory::Store;
use crate::store::protocol::{StoreReply, StoreRequest};

verus! {

/// Looks a wallet up by its exact name and returns its id. A wallet is never
/// created by a lookup: a name that no wallet has gives nothing.
pub fn get_wallet_id_by_name(store: &mut Store, wallet_name: &str) -> (r: Option<u128>)
    ensures
        final(store)@ == old(store)@,
        r == match old(store)@.wallet_named(wallet_name@) {
            Some(row) => Some(row.id),
            None => None::<u128>,
        },
{
    let request = StoreRequest::WalletIdByName { name: wallet_name.to_string() };
    match store.apply(&request) {
        StoreReply::MaybeId(id) => id,
        _ => None,
    }
}

} // verus!
