//! The sync matcher: authenticates a caller-supplied secret against a stored
//! group record and computes the spend amount and advertisement category.
//!
//! The matching rule is a stand-in for a privacy-preserving computation: it
//! compares the secret and reads the stored age directly, but its contract is
//! exactly the one a secure replacement would have to keep.

use vstd::prelude::*;

use crate::model::{AdCategory, RowV, SyncResult, SyncResultV};
use crate::registry::Registry;

verus! {

/// The advertisement category the matching rule selects for an age: the beer
/// ad from age 20 (inclusive), the juice ad below, with no special cases.
pub open spec fn ad_for_age(age: int) -> AdCategory {
    if age >= 20 {
        AdCategory::Beer
    } else {
        AdCategory::Juice
    }
}

/// What a sync query over stored rows yields: a match with the exact spend
/// amount and ad category when the group exists and the secret equals the
/// stored one, and `Unmatched` in every other case.
pub open spec fn sync_spec(rows: Map<i64, RowV>, gid: i64, secret: Seq<char>) -> SyncResultV {
    if rows.contains_key(gid) && rows[gid].secret == secret {
        SyncResultV::Matched {
            amount: rows[gid].cart.unit_price_yen * rows[gid].cart.quantity,
            ad_category: ad_for_age(rows[gid].profile.age),
        }
    } else {
        SyncResultV::Unmatched
    }
}

/// Answers a sync query against the registry: fetches the record for `gid`,
/// gates on `secret`, and on a match reports `unit price * quantity` (exact,
/// no clamping) and the age-threshold ad category.
pub fn sync(reg: &Registry, gid: i64, secret: &str) -> (r: SyncResult)
    ensures
        r@ == sync_spec(reg@, gid, secret@),
{
    match reg.fetch(gid) {
        Some(rec) => {
            let supplied: String = secret.to_owned();
            if rec.secret == supplied {
                let p = rec.cart.unit_price_yen;
                let q = rec.cart.quantity;
                proof {
                    assert((p as int) * (q as int) <= 0x7fff_ffff_ffff_ffff && (p as int) * (
                    q as int) >= -0x8000_0000_0000_0000) by (nonlinear_arith)
                        requires
                            -0x8000_0000 <= p as int <= 0x7fff_ffff,
                            -0x8000_0000 <= q as int <= 0x7fff_ffff,
                    ;
                }
                let amount: i64 = (p as i64) * (q as i64);
                let ad_category = if rec.profile.age >= 20 {
                    AdCategory::Beer
                } else {
                    AdCategory::Juice
                };
                SyncResult::Matched { amount, ad_category }
            } else {
                SyncResult::Unmatched
            }
        },
        None => SyncResult::Unmatched,
    }
}

/// Law (secret gating): a sync query matches exactly when the group exists
/// and the supplied secret equals the one stored at registration; any other
/// secret, and any unknown group id, goes unmatched.
pub proof fn lemma_secret_gating(rows: Map<i64, RowV>, gid: i64, secret: Seq<char>)
    ensures
        sync_spec(rows, gid, secret) is Matched <==> rows.contains_key(gid) && rows[gid].secret
            == secret,
        sync_spec(rows, gid, secret) is Unmatched <==> !(rows.contains_key(gid)
            && rows[gid].secret == secret),
{
}

/// Law (amount computation): a matched sync reports exactly the unit price
/// times the quantity — zero for quantity zero, negative for a negative
/// price, with no clamping — and the age-threshold category.
pub proof fn lemma_amount_computation(rows: Map<i64, RowV>, gid: i64, secret: Seq<char>)
    requires
        rows.contains_key(gid),
        rows[gid].secret == secret,
    ensures
        sync_spec(rows, gid, secret) == (SyncResultV::Matched {
            amount: rows[gid].cart.unit_price_yen * rows[gid].cart.quantity,
            ad_category: ad_for_age(rows[gid].profile.age),
        }),
{
}

/// Law (age threshold): the beer ad is selected exactly from age 20 upward;
/// 19 and below, 0 included, select the juice ad, however large the age.
pub proof fn lemma_age_threshold(age: int)
    ensures
        ad_for_age(age) == AdCategory::Beer <==> age >= 20,
        ad_for_age(age) == AdCategory::Juice <==> age < 20,
{
}

} // verus!
