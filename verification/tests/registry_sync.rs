use group_sync::matcher::sync;
use group_sync::model::{CartClaims, ProfileClaims, StoreError, SyncResult};
use group_sync::registry::Registry;

fn profile(sub: &str, name: &str, age: u32, job: &str, balance: i32) -> ProfileClaims {
    ProfileClaims {
        sub: sub.to_owned(),
        name: name.to_owned(),
        age,
        job: job.to_owned(),
        balance_yen: balance,
    }
}

fn cart(product: &str, price: i32, quantity: i32) -> CartClaims {
    CartClaims { product_name: product.to_owned(), unit_price_yen: price, quantity }
}

fn register(reg: &mut Registry, age: u32, price: i32, quantity: i32, secret: &str) -> i64 {
    reg.upsert(
        group_sync::UNASSIGNED_GROUP_ID,
        profile("did:example:alice", "Alice", age, "engineer", 1000),
        cart("wine", price, quantity),
        secret.to_owned(),
    )
    .unwrap()
}

#[test]
fn assigned_ids_are_strictly_increasing() {
    let mut reg = Registry::new().unwrap();
    let id1 = register(&mut reg, 25, 2000, 3, "s1");
    let id2 = register(&mut reg, 30, 100, 1, "s2");
    let id3 = register(&mut reg, 40, 50, 2, "s3");
    assert!(id1 >= 1);
    assert!(id2 > id1);
    assert!(id3 > id2);
}

#[test]
fn update_replaces_fields_without_duplicating() {
    let mut reg = Registry::new().unwrap();
    let id = register(&mut reg, 25, 2000, 3, "s1");
    let next_free = id + 1;

    let returned = reg
        .upsert(id, profile("did:example:bob", "Bob", 31, "writer", 7), cart("tea", 500, 4), "ignored".to_owned())
        .unwrap();
    assert_eq!(returned, id);

    let rec = reg.fetch(id).unwrap();
    assert_eq!(rec.gid, id);
    assert_eq!(rec.profile.sub, "did:example:bob");
    assert_eq!(rec.profile.name, "Bob");
    assert_eq!(rec.profile.age, 31);
    assert_eq!(rec.profile.job, "writer");
    assert_eq!(rec.profile.balance_yen, 7);
    assert_eq!(rec.cart.product_name, "tea");
    assert_eq!(rec.cart.unit_price_yen, 500);
    assert_eq!(rec.cart.quantity, 4);

    // no second record was created
    assert!(reg.fetch(next_free).is_none());
}

#[test]
fn update_keeps_the_stored_secret() {
    let mut reg = Registry::new().unwrap();
    let id = register(&mut reg, 25, 2000, 3, "s1");
    reg.upsert(id, profile("s", "A", 22, "j", 0), cart("p", 10, 2), "other".to_owned()).unwrap();
    assert!(matches!(sync(&reg, id, "s1"), SyncResult::Matched { .. }));
    assert!(matches!(sync(&reg, id, "other"), SyncResult::Unmatched));
}

#[test]
fn update_of_unknown_id_is_not_found_and_changes_nothing() {
    let mut reg = Registry::new().unwrap();
    let id = register(&mut reg, 25, 2000, 3, "s1");

    let r = reg.upsert(id + 7, profile("x", "X", 1, "y", 2), cart("z", 3, 4), "s9".to_owned());
    assert_eq!(r.unwrap_err(), StoreError::NotFound);

    // the failed update left the prior state fully intact
    assert!(reg.fetch(id + 7).is_none());
    let rec = reg.fetch(id).unwrap();
    assert_eq!(rec.profile.name, "Alice");
    assert_eq!(rec.cart.product_name, "wine");
    assert_eq!(rec.cart.unit_price_yen, 2000);
    assert_eq!(rec.cart.quantity, 3);
}

#[test]
fn fetch_of_unknown_id_is_none() {
    let reg = Registry::new().unwrap();
    assert!(reg.fetch(1).is_none());
    assert!(reg.fetch(999).is_none());
}

#[test]
fn sync_is_gated_by_the_secret() {
    let mut reg = Registry::new().unwrap();
    let id = register(&mut reg, 25, 2000, 3, "s1");
    assert!(matches!(sync(&reg, id, "s1"), SyncResult::Matched { .. }));
    assert!(matches!(sync(&reg, id, "wrong"), SyncResult::Unmatched));
    assert!(matches!(sync(&reg, id, ""), SyncResult::Unmatched));
    assert!(matches!(sync(&reg, 999, "s1"), SyncResult::Unmatched));
}

#[test]
fn amount_is_price_times_quantity() {
    let mut reg = Registry::new().unwrap();
    let id = register(&mut reg, 25, 2000, 3, "s1");
    match sync(&reg, id, "s1") {
        SyncResult::Matched { amount, .. } => assert_eq!(amount, 6000),
        SyncResult::Unmatched => panic!("expected a match"),
    }
}

#[test]
fn amount_for_zero_quantity_is_zero() {
    let mut reg = Registry::new().unwrap();
    let id = register(&mut reg, 25, 2000, 0, "s1");
    match sync(&reg, id, "s1") {
        SyncResult::Matched { amount, .. } => assert_eq!(amount, 0),
        SyncResult::Unmatched => panic!("expected a match"),
    }
}

#[test]
fn amount_for_negative_price_is_negative() {
    let mut reg = Registry::new().unwrap();
    let id = register(&mut reg, 25, -150, 3, "s1");
    match sync(&reg, id, "s1") {
        SyncResult::Matched { amount, .. } => assert_eq!(amount, -450),
        SyncResult::Unmatched => panic!("expected a match"),
    }
}

#[test]
fn amount_of_extreme_factors_does_not_overflow() {
    let mut reg = Registry::new().unwrap();
    let id = register(&mut reg, 25, i32::MIN, i32::MIN, "s1");
    match sync(&reg, id, "s1") {
        SyncResult::Matched { amount, .. } => assert_eq!(amount, (i32::MIN as i64) * (i32::MIN as i64)),
        SyncResult::Unmatched => panic!("expected a match"),
    }
}

#[test]
fn age_threshold_is_inclusive_at_twenty() {
    let mut reg = Registry::new().unwrap();
    let at20 = register(&mut reg, 20, 100, 1, "s");
    let at19 = register(&mut reg, 19, 100, 1, "s");
    let at0 = register(&mut reg, 0, 100, 1, "s");
    let huge = register(&mut reg, u32::MAX, 100, 1, "s");
    let label = |r: SyncResult| match r {
        SyncResult::Matched { ad_category, .. } => ad_category.label(),
        SyncResult::Unmatched => panic!("expected a match"),
    };
    assert_eq!(label(sync(&reg, at20, "s")), "beer_ad");
    assert_eq!(label(sync(&reg, at19, "s")), "juice_ad");
    assert_eq!(label(sync(&reg, at0, "s")), "juice_ad");
    assert_eq!(label(sync(&reg, huge, "s")), "beer_ad");
}

#[test]
fn end_to_end_registration_and_sync() {
    let profile_text = r#"{"sub":"did:example:alice","jti":"t1","iss":"iss1","nbf":1,"iat":2,"exp":3,"nonce":"n1","vc":{"credentialSubject":{"profile":{"name":"Alice","age":25,"job":"engineer","balanceYen":1000}}}}"#;
    let cart_text = r#"{"sub":"did:example:alice","jti":"t2","iss":"iss1","nbf":1,"iat":2,"exp":3,"nonce":"n2","vc":{"credentialSubject":{"cart":{"productName":"wine","productPriceYen":2000,"productNumber":3}}}}"#;

    let prof = group_sync::decode::decode_profile(profile_text).unwrap();
    let crt = group_sync::decode::decode_cart(cart_text).unwrap();

    let mut reg = Registry::new().unwrap();
    let id = reg.upsert(0, prof.claims, crt.cart, "s1".to_owned()).unwrap();
    assert_eq!(id, 1);

    match sync(&reg, id, "s1") {
        SyncResult::Matched { amount, ad_category } => {
            assert_eq!(amount, 6000);
            assert_eq!(ad_category.label(), "beer_ad");
        },
        SyncResult::Unmatched => panic!("expected a match"),
    }
    assert!(matches!(sync(&reg, id, "wrong"), SyncResult::Unmatched));
    assert!(matches!(sync(&reg, 999, "s1"), SyncResult::Unmatched));
}
