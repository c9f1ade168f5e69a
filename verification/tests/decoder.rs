use group_sync::decode::{decode_cart, decode_profile};
use group_sync::model::{DecodeError, MalformedKind};

fn profile_doc(name: &str, age: u32, job: &str, balance: i32) -> String {
    format!(
        r#"{{"sub":"did:example:alice","jti":"tok-1","iss":"issuer-a","nbf":10,"iat":11,"exp":12,"nonce":"n-1","vc":{{"credentialSubject":{{"profile":{{"name":"{}","age":{},"job":"{}","balanceYen":{}}}}}}}}}"#,
        name, age, job, balance
    )
}

fn cart_doc(product: &str, price: i32, number: i32) -> String {
    format!(
        r#"{{"sub":"did:example:alice","jti":"tok-2","iss":"issuer-a","nbf":20,"iat":21,"exp":22,"nonce":"n-2","vc":{{"credentialSubject":{{"cart":{{"productName":"{}","productPriceYen":{},"productNumber":{}}}}}}}}}"#,
        product, price, number
    )
}

#[test]
fn profile_decodes_exactly() {
    let env = decode_profile(&profile_doc("Alice", 25, "engineer", 1000)).unwrap();
    assert_eq!(env.claims.sub, "did:example:alice");
    assert_eq!(env.claims.name, "Alice");
    assert_eq!(env.claims.age, 25);
    assert_eq!(env.claims.job, "engineer");
    assert_eq!(env.claims.balance_yen, 1000);
    assert_eq!(env.meta.jti, "tok-1");
    assert_eq!(env.meta.iss, "issuer-a");
    assert_eq!(env.meta.nbf, 10);
    assert_eq!(env.meta.iat, 11);
    assert_eq!(env.meta.exp, 12);
    assert_eq!(env.meta.nonce, "n-1");
}

#[test]
fn cart_decodes_exactly() {
    let env = decode_cart(&cart_doc("wine", 2000, 3)).unwrap();
    assert_eq!(env.sub, "did:example:alice");
    assert_eq!(env.cart.product_name, "wine");
    assert_eq!(env.cart.unit_price_yen, 2000);
    assert_eq!(env.cart.quantity, 3);
    assert_eq!(env.meta.nonce, "n-2");
}

#[test]
fn extra_claim_fields_are_tolerated() {
    let doc = r#"{"sub":"s","jti":"j","iss":"i","nbf":1,"iat":2,"exp":3,"nonce":"n","extraTop":[1,2,3],"vc":{"@context":"https://example.test/v1","type":["VerifiableCredential"],"proof":{"alg":"none"},"credentialSubject":{"profile":{"name":"Bob","age":19,"job":"student","balanceYen":-50},"id":"x"}}}"#;
    let env = decode_profile(doc).unwrap();
    assert_eq!(env.claims.name, "Bob");
    assert_eq!(env.claims.age, 19);
    assert_eq!(env.claims.job, "student");
    assert_eq!(env.claims.balance_yen, -50);
}

#[test]
fn extra_cart_fields_are_tolerated() {
    let doc = r#"{"sub":"s","jti":"j","iss":"i","nbf":1,"iat":2,"exp":3,"nonce":"n","vc":{"evidence":{"kind":"receipt","score":0.5},"credentialSubject":{"cart":{"productName":"tea","productPriceYen":500,"productNumber":0,"discount":null}}}}"#;
    let env = decode_cart(doc).unwrap();
    assert_eq!(env.cart.product_name, "tea");
    assert_eq!(env.cart.unit_price_yen, 500);
    assert_eq!(env.cart.quantity, 0);
}

#[test]
fn not_json_is_rejected() {
    let r = decode_profile("this is not json");
    assert_eq!(r.unwrap_err(), DecodeError::Malformed(MalformedKind::NotJson));
}

#[test]
fn missing_envelope_field_is_rejected() {
    // no "nonce"
    let doc = r#"{"sub":"s","jti":"j","iss":"i","nbf":1,"iat":2,"exp":3,"vc":{"credentialSubject":{"profile":{"name":"A","age":1,"job":"x","balanceYen":0}}}}"#;
    let r = decode_profile(doc);
    assert_eq!(r.unwrap_err(), DecodeError::Malformed(MalformedKind::Envelope));
}

#[test]
fn wrong_envelope_field_type_is_rejected() {
    // "nbf" is a string, not an integer
    let doc = r#"{"sub":"s","jti":"j","iss":"i","nbf":"soon","iat":2,"exp":3,"nonce":"n","vc":{"credentialSubject":{"profile":{"name":"A","age":1,"job":"x","balanceYen":0}}}}"#;
    let r = decode_profile(doc);
    assert_eq!(r.unwrap_err(), DecodeError::Malformed(MalformedKind::Envelope));
}

#[test]
fn missing_claim_field_is_rejected() {
    // profile lacks "age"
    let doc = r#"{"sub":"s","jti":"j","iss":"i","nbf":1,"iat":2,"exp":3,"nonce":"n","vc":{"credentialSubject":{"profile":{"name":"A","job":"x","balanceYen":0}}}}"#;
    let r = decode_profile(doc);
    assert_eq!(r.unwrap_err(), DecodeError::Malformed(MalformedKind::Claims));
}

#[test]
fn wrong_claim_field_type_is_rejected() {
    // a negative age does not fit the unsigned age field
    let doc = r#"{"sub":"s","jti":"j","iss":"i","nbf":1,"iat":2,"exp":3,"nonce":"n","vc":{"credentialSubject":{"profile":{"name":"A","age":-1,"job":"x","balanceYen":0}}}}"#;
    let r = decode_profile(doc);
    assert_eq!(r.unwrap_err(), DecodeError::Malformed(MalformedKind::Claims));
}

#[test]
fn missing_claim_object_is_rejected() {
    let doc = r#"{"sub":"s","jti":"j","iss":"i","nbf":1,"iat":2,"exp":3,"nonce":"n","vc":{}}"#;
    let r = decode_cart(doc);
    assert_eq!(r.unwrap_err(), DecodeError::Malformed(MalformedKind::Claims));
}
