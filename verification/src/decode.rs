//! The credential decoder: turns a credential-shaped JSON document into a
//! canonical envelope of claims, tolerating unrecognized extension fields.
//!
//! A document is an object carrying the envelope fields `sub`, `jti`, `iss`,
//! `nbf`, `iat`, `exp` and `nonce`, plus a `vc` object whose
//! `credentialSubject` member holds the inner claim object (`profile` or
//! `cart`). Unrecognized fields anywhere in the document are ignored; no
//! temporal or issuer validation is performed.

use vstd::prelude::*;

use crate::json::{get_spec, lemma_lookup_push, parse_json, json_text_model, Json};
use crate::model::{
    CartClaims, CartClaimsV, CartEnvelope, CartEnvelopeV, DecodeError, EnvelopeMeta, EnvelopeMetaV,
    MalformedKind, ProfileClaims, ProfileClaimsV, ProfileEnvelope, ProfileEnvelopeV,
};

verus! {

/// The value under `key` in `o`, where `o` is a lookup that may already have
/// failed and must then have yielded an object.
pub open spec fn field_of(o: Option<Json>, key: Seq<char>) -> Option<Json> {
    match o {
        Some(j) => get_spec(j, key),
        None => None,
    }
}

/// The string under `key`, if it is there and is a string.
pub open spec fn str_of(o: Option<Json>, key: Seq<char>) -> Option<Seq<char>> {
    match field_of(o, key) {
        Some(Json::Str(s)) => Some(s@),
        _ => None,
    }
}

/// The integer under `key`, if it is there and fits in a `u32`.
pub open spec fn u32_of(o: Option<Json>, key: Seq<char>) -> Option<u32> {
    match field_of(o, key) {
        Some(Json::Int(i)) => if 0 <= i && i <= u32::MAX as i64 {
            Some(i as u32)
        } else {
            None
        },
        _ => None,
    }
}

/// The integer under `key`, if it is there and fits in an `i32`.
pub open spec fn i32_of(o: Option<Json>, key: Seq<char>) -> Option<i32> {
    match field_of(o, key) {
        Some(Json::Int(i)) => if i32::MIN as i64 <= i && i <= i32::MAX as i64 {
            Some(i as i32)
        } else {
            None
        },
        _ => None,
    }
}

/// Whether `doc` carries every required envelope field with the right type.
pub open spec fn envelope_ok(doc: Json) -> bool {
    &&& str_of(Some(doc), "sub"@) is Some
    &&& str_of(Some(doc), "jti"@) is Some
    &&& str_of(Some(doc), "iss"@) is Some
    &&& u32_of(Some(doc), "nbf"@) is Some
    &&& u32_of(Some(doc), "iat"@) is Some
    &&& u32_of(Some(doc), "exp"@) is Some
    &&& str_of(Some(doc), "nonce"@) is Some
}

/// The envelope metadata of a document that satisfies [`envelope_ok`].
pub open spec fn meta_of(doc: Json) -> EnvelopeMetaV {
    EnvelopeMetaV {
        jti: str_of(Some(doc), "jti"@)->Some_0,
        iss: str_of(Some(doc), "iss"@)->Some_0,
        nbf: u32_of(Some(doc), "nbf"@)->Some_0 as int,
        iat: u32_of(Some(doc), "iat"@)->Some_0 as int,
        exp: u32_of(Some(doc), "exp"@)->Some_0 as int,
        nonce: str_of(Some(doc), "nonce"@)->Some_0,
    }
}

/// The inner profile claim object: `vc.credentialSubject.profile`.
pub open spec fn profile_obj_of(doc: Json) -> Option<Json> {
    field_of(field_of(field_of(Some(doc), "vc"@), "credentialSubject"@), "profile"@)
}

/// Whether the inner profile claim object carries every required field with
/// the right type.
pub open spec fn profile_claims_ok(doc: Json) -> bool {
    &&& str_of(profile_obj_of(doc), "name"@) is Some
    &&& u32_of(profile_obj_of(doc), "age"@) is Some
    &&& str_of(profile_obj_of(doc), "job"@) is Some
    &&& i32_of(profile_obj_of(doc), "balanceYen"@) is Some
}

/// The profile claims of a document that satisfies [`envelope_ok`] and
/// [`profile_claims_ok`].
pub open spec fn profile_claims_of(doc: Json) -> ProfileClaimsV {
    ProfileClaimsV {
        sub: str_of(Some(doc), "sub"@)->Some_0,
        name: str_of(profile_obj_of(doc), "name"@)->Some_0,
        age: u32_of(profile_obj_of(doc), "age"@)->Some_0 as int,
        job: str_of(profile_obj_of(doc), "job"@)->Some_0,
        balance_yen: i32_of(profile_obj_of(doc), "balanceYen"@)->Some_0 as int,
    }
}

/// What decoding a parsed profile document yields: the envelope and claims,
/// or the exact error. Fields beyond the recognized ones never matter.
pub open spec fn decode_profile_spec(doc: Json) -> Result<ProfileEnvelopeV, DecodeError> {
    if !envelope_ok(doc) {
        Err(DecodeError::Malformed(MalformedKind::Envelope))
    } else if !profile_claims_ok(doc) {
        Err(DecodeError::Malformed(MalformedKind::Claims))
    } else {
        Ok(ProfileEnvelopeV { meta: meta_of(doc), claims: profile_claims_of(doc) })
    }
}

/// The inner cart claim object: `vc.credentialSubject.cart`.
pub open spec fn cart_obj_of(doc: Json) -> Option<Json> {
    field_of(field_of(field_of(Some(doc), "vc"@), "credentialSubject"@), "cart"@)
}

/// Whether the inner cart claim object carries every required field with the
/// right type.
pub open spec fn cart_claims_ok(doc: Json) -> bool {
    &&& str_of(cart_obj_of(doc), "productName"@) is Some
    &&& i32_of(cart_obj_of(doc), "productPriceYen"@) is Some
    &&& i32_of(cart_obj_of(doc), "productNumber"@) is Some
}

/// The cart claims of a document that satisfies [`envelope_ok`] and
/// [`cart_claims_ok`].
pub open spec fn cart_claims_of(doc: Json) -> CartClaimsV {
    CartClaimsV {
        product_name: str_of(cart_obj_of(doc), "productName"@)->Some_0,
        unit_price_yen: i32_of(cart_obj_of(doc), "productPriceYen"@)->Some_0 as int,
        quantity: i32_of(cart_obj_of(doc), "productNumber"@)->Some_0 as int,
    }
}

/// What decoding a parsed cart document yields.
pub open spec fn decode_cart_spec(doc: Json) -> Result<CartEnvelopeV, DecodeError> {
    if !envelope_ok(doc) {
        Err(DecodeError::Malformed(MalformedKind::Envelope))
    } else if !cart_claims_ok(doc) {
        Err(DecodeError::Malformed(MalformedKind::Claims))
    } else {
        Ok(
            CartEnvelopeV {
                meta: meta_of(doc),
                sub: str_of(Some(doc), "sub"@)->Some_0,
                cart: cart_claims_of(doc),
            },
        )
    }
}

/// What decoding raw text as a profile credential yields.
pub open spec fn decode_profile_text_spec(m: Option<Json>) -> Result<ProfileEnvelopeV, DecodeError> {
    match m {
        None => Err(DecodeError::Malformed(MalformedKind::NotJson)),
        Some(doc) => decode_profile_spec(doc),
    }
}

/// What decoding raw text as a cart credential yields.
pub open spec fn decode_cart_text_spec(m: Option<Json>) -> Result<CartEnvelopeV, DecodeError> {
    match m {
        None => Err(DecodeError::Malformed(MalformedKind::NotJson)),
        Some(doc) => decode_cart_spec(doc),
    }
}

/// Whether the exec decode result `r` is exactly the specified result `s`.
pub open spec fn profile_result_is(
    r: Result<ProfileEnvelope, DecodeError>,
    s: Result<ProfileEnvelopeV, DecodeError>,
) -> bool {
    match r {
        Ok(env) => s is Ok && s->Ok_0 == env@,
        Err(e) => s is Err && s->Err_0 == e,
    }
}

/// Whether the exec decode result `r` is exactly the specified result `s`.
pub open spec fn cart_result_is(
    r: Result<CartEnvelope, DecodeError>,
    s: Result<CartEnvelopeV, DecodeError>,
) -> bool {
    match r {
        Ok(env) => s is Ok && s->Ok_0 == env@,
        Err(e) => s is Err && s->Err_0 == e,
    }
}

/// Reads the string field `key` of `j`, cloning it out.
fn get_str(j: &Json, key: &str) -> (r: Option<String>)
    ensures
        r matches Some(s) ==> str_of(Some(*j), key@) == Some(s@),
        r is None ==> str_of(Some(*j), key@) is None,
{
    match j.get(key) {
        Some(Json::Str(s)) => Some(s.clone()),
        _ => None,
    }
}

/// Reads the integer field `key` of `j` as a `u32`.
fn get_u32(j: &Json, key: &str) -> (r: Option<u32>)
    ensures
        r == u32_of(Some(*j), key@),
{
    match j.get(key) {
        Some(Json::Int(i)) => if 0 <= *i && *i <= u32::MAX as i64 {
            Some(*i as u32)
        } else {
            None
        },
        _ => None,
    }
}

/// Reads the integer field `key` of `j` as an `i32`.
fn get_i32(j: &Json, key: &str) -> (r: Option<i32>)
    ensures
        r == i32_of(Some(*j), key@),
{
    match j.get(key) {
        Some(Json::Int(i)) => if i32::MIN as i64 <= *i && *i <= i32::MAX as i64 {
            Some(*i as i32)
        } else {
            None
        },
        _ => None,
    }
}

/// Reads the envelope fields of a document.
fn extract_meta(doc: &Json) -> (r: Result<(EnvelopeMeta, String), DecodeError>)
    ensures
        r matches Ok(p) ==> envelope_ok(*doc) && p.0@ == meta_of(*doc) && Some(p.1@) == str_of(
            Some(*doc),
            "sub"@,
        ),
        r matches Err(e) ==> !envelope_ok(*doc) && e == DecodeError::Malformed(
            MalformedKind::Envelope,
        ),
{
    let err = DecodeError::Malformed(MalformedKind::Envelope);
    let sub = match get_str(doc, "sub") {
        Some(s) => s,
        None => {
            return Err(err);
        },
    };
    let jti = match get_str(doc, "jti") {
        Some(s) => s,
        None => {
            return Err(err);
        },
    };
    let iss = match get_str(doc, "iss") {
        Some(s) => s,
        None => {
            return Err(err);
        },
    };
    let nbf = match get_u32(doc, "nbf") {
        Some(v) => v,
        None => {
            return Err(err);
        },
    };
    let iat = match get_u32(doc, "iat") {
        Some(v) => v,
        None => {
            return Err(err);
        },
    };
    let exp = match get_u32(doc, "exp") {
        Some(v) => v,
        None => {
            return Err(err);
        },
    };
    let nonce = match get_str(doc, "nonce") {
        Some(s) => s,
        None => {
            return Err(err);
        },
    };
    Ok((EnvelopeMeta { jti, iss, nbf, iat, exp, nonce }, sub))
}

/// Decodes an already-parsed profile document.
pub fn extract_profile(doc: &Json) -> (r: Result<ProfileEnvelope, DecodeError>)
    ensures
        profile_result_is(r, decode_profile_spec(*doc)),
{
    let err = DecodeError::Malformed(MalformedKind::Claims);
    let (meta, sub) = match extract_meta(doc) {
        Ok(p) => p,
        Err(e) => {
            return Err(e);
        },
    };
    let vc = match doc.get("vc") {
        Some(v) => v,
        None => {
            return Err(err);
        },
    };
    let cs = match vc.get("credentialSubject") {
        Some(v) => v,
        None => {
            return Err(err);
        },
    };
    let pobj = match cs.get("profile") {
        Some(v) => v,
        None => {
            return Err(err);
        },
    };
    proof {
        assert(profile_obj_of(*doc) == Some(*pobj)) by {
            assert(field_of(Some(*doc), "vc"@) == Some(*vc));
            assert(field_of(Some(*vc), "credentialSubject"@) == Some(*cs));
            assert(field_of(Some(*cs), "profile"@) == Some(*pobj));
        }
    }
    let name = match get_str(pobj, "name") {
        Some(s) => s,
        None => {
            return Err(err);
        },
    };
    let age = match get_u32(pobj, "age") {
        Some(v) => v,
        None => {
            return Err(err);
        },
    };
    let job = match get_str(pobj, "job") {
        Some(s) => s,
        None => {
            return Err(err);
        },
    };
    let balance_yen = match get_i32(pobj, "balanceYen") {
        Some(v) => v,
        None => {
            return Err(err);
        },
    };
    Ok(ProfileEnvelope { meta, claims: ProfileClaims { sub, name, age, job, balance_yen } })
}

/// Decodes an already-parsed cart document.
pub fn extract_cart(doc: &Json) -> (r: Result<CartEnvelope, DecodeError>)
    ensures
        cart_result_is(r, decode_cart_spec(*doc)),
{
    let err = DecodeError::Malformed(MalformedKind::Claims);
    let (meta, sub) = match extract_meta(doc) {
        Ok(p) => p,
        Err(e) => {
            return Err(e);
        },
    };
    let vc = match doc.get("vc") {
        Some(v) => v,
        None => {
            return Err(err);
        },
    };
    let cs = match vc.get("credentialSubject") {
        Some(v) => v,
        None => {
            return Err(err);
        },
    };
    let cobj = match cs.get("cart") {
        Some(v) => v,
        None => {
            return Err(err);
        },
    };
    proof {
        assert(cart_obj_of(*doc) == Some(*cobj)) by {
            assert(field_of(Some(*doc), "vc"@) == Some(*vc));
            assert(field_of(Some(*vc), "credentialSubject"@) == Some(*cs));
            assert(field_of(Some(*cs), "cart"@) == Some(*cobj));
        }
    }
    let product_name = match get_str(cobj, "productName") {
        Some(s) => s,
        None => {
            return Err(err);
        },
    };
    let unit_price_yen = match get_i32(cobj, "productPriceYen") {
        Some(v) => v,
        None => {
            return Err(err);
        },
    };
    let quantity = match get_i32(cobj, "productNumber") {
        Some(v) => v,
        None => {
            return Err(err);
        },
    };
    Ok(CartEnvelope { meta, sub, cart: CartClaims { product_name, unit_price_yen, quantity } })
}

/// The top-level keys the decoder recognizes: the envelope fields and the
/// claim section `vc`.
pub open spec fn doc_keys(k: Seq<char>) -> bool {
    ||| k == "sub"@
    ||| k == "jti"@
    ||| k == "iss"@
    ||| k == "nbf"@
    ||| k == "iat"@
    ||| k == "exp"@
    ||| k == "nonce"@
    ||| k == "vc"@
}

/// Law (open schema): profile decoding reads a document only through its
/// recognized top-level fields and through `vc.credentialSubject`; two
/// documents that agree there decode identically.
pub proof fn lemma_profile_decode_congruence(d1: Json, d2: Json)
    requires
        forall|k: Seq<char>| doc_keys(k) ==> #[trigger] get_spec(d1, k) == get_spec(d2, k),
    ensures
        decode_profile_spec(d1) == decode_profile_spec(d2),
{
    assert(get_spec(d1, "sub"@) == get_spec(d2, "sub"@));
    assert(get_spec(d1, "jti"@) == get_spec(d2, "jti"@));
    assert(get_spec(d1, "iss"@) == get_spec(d2, "iss"@));
    assert(get_spec(d1, "nbf"@) == get_spec(d2, "nbf"@));
    assert(get_spec(d1, "iat"@) == get_spec(d2, "iat"@));
    assert(get_spec(d1, "exp"@) == get_spec(d2, "exp"@));
    assert(get_spec(d1, "nonce"@) == get_spec(d2, "nonce"@));
    assert(get_spec(d1, "vc"@) == get_spec(d2, "vc"@));
    assert(profile_obj_of(d1) == profile_obj_of(d2));
    assert(envelope_ok(d1) == envelope_ok(d2));
    assert(profile_claims_ok(d1) == profile_claims_ok(d2));
}

/// Law (open schema): cart decoding reads a document only through its
/// recognized top-level fields and through `vc.credentialSubject`.
pub proof fn lemma_cart_decode_congruence(d1: Json, d2: Json)
    requires
        forall|k: Seq<char>| doc_keys(k) ==> #[trigger] get_spec(d1, k) == get_spec(d2, k),
    ensures
        decode_cart_spec(d1) == decode_cart_spec(d2),
{
    assert(get_spec(d1, "sub"@) == get_spec(d2, "sub"@));
    assert(get_spec(d1, "jti"@) == get_spec(d2, "jti"@));
    assert(get_spec(d1, "iss"@) == get_spec(d2, "iss"@));
    assert(get_spec(d1, "nbf"@) == get_spec(d2, "nbf"@));
    assert(get_spec(d1, "iat"@) == get_spec(d2, "iat"@));
    assert(get_spec(d1, "exp"@) == get_spec(d2, "exp"@));
    assert(get_spec(d1, "nonce"@) == get_spec(d2, "nonce"@));
    assert(get_spec(d1, "vc"@) == get_spec(d2, "vc"@));
    assert(cart_obj_of(d1) == cart_obj_of(d2));
    assert(envelope_ok(d1) == envelope_ok(d2));
    assert(cart_claims_ok(d1) == cart_claims_ok(d2));
}

/// Law (decoder tolerance): a profile document with one more unrecognized
/// top-level field decodes exactly as without it.
pub proof fn lemma_profile_tolerates_extra_top(
    v1: Vec<(String, Json)>,
    v2: Vec<(String, Json)>,
    extra: (String, Json),
)
    requires
        v2@ == v1@.push(extra),
        !doc_keys(extra.0@),
    ensures
        decode_profile_spec(Json::Obj(v2)) == decode_profile_spec(Json::Obj(v1)),
{
    assert forall|k: Seq<char>| doc_keys(k) implies get_spec(Json::Obj(v1), k) == get_spec(
        Json::Obj(v2),
        k,
    ) by {
        lemma_lookup_push(v1@, k, extra, 0);
    }
    lemma_profile_decode_congruence(Json::Obj(v1), Json::Obj(v2));
}

/// Law (decoder tolerance): a profile document whose claim section carries
/// one more field under a key other than `credentialSubject` decodes exactly
/// as without it. `d1` and `d2` agree on every recognized top-level field but
/// `vc`, whose object in `d2` is that of `d1` with the extra field appended.
pub proof fn lemma_profile_tolerates_extra_claim(
    d1: Json,
    d2: Json,
    w1: Vec<(String, Json)>,
    w2: Vec<(String, Json)>,
    extra: (String, Json),
)
    requires
        forall|k: Seq<char>| doc_keys(k) && k != "vc"@ ==> #[trigger] get_spec(d1, k) == get_spec(d2, k),
        get_spec(d1, "vc"@) == Some(Json::Obj(w1)),
        get_spec(d2, "vc"@) == Some(Json::Obj(w2)),
        w2@ == w1@.push(extra),
        extra.0@ != "credentialSubject"@,
    ensures
        decode_profile_spec(d2) == decode_profile_spec(d1),
{
    reveal_strlit("sub");
    reveal_strlit("jti");
    reveal_strlit("iss");
    reveal_strlit("nbf");
    reveal_strlit("iat");
    reveal_strlit("exp");
    reveal_strlit("nonce");
    reveal_strlit("vc");
    assert("sub"@.len() == 3);
    assert("jti"@.len() == 3);
    assert("iss"@.len() == 3);
    assert("nbf"@.len() == 3);
    assert("iat"@.len() == 3);
    assert("exp"@.len() == 3);
    assert("nonce"@.len() == 5);
    assert("vc"@.len() == 2);
    lemma_lookup_push(w1@, "credentialSubject"@, extra, 0);
    assert(get_spec(Json::Obj(w2), "credentialSubject"@) == get_spec(
        Json::Obj(w1),
        "credentialSubject"@,
    ));
    assert(profile_obj_of(d1) == profile_obj_of(d2)) by {
        assert(field_of(Some(d1), "vc"@) == Some(Json::Obj(w1)));
        assert(field_of(Some(d2), "vc"@) == Some(Json::Obj(w2)));
    }
    assert(get_spec(d1, "sub"@) == get_spec(d2, "sub"@));
    assert(get_spec(d1, "jti"@) == get_spec(d2, "jti"@));
    assert(get_spec(d1, "iss"@) == get_spec(d2, "iss"@));
    assert(get_spec(d1, "nbf"@) == get_spec(d2, "nbf"@));
    assert(get_spec(d1, "iat"@) == get_spec(d2, "iat"@));
    assert(get_spec(d1, "exp"@) == get_spec(d2, "exp"@));
    assert(get_spec(d1, "nonce"@) == get_spec(d2, "nonce"@));
    assert(envelope_ok(d1) == envelope_ok(d2));
    assert(profile_claims_ok(d1) == profile_claims_ok(d2));
}

/// Law (decoder tolerance): the cart counterpart of
/// [`lemma_profile_tolerates_extra_claim`].
pub proof fn lemma_cart_tolerates_extra_claim(
    d1: Json,
    d2: Json,
    w1: Vec<(String, Json)>,
    w2: Vec<(String, Json)>,
    extra: (String, Json),
)
    requires
        forall|k: Seq<char>| doc_keys(k) && k != "vc"@ ==> #[trigger] get_spec(d1, k) == get_spec(d2, k),
        get_spec(d1, "vc"@) == Some(Json::Obj(w1)),
        get_spec(d2, "vc"@) == Some(Json::Obj(w2)),
        w2@ == w1@.push(extra),
        extra.0@ != "credentialSubject"@,
    ensures
        decode_cart_spec(d2) == decode_cart_spec(d1),
{
    reveal_strlit("sub");
    reveal_strlit("jti");
    reveal_strlit("iss");
    reveal_strlit("nbf");
    reveal_strlit("iat");
    reveal_strlit("exp");
    reveal_strlit("nonce");
    reveal_strlit("vc");
    assert("sub"@.len() == 3);
    assert("jti"@.len() == 3);
    assert("iss"@.len() == 3);
    assert("nbf"@.len() == 3);
    assert("iat"@.len() == 3);
    assert("exp"@.len() == 3);
    assert("nonce"@.len() == 5);
    assert("vc"@.len() == 2);
    lemma_lookup_push(w1@, "credentialSubject"@, extra, 0);
    assert(get_spec(Json::Obj(w2), "credentialSubject"@) == get_spec(
        Json::Obj(w1),
        "credentialSubject"@,
    ));
    assert(cart_obj_of(d1) == cart_obj_of(d2)) by {
        assert(field_of(Some(d1), "vc"@) == Some(Json::Obj(w1)));
        assert(field_of(Some(d2), "vc"@) == Some(Json::Obj(w2)));
    }
    assert(get_spec(d1, "sub"@) == get_spec(d2, "sub"@));
    assert(get_spec(d1, "jti"@) == get_spec(d2, "jti"@));
    assert(get_spec(d1, "iss"@) == get_spec(d2, "iss"@));
    assert(get_spec(d1, "nbf"@) == get_spec(d2, "nbf"@));
    assert(get_spec(d1, "iat"@) == get_spec(d2, "iat"@));
    assert(get_spec(d1, "exp"@) == get_spec(d2, "exp"@));
    assert(get_spec(d1, "nonce"@) == get_spec(d2, "nonce"@));
    assert(envelope_ok(d1) == envelope_ok(d2));
    assert(cart_claims_ok(d1) == cart_claims_ok(d2));
}

/// Decodes raw text as a profile credential: parses it as JSON and extracts
/// the envelope and profile claims, rejecting a structurally invalid
/// document with the exact error the specification functions give.
pub fn decode_profile(raw: &str) -> (r: Result<ProfileEnvelope, DecodeError>)
    ensures
        profile_result_is(r, decode_profile_text_spec(json_text_model(raw@))),
{
    match parse_json(raw) {
        Some(doc) => extract_profile(&doc),
        None => Err(DecodeError::Malformed(MalformedKind::NotJson)),
    }
}

/// Decodes raw text as a cart credential.
pub fn decode_cart(raw: &str) -> (r: Result<CartEnvelope, DecodeError>)
    ensures
        cart_result_is(r, decode_cart_text_spec(json_text_model(raw@))),
{
    match parse_json(raw) {
        Some(doc) => extract_cart(&doc),
        None => Err(DecodeError::Malformed(MalformedKind::NotJson)),
    }
}

} // verus!
