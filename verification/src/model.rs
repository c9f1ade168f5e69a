//! Shared data model: claims decoded from credential documents, the stored
//! group record, and the result and error types of the public operations.

use vstd::prelude::*;

verus! {

/// Profile claims carried by a registration: the subject they describe and
/// the personal fields the matcher later reads.
#[derive(Debug)]
pub struct ProfileClaims {
    pub sub: String,
    pub name: String,
    pub age: u32,
    pub job: String,
    pub balance_yen: i32,
}

/// Mathematical value of [`ProfileClaims`].
pub ghost struct ProfileClaimsV {
    pub sub: Seq<char>,
    pub name: Seq<char>,
    pub age: int,
    pub job: Seq<char>,
    pub balance_yen: int,
}

impl View for ProfileClaims {
    type V = ProfileClaimsV;

    open spec fn view(&self) -> ProfileClaimsV {
        ProfileClaimsV {
            sub: self.sub@,
            name: self.name@,
            age: self.age as int,
            job: self.job@,
            balance_yen: self.balance_yen as int,
        }
    }
}

/// Cart claims carried by a registration: one product line.
#[derive(Debug)]
pub struct CartClaims {
    pub product_name: String,
    pub unit_price_yen: i32,
    pub quantity: i32,
}

/// Mathematical value of [`CartClaims`].
pub ghost struct CartClaimsV {
    pub product_name: Seq<char>,
    pub unit_price_yen: int,
    pub quantity: int,
}

impl View for CartClaims {
    type V = CartClaimsV;

    open spec fn view(&self) -> CartClaimsV {
        CartClaimsV {
            product_name: self.product_name@,
            unit_price_yen: self.unit_price_yen as int,
            quantity: self.quantity as int,
        }
    }
}

/// Envelope metadata that a credential document carries besides its claims.
/// It is decoded and carried through; no temporal or issuer validation is
/// performed on it.
#[derive(Debug)]
pub struct EnvelopeMeta {
    pub jti: String,
    pub iss: String,
    pub nbf: u32,
    pub iat: u32,
    pub exp: u32,
    pub nonce: String,
}

/// Mathematical value of [`EnvelopeMeta`].
pub ghost struct EnvelopeMetaV {
    pub jti: Seq<char>,
    pub iss: Seq<char>,
    pub nbf: int,
    pub iat: int,
    pub exp: int,
    pub nonce: Seq<char>,
}

impl View for EnvelopeMeta {
    type V = EnvelopeMetaV;

    open spec fn view(&self) -> EnvelopeMetaV {
        EnvelopeMetaV {
            jti: self.jti@,
            iss: self.iss@,
            nbf: self.nbf as int,
            iat: self.iat as int,
            exp: self.exp as int,
            nonce: self.nonce@,
        }
    }
}

/// A decoded profile credential: envelope metadata plus the profile claims.
#[derive(Debug)]
pub struct ProfileEnvelope {
    pub meta: EnvelopeMeta,
    pub claims: ProfileClaims,
}

/// Mathematical value of [`ProfileEnvelope`].
pub ghost struct ProfileEnvelopeV {
    pub meta: EnvelopeMetaV,
    pub claims: ProfileClaimsV,
}

impl View for ProfileEnvelope {
    type V = ProfileEnvelopeV;

    open spec fn view(&self) -> ProfileEnvelopeV {
        ProfileEnvelopeV { meta: self.meta@, claims: self.claims@ }
    }
}

/// A decoded cart credential: envelope metadata, the subject, and the cart.
#[derive(Debug)]
pub struct CartEnvelope {
    pub meta: EnvelopeMeta,
    pub sub: String,
    pub cart: CartClaims,
}

/// Mathematical value of [`CartEnvelope`].
pub ghost struct CartEnvelopeV {
    pub meta: EnvelopeMetaV,
    pub sub: Seq<char>,
    pub cart: CartClaimsV,
}

impl View for CartEnvelope {
    type V = CartEnvelopeV;

    open spec fn view(&self) -> CartEnvelopeV {
        CartEnvelopeV { meta: self.meta@, sub: self.sub@, cart: self.cart@ }
    }
}

/// Why a credential document was rejected by the decoder.
#[derive(Clone, Copy, Debug, PartialEq, Eq, Structural)]
pub enum MalformedKind {
    /// The text is not a JSON document at all.
    NotJson,
    /// A required envelope field is missing or has the wrong type.
    Envelope,
    /// The inner claim object is missing or its required fields are
    /// missing or have the wrong type.
    Claims,
}

/// Decoder error: the input document is structurally invalid.
#[derive(Clone, Copy, Debug, PartialEq, Eq, Structural)]
pub enum DecodeError {
    Malformed(MalformedKind),
}

/// Registry error.
#[derive(Clone, Copy, Debug, PartialEq, Eq, Structural)]
pub enum StoreError {
    /// An update targeted a group id that holds no record.
    NotFound,
    /// The storage engine failed; the prior state is unchanged.
    TransactionFailed,
}

/// The advertisement category the matcher selects from the stored age.
#[derive(Clone, Copy, Debug, PartialEq, Eq, Structural)]
pub enum AdCategory {
    Beer,
    Juice,
}

impl AdCategory {
    /// The wire label of the category.
    pub open spec fn label_spec(self) -> Seq<char> {
        match self {
            AdCategory::Beer => "beer_ad"@,
            AdCategory::Juice => "juice_ad"@,
        }
    }

    /// Returns the wire label of the category.
    pub fn label(&self) -> (r: String)
        ensures
            r@ == self.label_spec(),
    {
        match self {
            AdCategory::Beer => "beer_ad".to_owned(),
            AdCategory::Juice => "juice_ad".to_owned(),
        }
    }
}

/// Outcome of a sync query. `Unmatched` is a defined, expected outcome of a
/// wrong secret or an unknown group id, never a fault.
pub enum SyncResult {
    Matched { amount: i64, ad_category: AdCategory },
    Unmatched,
}

/// Mathematical value of [`SyncResult`].
pub ghost enum SyncResultV {
    Matched { amount: int, ad_category: AdCategory },
    Unmatched,
}

impl View for SyncResult {
    type V = SyncResultV;

    open spec fn view(&self) -> SyncResultV {
        match self {
            SyncResult::Matched { amount, ad_category } => SyncResultV::Matched {
                amount: *amount as int,
                ad_category: *ad_category,
            },
            SyncResult::Unmatched => SyncResultV::Unmatched,
        }
    }
}

/// A stored group record: the unit of registry storage.
#[derive(Debug)]
pub struct GroupRecord {
    pub gid: i64,
    pub secret: String,
    pub profile: ProfileClaims,
    pub cart: CartClaims,
}

/// What the registry stores under one group id: everything of a record but
/// the id itself, which is the key.
pub ghost struct RowV {
    pub secret: Seq<char>,
    pub profile: ProfileClaimsV,
    pub cart: CartClaimsV,
}

impl GroupRecord {
    /// The stored part of the record, as the registry models it.
    pub open spec fn row(&self) -> RowV {
        RowV { secret: self.secret@, profile: self.profile@, cart: self.cart@ }
    }
}

} // verus!
