use vstd::prelude::*;
use vstd::utf8::encode_utf8;
use crate::auth::authentication::{representable_timestamp, token_outcome, AuthError, AuthenticateUser};
use crate::enums::roles_enum::RolesEnum;
use crate::enums::subscription_enum::SubscriptionType;
use crate::utils::id_generator::{generate_uuid, is_lower_hex_digit, is_uuid_v4_text};
use crate::utils::password_helper::{hash_password, lower_hex, sha256_digest};
use crate::utils::text::without_hyphens;

verus! {

/// What a customer submits to register.
#[derive(Debug, Clone)]
pub struct RegisterCustomer {
    pub reference: Option<String>,
    pub name: String,
    pub address: String,
    pub phone: String,
    pub subscription_type: SubscriptionType,
    pub email: String,
    pub password: String,
}

/// The stored login record of a customer.
#[derive(Debug, Clone)]
pub struct CustomerCredentials {
    pub email: String,
    pub password: String,
    pub role: RolesEnum,
    pub reference: Option<String>,
}

/// The stored profile of a customer.
#[derive(Debug, Clone)]
pub struct CustomerProfile {
    pub reference: String,
    pub email: String,
    pub name: String,
    pub address: String,
    pub phone: String,
    pub subscription_type: SubscriptionType,
}

/// The prefix of every customer reference.
pub open spec fn customer_prefix() -> Seq<char> {
    "customer_"@
}

/// The stored form of a password: its SHA-256 digest in lowercase hex.
pub open spec fn stored_password(password: Seq<char>) -> Seq<char> {
    lower_hex(sha256_digest(encode_utf8(password)))
}

impl RegisterCustomer {
    /// A fresh customer reference: `customer_` followed by the 32
    /// hexadecimal digits of a random UUID.
    pub fn new_reference() -> (r: String)
        ensures
            exists|u: Seq<char>| is_uuid_v4_text(u) && r@ == without_hyphens(customer_prefix() + u),
    {
        proof {
            reveal_strlit("customer_");
        }
        generate_uuid("customer_")
    }

    /// The login record stored for this registration under `reference`: the
    /// e-mail, the hashed password (never the password itself in the clear)
    /// and the `Customer` role.
    pub fn credentials(&self, reference: &String) -> (c: CustomerCredentials)
        ensures
            c.email == self.email,
            c.password@ == stored_password(self.password@),
            c.password@.len() == 64,
            forall|i: int| 0 <= i < 64 ==> is_lower_hex_digit(#[trigger] c.password@[i]),
            c.role == RolesEnum::Customer,
            c.reference == Some(*reference),
    {
        CustomerCredentials {
            email: self.email.clone(),
            password: hash_password(&self.password),
            role: RolesEnum::Customer,
            reference: Some(reference.clone()),
        }
    }

    /// The profile stored for this registration under `reference`.
    pub fn profile(&self, reference: &String) -> (p: CustomerProfile)
        ensures
            p.reference == *reference,
            p.email == self.email,
            p.name == self.name,
            p.address == self.address,
            p.phone == self.phone,
            p.subscription_type == self.subscription_type,
    {
        CustomerProfile {
            reference: reference.clone(),
            email: self.email.clone(),
            name: self.name.clone(),
            address: self.address.clone(),
            phone: self.phone.clone(),
            subscription_type: self.subscription_type,
        }
    }

    /// The token handed to a newly registered customer: issued now, for the
    /// new reference, the chosen tier and the `Customer` role.
    pub fn registration_token(&self, reference: String) -> (r: Result<String, AuthError>)
        ensures
            exists|now: int|
                representable_timestamp(now) && token_outcome(
                    reference@,
                    self.subscription_type,
                    RolesEnum::Customer,
                    now,
                    r,
                ),
    {
        AuthenticateUser::generate_jwt(reference, self.subscription_type, RolesEnum::Customer)
    }
}

/// Whether a registration took: both stored records report affected rows.
pub fn registration_recorded(credentials_rows: u64, profile_rows: u64) -> (ok: bool)
    ensures
        ok == (credentials_rows > 0 && profile_rows > 0),
{
    credentials_rows > 0 && profile_rows > 0
}

} // verus!
