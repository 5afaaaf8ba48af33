use vstd::prelude::*;
use vstd::string::*;
use crate::utils::text::str_equals;

verus! {

/// The role an account holds.
#[derive(PartialEq, Eq, Structural, Hash, Debug, Clone, Copy)]
pub enum RolesEnum {
    Admin,
    Customer,
    InvalidRole,
}

/// The text under which a role is stored and shown.
pub open spec fn role_name(r: RolesEnum) -> Seq<char> {
    match r {
        RolesEnum::Admin => "Admin"@,
        RolesEnum::Customer => "Customer"@,
        RolesEnum::InvalidRole => "InvalidRole"@,
    }
}

/// The role that a stored text denotes; any unknown text is `InvalidRole`.
pub open spec fn role_from_name(s: Seq<char>) -> RolesEnum {
    if s == "Admin"@ {
        RolesEnum::Admin
    } else if s == "Customer"@ {
        RolesEnum::Customer
    } else {
        RolesEnum::InvalidRole
    }
}

impl RolesEnum {
    /// Reads a role from its name; an unknown name gives `InvalidRole`.
    pub fn str_to_enum(value: &str) -> (r: RolesEnum)
        ensures
            r == role_from_name(value@),
    {
        if str_equals(value, "Admin") {
            RolesEnum::Admin
        } else if str_equals(value, "Customer") {
            RolesEnum::Customer
        } else {
            RolesEnum::InvalidRole
        }
    }

    /// The name of the role, as it is displayed and stored.
    pub fn to_string(&self) -> (s: String)
        ensures
            s@ == role_name(*self),
    {
        match self {
            RolesEnum::Admin => String::from_str("Admin"),
            RolesEnum::Customer => String::from_str("Customer"),
            RolesEnum::InvalidRole => String::from_str("InvalidRole"),
        }
    }
}

/// Reading back the name of any role gives that role.
pub proof fn lemma_role_name_round_trip(r: RolesEnum)
    ensures
        role_from_name(role_name(r)) == r,
{
    reveal_strlit("Admin");
    reveal_strlit("Customer");
    reveal_strlit("InvalidRole");
    assert("Admin"@.len() == 5 && "Customer"@.len() == 8 && "InvalidRole"@.len() == 11);
}

/// A text that names a real role is exactly that role's name; every other
/// text reads as `InvalidRole`.
pub proof fn lemma_role_known_names(s: Seq<char>)
    ensures
        role_from_name(s) != RolesEnum::InvalidRole ==> role_name(role_from_name(s)) == s,
        role_from_name(s) == RolesEnum::InvalidRole <==> (s != "Admin"@ && s != "Customer"@),
{
    reveal_strlit("Admin");
    reveal_strlit("Customer");
    assert("Admin"@.len() == 5 && "Customer"@.len() == 8);
}

} // verus!
