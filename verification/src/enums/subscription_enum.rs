use vstd::prelude::*;
use vstd::string::*;
use crate::utils::text::str_equals;

verus! {

/// The subscription tier of a customer, or of the games a tier unlocks.
#[derive(PartialEq, Eq, Structural, Hash, Debug, Clone, Copy)]
pub enum SubscriptionType {
    Basic,
    Standard,
    Premium,
    InvalidSubscription,
}

/// The text under which a subscription tier is stored and shown.
pub open spec fn subscription_name(t: SubscriptionType) -> Seq<char> {
    match t {
        SubscriptionType::Basic => "Basic"@,
        SubscriptionType::Standard => "Standard"@,
        SubscriptionType::Premium => "Premium"@,
        SubscriptionType::InvalidSubscription => "InvalidSubscription"@,
    }
}

/// The tier that a stored text denotes; any unknown text is `InvalidSubscription`.
pub open spec fn subscription_from_name(s: Seq<char>) -> SubscriptionType {
    if s == "Basic"@ {
        SubscriptionType::Basic
    } else if s == "Standard"@ {
        SubscriptionType::Standard
    } else if s == "Premium"@ {
        SubscriptionType::Premium
    } else {
        SubscriptionType::InvalidSubscription
    }
}

impl SubscriptionType {
    /// Reads a tier from its name; an unknown name gives `InvalidSubscription`.
    pub fn str_to_enum(value: &str) -> (t: SubscriptionType)
        ensures
            t == subscription_from_name(value@),
    {
        if str_equals(value, "Basic") {
            SubscriptionType::Basic
        } else if str_equals(value, "Standard") {
            SubscriptionType::Standard
        } else if str_equals(value, "Premium") {
            SubscriptionType::Premium
        } else {
            SubscriptionType::InvalidSubscription
        }
    }

    /// The name of the tier, as it is displayed and stored.
    pub fn to_string(&self) -> (s: String)
        ensures
            s@ == subscription_name(*self),
    {
        match self {
            SubscriptionType::Basic => String::from_str("Basic"),
            SubscriptionType::Standard => String::from_str("Standard"),
            SubscriptionType::Premium => String::from_str("Premium"),
            SubscriptionType::InvalidSubscription => String::from_str("InvalidSubscription"),
        }
    }
}

/// Reading back the name of any tier gives that tier.
pub proof fn lemma_subscription_name_round_trip(t: SubscriptionType)
    ensures
        subscription_from_name(subscription_name(t)) == t,
{
    reveal_strlit("Basic");
    reveal_strlit("Standard");
    reveal_strlit("Premium");
    reveal_strlit("InvalidSubscription");
    assert("Basic"@.len() == 5 && "Standard"@.len() == 8 && "Premium"@.len() == 7
        && "InvalidSubscription"@.len() == 19);
}

/// A text that names a real tier is exactly that tier's name; every other
/// text reads as `InvalidSubscription`.
pub proof fn lemma_subscription_known_names(s: Seq<char>)
    ensures
        subscription_from_name(s) != SubscriptionType::InvalidSubscription ==> subscription_name(
            subscription_from_name(s),
        ) == s,
        subscription_from_name(s) == SubscriptionType::InvalidSubscription <==> (s != "Basic"@ && s
            != "Standard"@ && s != "Premium"@),
{
    reveal_strlit("Basic");
    reveal_strlit("Standard");
    reveal_strlit("Premium");
    assert("Basic"@.len() == 5 && "Standard"@.len() == 8 && "Premium"@.len() == 7);
}

} // verus!
