use vstd::prelude::*;
use vstd::string::*;
use crate::utils::text::str_equals;

verus! {

/// The console a copy of a game runs on.
#[derive(PartialEq, Eq, Structural, Hash, Debug, Clone, Copy)]
pub enum Platform {
    Playstation3,
    Playstation4,
    Playstation5,
    Xbox,
    InvalidPlatform,
}

/// The text under which a platform is stored and shown.
pub open spec fn platform_name(p: Platform) -> Seq<char> {
    match p {
        Platform::Playstation3 => "Playstation3"@,
        Platform::Playstation4 => "Playstation4"@,
        Platform::Playstation5 => "Playstation5"@,
        Platform::Xbox => "Xbox"@,
        Platform::InvalidPlatform => "InvalidPlatform"@,
    }
}

/// The platform that a stored text denotes; any unknown text is `InvalidPlatform`.
pub open spec fn platform_from_name(s: Seq<char>) -> Platform {
    if s == "Playstation3"@ {
        Platform::Playstation3
    } else if s == "Playstation4"@ {
        Platform::Playstation4
    } else if s == "Playstation5"@ {
        Platform::Playstation5
    } else if s == "Xbox"@ {
        Platform::Xbox
    } else {
        Platform::InvalidPlatform
    }
}

impl Platform {
    /// Reads a platform from its name; an unknown name gives `InvalidPlatform`.
    pub fn str_to_enum(value: &str) -> (p: Platform)
        ensures
            p == platform_from_name(value@),
    {
        if str_equals(value, "Playstation3") {
            Platform::Playstation3
        } else if str_equals(value, "Playstation4") {
            Platform::Playstation4
        } else if str_equals(value, "Playstation5") {
            Platform::Playstation5
        } else if str_equals(value, "Xbox") {
            Platform::Xbox
        } else {
            Platform::InvalidPlatform
        }
    }

    /// The name of the platform, as it is displayed and stored.
    pub fn to_string(&self) -> (s: String)
        ensures
            s@ == platform_name(*self),
    {
        match self {
            Platform::Playstation3 => String::from_str("Playstation3"),
            Platform::Playstation4 => String::from_str("Playstation4"),
            Platform::Playstation5 => String::from_str("Playstation5"),
            Platform::Xbox => String::from_str("Xbox"),
            Platform::InvalidPlatform => String::from_str("InvalidPlatform"),
        }
    }
}

/// Reading back the name of any platform gives that platform.
pub proof fn lemma_platform_name_round_trip(p: Platform)
    ensures
        platform_from_name(platform_name(p)) == p,
{
    reveal_strlit("Playstation3");
    reveal_strlit("Playstation4");
    reveal_strlit("Playstation5");
    reveal_strlit("Xbox");
    reveal_strlit("InvalidPlatform");
    assert("Playstation3"@[11] == '3' && "Playstation4"@[11] == '4' && "Playstation5"@[11] == '5');
    assert("Playstation3"@ != "Playstation4"@ && "Playstation3"@ != "Playstation5"@ && "Playstation4"@ != "Playstation5"@);
    assert("Xbox"@.len() == 4 && "InvalidPlatform"@.len() == 15 && "Playstation3"@.len() == 12);
    assert("Xbox"@ != "Playstation3"@ && "Xbox"@ != "Playstation4"@ && "Xbox"@ != "Playstation5"@);
}

/// A text that names a real platform is exactly that platform's name;
/// every other text reads as `InvalidPlatform`.
pub proof fn lemma_platform_known_names(s: Seq<char>)
    ensures
        platform_from_name(s) != Platform::InvalidPlatform ==> platform_name(platform_from_name(s)) == s,
        platform_from_name(s) == Platform::InvalidPlatform <==> (s != "Playstation3"@ && s != "Playstation4"@
            && s != "Playstation5"@ && s != "Xbox"@),
{
    reveal_strlit("Playstation3");
    reveal_strlit("Playstation4");
    reveal_strlit("Playstation5");
    reveal_strlit("Xbox");
}

} // verus!
