//! The device-type classification that the native SDK reports for a
//! controller, and the total mapping from the SDK's numeric device-type
//! codes onto it.

use vstd::prelude::*;

verus! {

/// The kind of input device behind a controller handle, mirroring the native
/// SDK's device-type enumeration one variant per native code.
#[derive(Clone, Copy, Debug, PartialEq, Eq, Structural)]
pub enum InputType {
    Unknown,
    SteamController,
    XBox360Controller,
    XBoxOneController,
    GenericGamepad,
    PS4Controller,
    AppleMFiController,
    AndroidController,
    SwitchJoyConPair,
    SwitchJoyConSingle,
    SwitchProController,
    MobileTouch,
    PS3Controller,
    PS5Controller,
    SteamDeckController,
}

/// What `InputType::from_code` returns for every numeric device-type code:
/// the native codes 0 through 14 each name one variant, in the native
/// enumeration order, and every other code is classified as `Unknown`.
pub open spec fn input_type_from_code(code: u32) -> InputType {
    if code == 1 {
        InputType::SteamController
    } else if code == 2 {
        InputType::XBox360Controller
    } else if code == 3 {
        InputType::XBoxOneController
    } else if code == 4 {
        InputType::GenericGamepad
    } else if code == 5 {
        InputType::PS4Controller
    } else if code == 6 {
        InputType::AppleMFiController
    } else if code == 7 {
        InputType::AndroidController
    } else if code == 8 {
        InputType::SwitchJoyConPair
    } else if code == 9 {
        InputType::SwitchJoyConSingle
    } else if code == 10 {
        InputType::SwitchProController
    } else if code == 11 {
        InputType::MobileTouch
    } else if code == 12 {
        InputType::PS3Controller
    } else if code == 13 {
        InputType::PS5Controller
    } else if code == 14 {
        InputType::SteamDeckController
    } else {
        InputType::Unknown
    }
}

impl InputType {
    /// Classifies a numeric device-type code. Total: every code is mapped,
    /// and codes outside the native range fall back to `Unknown`, exactly as
    /// the native SDK treats device types it does not know.
    pub fn from_code(code: u32) -> (t: InputType)
        ensures
            t == input_type_from_code(code),
    {
        if code == 1 {
            InputType::SteamController
        } else if code == 2 {
            InputType::XBox360Controller
        } else if code == 3 {
            InputType::XBoxOneController
        } else if code == 4 {
            InputType::GenericGamepad
        } else if code == 5 {
            InputType::PS4Controller
        } else if code == 6 {
            InputType::AppleMFiController
        } else if code == 7 {
            InputType::AndroidController
        } else if code == 8 {
            InputType::SwitchJoyConPair
        } else if code == 9 {
            InputType::SwitchJoyConSingle
        } else if code == 10 {
            InputType::SwitchProController
        } else if code == 11 {
            InputType::MobileTouch
        } else if code == 12 {
            InputType::PS3Controller
        } else if code == 13 {
            InputType::PS5Controller
        } else if code == 14 {
            InputType::SteamDeckController
        } else {
            InputType::Unknown
        }
    }
}

/// On the native code range the classification is injective: distinct native
/// device-type codes name distinct variants, so no two native device kinds
/// are collapsed into one host variant.
pub proof fn lemma_input_type_injective(a: u32, b: u32)
    requires
        a <= 14,
        b <= 14,
        a != b,
    ensures
        input_type_from_code(a) != input_type_from_code(b),
{
}

/// The classification drops no variant: every host variant is named by some
/// native device-type code, so the native range maps onto the whole host
/// enumeration.
pub proof fn lemma_input_type_covers(t: InputType)
    ensures
        exists|code: u32| code <= 14 && input_type_from_code(code) == t,
{
    match t {
        InputType::Unknown => {
            assert(0u32 <= 14 && input_type_from_code(0u32) == t);
        },
        InputType::SteamController => {
            assert(1u32 <= 14 && input_type_from_code(1u32) == t);
        },
        InputType::XBox360Controller => {
            assert(2u32 <= 14 && input_type_from_code(2u32) == t);
        },
        InputType::XBoxOneController => {
            assert(3u32 <= 14 && input_type_from_code(3u32) == t);
        },
        InputType::GenericGamepad => {
            assert(4u32 <= 14 && input_type_from_code(4u32) == t);
        },
        InputType::PS4Controller => {
            assert(5u32 <= 14 && input_type_from_code(5u32) == t);
        },
        InputType::AppleMFiController => {
            assert(6u32 <= 14 && input_type_from_code(6u32) == t);
        },
        InputType::AndroidController => {
            assert(7u32 <= 14 && input_type_from_code(7u32) == t);
        },
        InputType::SwitchJoyConPair => {
            assert(8u32 <= 14 && input_type_from_code(8u32) == t);
        },
        InputType::SwitchJoyConSingle => {
            assert(9u32 <= 14 && input_type_from_code(9u32) == t);
        },
        InputType::SwitchProController => {
            assert(10u32 <= 14 && input_type_from_code(10u32) == t);
        },
        InputType::MobileTouch => {
            assert(11u32 <= 14 && input_type_from_code(11u32) == t);
        },
        InputType::PS3Controller => {
            assert(12u32 <= 14 && input_type_from_code(12u32) == t);
        },
        InputType::PS5Controller => {
            assert(13u32 <= 14 && input_type_from_code(13u32) == t);
        },
        InputType::SteamDeckController => {
            assert(14u32 <= 14 && input_type_from_code(14u32) == t);
        },
    }
}

} // verus!
