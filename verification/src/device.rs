//! The kind of device that the backend is built for.

use vstd::prelude::*;

verus! {

/// The kind of device.
#[derive(Clone, Copy, Debug, PartialEq, Eq)]
pub enum FormFactor {
    Desktop,
    Mobile,
}

/// The kind of device for a target environment and the device type that is set,
/// if one is. Only OpenHarmony targets have a kind; without a type, and for any
/// type but the desktop, it is mobile.
pub open spec fn form_factor_of(
    target_env: Seq<char>,
    device_type: Option<Seq<char>>,
) -> Option<FormFactor> {
    if target_env != "ohos"@ {
        None
    } else if device_type == Some("desktop"@) {
        Some(FormFactor::Desktop)
    } else {
        Some(FormFactor::Mobile)
    }
}

/// A kind is told for OpenHarmony targets and no others, and it is the desktop exactly
/// where the type that is set says so.
pub proof fn lemma_desktop_is_told_only_where_set(
    target_env: Seq<char>,
    device_type: Option<Seq<char>>,
)
    ensures
        form_factor_of(target_env, device_type) is Some <==> target_env == "ohos"@,
        form_factor_of(target_env, device_type) == Some(FormFactor::Desktop) <==> target_env
            == "ohos"@ && device_type is Some && device_type->Some_0 == "desktop"@,
{
}

/// The kind of device for a target environment and the device type that is set,
/// if one is.
pub fn form_factor(target_env: String, device_type: Option<String>) -> (r: Option<FormFactor>)
    ensures
        r == form_factor_of(
            target_env@,
            match device_type {
                Some(text) => Some(text@),
                None => None,
            },
        ),
{
    if target_env != "ohos".to_owned() {
        return None;
    }
    match device_type {
        Some(text) => if text == "desktop".to_owned() {
            Some(FormFactor::Desktop)
        } else {
            Some(FormFactor::Mobile)
        },
        None => Some(FormFactor::Mobile),
    }
}

impl FormFactor {
    /// The name of the configuration flag for the kind of device.
    pub fn flag(self) -> (r: String)
        ensures
            self is Desktop ==> r@ == "desktop"@,
            self is Mobile ==> r@ == "mobile"@,
    {
        match self {
            FormFactor::Desktop => "desktop".to_owned(),
            FormFactor::Mobile => "mobile".to_owned(),
        }
    }
}

} // verus!
