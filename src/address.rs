use vstd::prelude::*;

verus! {

/// A registry property value, as far as the decisions here need it.
#[derive(Debug, Clone, PartialEq, Eq)]
pub enum PropertyValue {
    /// A string value.
    Text(String),
    /// A value of any other type (number, dictionary, ...).
    Other,
}

/// Is `p` present, a string, and equal to `lit`?
pub open spec fn is_text(p: Option<PropertyValue>, lit: Seq<char>) -> bool {
    match p {
        Some(PropertyValue::Text(s)) => s@ == lit,
        _ => false,
    }
}

/// Executable form of `is_text`.
pub fn text_equals(p: &Option<PropertyValue>, lit: &str) -> (r: bool)
    ensures
        r == is_text(*p, lit@),
{
    match p {
        Some(PropertyValue::Text(s)) => {
            let l: String = lit.to_owned();
            *s == l
        },
        _ => false,
    }
}

/// The standard DDC/CI slave address.
pub open spec fn standard_address() -> u16 {
    0x37
}

/// The slave address used behind MCDP29xx DisplayPort-to-HDMI bridge chips.
pub const I2C_ADDRESS_DDC_CI_MDCP29XX: u16 = 0xB7;

/// The provider class that marks an MCDP29xx bridge.
pub open spec fn bridge_class() -> Seq<char> {
    "AppleDCPMCDP29XX"@
}

/// The address that a proxy service is reached at: the bridge address when
/// its parent was found and has the bridge provider class, the standard
/// address otherwise.
pub open spec fn chip_address(parent_found: bool, provider_class: Option<PropertyValue>) -> u16 {
    if parent_found && is_text(provider_class, bridge_class()) {
        I2C_ADDRESS_DDC_CI_MDCP29XX
    } else {
        standard_address()
    }
}

/// The bridge address is chosen exactly when the parent was found and its
/// provider class is the bridge class; a failed parent lookup, an absent
/// class or any other value gives the standard address.
pub proof fn lemma_chip_address_cases(provider_class: Option<PropertyValue>)
    ensures
        chip_address(false, provider_class) == 0x37,
        chip_address(true, None) == 0x37,
        chip_address(true, Some(PropertyValue::Other)) == 0x37,
        is_text(provider_class, bridge_class()) ==> chip_address(true, provider_class) == 0xB7,
        !is_text(provider_class, bridge_class()) ==> chip_address(true, provider_class) == 0x37,
{
}

/// Relies on ddc::I2C_ADDRESS_DDC_CI: the standard DDC/CI slave address, 0x37.
#[verifier::external_body]
fn ddc_ci_address() -> (r: u16)
    ensures
        r == standard_address(),
{
    ddc::I2C_ADDRESS_DDC_CI
}

/// Chooses the I2C slave address of a proxy service from what its parent
/// reports: `parent_found` tells whether the parent lookup succeeded, and
/// `provider_class` is the parent's "EPICProviderClass" property.
pub fn i2c_address(parent_found: bool, provider_class: &Option<PropertyValue>) -> (r: u16)
    ensures
        r == chip_address(parent_found, *provider_class),
        r == I2C_ADDRESS_DDC_CI_MDCP29XX || r == standard_address(),
{
    proof {
        reveal_strlit("AppleDCPMCDP29XX");
    }
    if parent_found && text_equals(provider_class, "AppleDCPMCDP29XX") {
        I2C_ADDRESS_DDC_CI_MDCP29XX
    } else {
        ddc_ci_address()
    }
}

} // verus!
