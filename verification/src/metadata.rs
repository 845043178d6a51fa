//! The descriptive record of the token, fixed at initialisation.

use vstd::prelude::*;
use vstd::string::*;

verus! {

/// The number of decimal places of the token: one whole unit is
/// `10^TOKEN_DECIMAL` minimal units.
pub const TOKEN_DECIMAL: u8 = 24;

/// The descriptive record of a fungible token.
pub struct TokenMetadata {
    pub spec: String,
    pub name: String,
    pub symbol: String,
    pub icon: Option<String>,
    pub reference: Option<String>,
    pub reference_hash: Option<Vec<u8>>,
    pub decimals: u8,
}

impl TokenMetadata {
    /// The record names the metadata standard, and carries a reference
    /// together with its 32-byte hash or neither of them.
    pub open spec fn valid(self) -> bool {
        &&& self.spec@ == "ft-1.0.0"@
        &&& self.reference.is_some() == self.reference_hash.is_some()
        &&& self.reference_hash matches Some(hash) ==> hash@.len() == 32
    }

    /// Tells whether the record is valid.
    pub fn is_valid(&self) -> (ok: bool)
        ensures
            ok == self.valid(),
    {
        let standard = String::from_str("ft-1.0.0");
        let hash_ok = match &self.reference_hash {
            Some(hash) => hash.len() == 32,
            None => true,
        };
        self.spec == standard && self.reference.is_some() == self.reference_hash.is_some()
            && hash_ok
    }

    /// The record of a creator token with the given icon.
    pub fn creator_token(image_icon_data: String) -> (metadata: TokenMetadata)
        ensures
            metadata.valid(),
            metadata.spec@ == "ft-1.0.0"@,
            metadata.name@ == "Loozr-CT"@,
            metadata.symbol@ == "LZR-CT"@,
            metadata.icon == Some(image_icon_data),
            metadata.reference.is_none(),
            metadata.reference_hash.is_none(),
            metadata.decimals == TOKEN_DECIMAL,
    {
        TokenMetadata {
            spec: String::from_str("ft-1.0.0"),
            name: String::from_str("Loozr-CT"),
            symbol: String::from_str("LZR-CT"),
            icon: Some(image_icon_data),
            reference: None,
            reference_hash: None,
            decimals: TOKEN_DECIMAL,
        }
    }
}

} // verus!
