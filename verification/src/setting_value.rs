//! A setting value as the settings logic reads it.
use vstd::prelude::*;

verus! {

/// What a settings update carries, seen through the accessors that the
/// settings logic uses: the value as a signed integer, as a 32-bit float
/// (kept as its IEEE-754 bit pattern), as a boolean and as text. Each is
/// `None` when the value does not read as that kind.
#[derive(Debug)]
pub struct SettingValue {
    pub int: Option<i64>,
    pub float_bits: Option<u32>,
    pub flag: Option<bool>,
    pub text: Option<String>,
}

/// Compares a key with a literal.
pub fn key_is(key: &str, lit: &str) -> (r: bool)
    ensures
        r == (key@ == lit@),
{
    let a = String::from_str(key);
    let b = String::from_str(lit);
    a == b
}

} // verus!
