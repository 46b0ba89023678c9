//! The account records the library reasons about.
use vstd::prelude::*;

verus! {

/// One stored account, as the vault keeps it.
#[derive(Clone, Debug)]
pub struct VaultEntry {
    pub id: String,
    pub name: String,
    pub secret: String,
    pub created_at: String,
    pub period: u32,
    pub digits: u8,
    pub algorithm: String,
}

/// Parameters read from an `otpauth://` URI or an import file; absent ones take defaults.
#[derive(Clone, Debug)]
pub struct OtpMeta {
    pub issuer: Option<String>,
    pub account: Option<String>,
    pub algorithm: Option<String>,
    pub digits: Option<u8>,
    pub period: Option<u32>,
}

/// A parsed secret with its parameters.
#[derive(Clone, Debug)]
pub struct OtpSecret {
    pub secret: String,
    pub meta: OtpMeta,
}

/// The period an entry gets when none is given: 30 seconds.
pub open spec fn default_period(p: Option<u32>) -> u32 {
    match p {
        Some(v) => v,
        None => 30,
    }
}

/// The digit count an entry gets when none is given: 6.
pub open spec fn default_digits(d: Option<u8>) -> u8 {
    match d {
        Some(v) => v,
        None => 6,
    }
}

/// The algorithm an entry gets when none is given: `"SHA1"`.
pub open spec fn default_algorithm(a: Option<String>) -> Seq<char> {
    match a {
        Some(v) => v@,
        None => "SHA1"@,
    }
}

impl OtpMeta {
    /// Period, or 30 when absent.
    pub fn period_or_default(&self) -> (r: u32)
        ensures
            r == default_period(self.period),
            self.period matches Some(p) ==> r == p,
            self.period is None ==> r == 30,
    {
        match self.period {
            Some(v) => v,
            None => 30,
        }
    }

    /// Digits, or 6 when absent.
    pub fn digits_or_default(&self) -> (r: u8)
        ensures
            r == default_digits(self.digits),
            self.digits matches Some(d) ==> r == d,
            self.digits is None ==> r == 6,
    {
        match self.digits {
            Some(v) => v,
            None => 6,
        }
    }

    /// Algorithm, or `"SHA1"` when absent.
    pub fn algorithm_or_default(&self) -> (r: String)
        ensures
            r@ == default_algorithm(self.algorithm),
            self.algorithm matches Some(a) ==> r@ == a@,
            self.algorithm is None ==> r@ == "SHA1"@,
    {
        match &self.algorithm {
            Some(v) => v.clone(),
            None => String::from_str("SHA1"),
        }
    }
}

/// A new entry for `secret` under `name`, dated `today`, with the defaults filled in
/// and no id yet (the vault assigns one).
pub fn entry_from_secret(name: String, otp: OtpSecret, today: String) -> (e: VaultEntry)
    ensures
        e.id@ == Seq::<char>::empty(),
        e.name@ == name@,
        e.secret@ == otp.secret@,
        e.created_at@ == today@,
        e.period == default_period(otp.meta.period),
        e.digits == default_digits(otp.meta.digits),
        e.algorithm@ == default_algorithm(otp.meta.algorithm),
        otp.meta.period matches Some(p) ==> e.period == p,
        otp.meta.period is None ==> e.period == 30,
        otp.meta.digits matches Some(d) ==> e.digits == d,
        otp.meta.digits is None ==> e.digits == 6,
        otp.meta.algorithm matches Some(a) ==> e.algorithm@ == a@,
{
    let period = otp.meta.period_or_default();
    let digits = otp.meta.digits_or_default();
    let algorithm = otp.meta.algorithm_or_default();
    VaultEntry {
        id: String::new(),
        name,
        secret: otp.secret,
        created_at: today,
        period,
        digits,
        algorithm,
    }
}

} // verus!
