use vstd::prelude::*;
use vstd::string::StringExecFns;
use vstd::utf8::encode_utf8;

use crate::errors::TotpError;
use crate::storage::{b64_data, b64_decode, b64_text};
use crate::text::str_eq;

verus! {

/// The hash algorithms a time-based code may use.
#[derive(Clone, Copy, Debug, PartialEq, Eq, Structural)]
pub enum TotpAlgorithm {
    Sha1,
    Sha256,
    Sha512,
}

/// Configuration of the time-based code: algorithm, code length in digits,
/// step duration in seconds, clock-skew tolerance in steps, the shared secret
/// as base32 text, an optional issuer label and the account label.
#[derive(Debug, Clone)]
pub struct TotpConfig {
    pub algorithm: TotpAlgorithm,
    pub digits: u8,
    pub skew: u8,
    pub step: u64,
    pub secret: String,
    pub issuer: Option<String>,
    pub account: String,
}

impl Default for TotpConfig {
    /// The conventional defaults: SHA-1, six digits, one step of skew, a
    /// 30-second step, and empty labels.
    fn default() -> (r: Self)
        ensures
            r.algorithm == TotpAlgorithm::Sha1,
            r.digits == 6,
            r.skew == 1,
            r.step == 30,
            r.secret@ == Seq::<char>::empty(),
            r.issuer is None,
            r.account@ == Seq::<char>::empty(),
    {
        TotpConfig {
            algorithm: TotpAlgorithm::Sha1,
            digits: 6,
            skew: 1,
            step: 30,
            secret: String::new(),
            issuer: None,
            account: String::new(),
        }
    }
}

/// An optional label's text.
pub open spec fn issuer_view(issuer: Option<String>) -> Option<Seq<char>> {
    match issuer {
        Some(s) => Some(s@),
        None => None,
    }
}

/// The field constraints the code generator enforces: six to eight digits, a
/// shared secret of at least 128 bits, and labels free of ':'.
pub open spec fn totp_params_valid(
    digits: u8,
    secret: Seq<u8>,
    issuer: Option<Seq<char>>,
    account: Seq<char>,
) -> bool {
    &&& 6 <= digits && digits <= 8
    &&& secret.len() >= 16
    &&& (match issuer {
        Some(i) => !i.contains(':'),
        None => true,
    })
    &&& !account.contains(':')
}

/// The Unicode uppercase of a text; a function of the characters alone.
pub uninterp spec fn uppercased(s: Seq<char>) -> Seq<char>;

/// Relies on str::to_uppercase: the Unicode uppercase of the text, the same
/// for the same characters on every call.
#[verifier::external_body]
fn to_upper(s: &str) -> (r: String)
    ensures
        r@ == uppercased(s@),
{
    s.to_uppercase()
}

/// The bytes a base32 shared secret stands for, or nothing when the text is
/// not valid RFC 4648 base32 without padding.
pub uninterp spec fn base32_secret(s: Seq<char>) -> Option<Seq<u8>>;

/// Relies on totp_rs::Secret::to_bytes for an Encoded secret: RFC 4648
/// base32 (no padding) decode of the text, rejected exactly when the text is
/// not valid such base32.
#[verifier::external_body]
fn secret_to_bytes(secret: &String) -> (r: Option<Vec<u8>>)
    ensures
        match r {
            Some(b) => base32_secret(secret@) == Some(b@),
            None => base32_secret(secret@) is None,
        },
{
    match totp_rs::Secret::Encoded(secret.clone()).to_bytes() {
        Ok(b) => Some(b),
        Err(_) => None,
    }
}

/// Relies on totp_rs::TOTP::new and TOTP::generate_current: new accepts the
/// parameters exactly when `totp_params_valid` holds of them, and
/// generate_current then returns the code of the current time step, a
/// zero-padded decimal string of exactly `digits` characters, failing only
/// when the clock reads before the epoch.  The step must be positive: the
/// generator divides the time by it.
#[verifier::external_body]
fn current_code(
    algorithm: &TotpAlgorithm,
    digits: u8,
    skew: u8,
    step: u64,
    secret: Vec<u8>,
    issuer: &Option<String>,
    account: &String,
) -> (r: Result<String, TotpError>)
    requires
        step >= 1,
    ensures
        match r {
            Ok(code) => {
                &&& totp_params_valid(digits, secret@, issuer_view(*issuer), account@)
                &&& code@.len() == digits
                &&& forall|i: int| 0 <= i < code@.len() ==> '0' <= #[trigger] code@[i] && code@[i]
                    <= '9'
            },
            Err(e) => (e == TotpError::InvalidConfig && !totp_params_valid(
                digits,
                secret@,
                issuer_view(*issuer),
                account@,
            )) || (e == TotpError::ClockUnavailable && totp_params_valid(
                digits,
                secret@,
                issuer_view(*issuer),
                account@,
            )),
        },
{
    let alg = match algorithm {
        TotpAlgorithm::Sha1 => totp_rs::Algorithm::SHA1,
        TotpAlgorithm::Sha256 => totp_rs::Algorithm::SHA256,
        TotpAlgorithm::Sha512 => totp_rs::Algorithm::SHA512,
    };
    let t = totp_rs::TOTP::new(alg, digits as usize, skew, step, secret, issuer.clone(), account.clone());
    match t {
        Ok(totp) => totp.generate_current().map_err(|_| TotpError::ClockUnavailable),
        Err(_) => Err(TotpError::InvalidConfig),
    }
}

/// The provisioning QR image of a configuration, as PNG bytes; a
/// deterministic function of the parameters.
pub uninterp spec fn qr_png(
    algorithm: TotpAlgorithm,
    digits: u8,
    skew: u8,
    step: u64,
    secret: Seq<u8>,
    issuer: Option<Seq<char>>,
    account: Seq<char>,
) -> Seq<u8>;

/// Whether a configuration's provisioning URL fits a QR code and its image
/// encodes as PNG; a deterministic function of the parameters, and exactly
/// the condition under which drawing succeeds.
pub uninterp spec fn qr_renderable(
    algorithm: TotpAlgorithm,
    digits: u8,
    skew: u8,
    step: u64,
    secret: Seq<u8>,
    issuer: Option<Seq<char>>,
    account: Seq<char>,
) -> bool;

/// Relies on totp_rs::TOTP::new and TOTP::get_qr_base64: new accepts the
/// parameters exactly when `totp_params_valid` holds of them; get_qr_base64
/// then draws the provisioning URL as a PNG and renders it with the same
/// padded standard-alphabet base64 the envelope codec names, failing exactly
/// when the URL does not fit a QR code or the image does not encode.
#[verifier::external_body]
fn qr_code_b64(
    algorithm: &TotpAlgorithm,
    digits: u8,
    skew: u8,
    step: u64,
    secret: Vec<u8>,
    issuer: &Option<String>,
    account: &String,
) -> (r: Result<String, TotpError>)
    ensures
        match r {
            Ok(png64) => {
                &&& totp_params_valid(digits, secret@, issuer_view(*issuer), account@)
                &&& qr_renderable(
                    *algorithm,
                    digits,
                    skew,
                    step,
                    secret@,
                    issuer_view(*issuer),
                    account@,
                )
                &&& png64@ == b64_text(
                    qr_png(*algorithm, digits, skew, step, secret@, issuer_view(*issuer), account@),
                )
                &&& b64_data(encode_utf8(png64@)) == Some(
                    qr_png(*algorithm, digits, skew, step, secret@, issuer_view(*issuer), account@),
                )
            },
            Err(e) => (e == TotpError::InvalidConfig && !totp_params_valid(
                digits,
                secret@,
                issuer_view(*issuer),
                account@,
            )) || (e == TotpError::QrUnavailable && totp_params_valid(
                digits,
                secret@,
                issuer_view(*issuer),
                account@,
            ) && !qr_renderable(
                *algorithm,
                digits,
                skew,
                step,
                secret@,
                issuer_view(*issuer),
                account@,
            )),
        },
{
    let alg = match algorithm {
        TotpAlgorithm::Sha1 => totp_rs::Algorithm::SHA1,
        TotpAlgorithm::Sha256 => totp_rs::Algorithm::SHA256,
        TotpAlgorithm::Sha512 => totp_rs::Algorithm::SHA512,
    };
    let t = totp_rs::TOTP::new(alg, digits as usize, skew, step, secret, issuer.clone(), account.clone());
    match t {
        Ok(totp) => totp.get_qr_base64().map_err(|_| TotpError::QrUnavailable),
        Err(_) => Err(TotpError::InvalidConfig),
    }
}

/// Parses an algorithm name, ignoring case: exactly the three supported
/// names are accepted.
pub fn parse_algorithm(alg_str: &str) -> (r: Result<TotpAlgorithm, TotpError>)
    ensures
        r == (if uppercased(alg_str@) == "SHA1"@ {
            Ok::<TotpAlgorithm, TotpError>(TotpAlgorithm::Sha1)
        } else if uppercased(alg_str@) == "SHA256"@ {
            Ok::<TotpAlgorithm, TotpError>(TotpAlgorithm::Sha256)
        } else if uppercased(alg_str@) == "SHA512"@ {
            Ok::<TotpAlgorithm, TotpError>(TotpAlgorithm::Sha512)
        } else {
            Err::<TotpAlgorithm, TotpError>(TotpError::UnsupportedAlgorithm)
        }),
{
    let u = to_upper(alg_str);
    if str_eq(u.as_str(), "SHA1") {
        Ok(TotpAlgorithm::Sha1)
    } else if str_eq(u.as_str(), "SHA256") {
        Ok(TotpAlgorithm::Sha256)
    } else if str_eq(u.as_str(), "SHA512") {
        Ok(TotpAlgorithm::Sha512)
    } else {
        Err(TotpError::UnsupportedAlgorithm)
    }
}

/// The value view of a computed code result.
pub open spec fn code_result_view(r: Result<String, TotpError>) -> Result<Seq<char>, TotpError> {
    match r {
        Ok(c) => Ok(c@),
        Err(e) => Err(e),
    }
}

/// Exactly the outcomes the current-code computation can have for a
/// configuration: a code of `digits` decimal characters, possible only when
/// the secret decodes and every field constraint holds; otherwise the error
/// naming the first failed constraint, a clock failure being admitted only
/// with valid parameters.
pub open spec fn totp_code_outcome(config: TotpConfig, r: Result<Seq<char>, TotpError>) -> bool {
    match r {
        Ok(code) => {
            &&& base32_secret(config.secret@) matches Some(sb) && totp_params_valid(
                config.digits,
                sb,
                issuer_view(config.issuer),
                config.account@,
            )
            &&& config.step >= 1
            &&& code.len() == config.digits
            &&& forall|i: int| 0 <= i < code.len() ==> '0' <= #[trigger] code[i] && code[i] <= '9'
        },
        Err(e) => match e {
            TotpError::BadSecret => base32_secret(config.secret@) is None,
            TotpError::InvalidConfig => base32_secret(config.secret@) matches Some(sb) && !(
            config.step >= 1 && totp_params_valid(
                config.digits,
                sb,
                issuer_view(config.issuer),
                config.account@,
            )),
            TotpError::ClockUnavailable => base32_secret(config.secret@) matches Some(sb)
                && config.step >= 1 && totp_params_valid(
                config.digits,
                sb,
                issuer_view(config.issuer),
                config.account@,
            ),
            _ => false,
        },
    }
}

/// Computes the current time-based code for a configuration: decodes the
/// shared secret, validates the field constraints, and reads the clock.
/// Returns one of the outcomes `totp_code_outcome` fixes for this
/// configuration: on success the code has exactly `digits` decimal
/// characters; each error names the first constraint that failed.
pub fn get_totp_code(config: &TotpConfig) -> (r: Result<String, TotpError>)
    ensures
        totp_code_outcome(*config, code_result_view(r)),
{
    let sb = match secret_to_bytes(&config.secret) {
        Some(b) => b,
        None => {
            return Err(TotpError::BadSecret);
        },
    };
    if config.step == 0 {
        return Err(TotpError::InvalidConfig);
    }
    current_code(
        &config.algorithm,
        config.digits,
        config.skew,
        config.step,
        sb,
        &config.issuer,
        &config.account,
    )
}

/// Renders the provisioning QR image of a configuration as PNG bytes:
/// decodes the shared secret, draws the QR code, and unwraps the image from
/// its base64 rendering.  Success is owed whenever the secret decodes, the
/// field constraints hold and the image is renderable; each error names
/// exactly the condition that failed.
pub fn totp_qr_png(config: &TotpConfig) -> (r: Result<Vec<u8>, TotpError>)
    ensures
        match r {
            Ok(png) => {
                &&& base32_secret(config.secret@) matches Some(sb) && totp_params_valid(
                    config.digits,
                    sb,
                    issuer_view(config.issuer),
                    config.account@,
                ) && qr_renderable(
                    config.algorithm,
                    config.digits,
                    config.skew,
                    config.step,
                    sb,
                    issuer_view(config.issuer),
                    config.account@,
                ) && png@ == qr_png(
                    config.algorithm,
                    config.digits,
                    config.skew,
                    config.step,
                    sb,
                    issuer_view(config.issuer),
                    config.account@,
                )
            },
            Err(e) => match e {
                TotpError::BadSecret => base32_secret(config.secret@) is None,
                TotpError::InvalidConfig => base32_secret(config.secret@) matches Some(sb)
                    && !totp_params_valid(
                    config.digits,
                    sb,
                    issuer_view(config.issuer),
                    config.account@,
                ),
                TotpError::QrUnavailable => base32_secret(config.secret@) matches Some(sb)
                    && totp_params_valid(
                    config.digits,
                    sb,
                    issuer_view(config.issuer),
                    config.account@,
                ) && !qr_renderable(
                    config.algorithm,
                    config.digits,
                    config.skew,
                    config.step,
                    sb,
                    issuer_view(config.issuer),
                    config.account@,
                ),
                _ => false,
            },
        },
{
    let sb = match secret_to_bytes(&config.secret) {
        Some(b) => b,
        None => {
            return Err(TotpError::BadSecret);
        },
    };
    let png64 = match qr_code_b64(
        &config.algorithm,
        config.digits,
        config.skew,
        config.step,
        sb,
        &config.issuer,
        &config.account,
    ) {
        Ok(s) => s,
        Err(e) => {
            return Err(e);
        },
    };
    match b64_decode(png64.as_str().as_bytes()) {
        Some(png) => Ok(png),
        None => Err(TotpError::QrUnavailable),
    }
}

/// Resolves one configuration value with strict priority: the explicit
/// argument wins, then the environment's value, then the fallback.
pub fn resolve_setting(explicit: Option<String>, environment: Option<String>, fallback: String) -> (r:
    String)
    ensures
        r@ == (match (explicit, environment) {
            (Some(e), _) => e@,
            (None, Some(v)) => v@,
            (None, None) => fallback@,
        }),
{
    match explicit {
        Some(e) => e,
        None => match environment {
            Some(v) => v,
            None => fallback,
        },
    }
}

/// The fixed naming pattern of the rendered QR artifact for an account.
pub fn qr_filename(account: &str) -> (r: String)
    ensures
        r@ == "totp_"@ + account@ + ".png"@,
{
    let mut s = String::from_str("totp_");
    s.append(account);
    s.append(".png");
    s
}

/// Relies on rand::thread_rng and Rng::gen_range over 0..bound: a uniformly
/// drawn value below the bound; the range must be non-empty.
#[verifier::external_body]
fn random_below(bound: usize) -> (r: usize)
    requires
        bound >= 1,
    ensures
        r < bound,
{
    rand::Rng::gen_range(&mut rand::thread_rng(), 0..bound)
}

/// The alphabet a generated shared secret draws from (RFC 4648 base32).
pub open spec fn secret_alphabet() -> Seq<char> {
    "ABCDEFGHIJKLMNOPQRSTUVWXYZ234567"@
}

/// Draws a fresh 32-character shared secret from the base32 alphabet.
pub fn generate_secret() -> (r: String)
    ensures
        r@.len() == 32,
        forall|i: int| 0 <= i < r@.len() ==> secret_alphabet().contains(#[trigger] r@[i]),
{
    let charset = "ABCDEFGHIJKLMNOPQRSTUVWXYZ234567";
    proof {
        reveal_strlit("ABCDEFGHIJKLMNOPQRSTUVWXYZ234567");
    }
    let mut out = String::new();
    let mut i: usize = 0;
    while i < 32
        invariant
            i <= 32,
            out@.len() == i,
            charset@ == secret_alphabet(),
            charset@.len() == 32,
            forall|j: int| 0 <= j < out@.len() ==> secret_alphabet().contains(#[trigger] out@[j]),
        decreases 32 - i,
    {
        let idx = random_below(32);
        let piece = charset.substring_char(idx, idx + 1);
        out.append(piece);
        proof {
            assert(piece@[0] == secret_alphabet()[idx as int]);
            assert(secret_alphabet().contains(piece@[0]));
        }
        i += 1;
    }
    out
}

} // verus!
