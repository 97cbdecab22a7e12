//! Password hashing and key derivation with Argon2id.

use crate::errors::{UtilsError, UtilsErrorView};
use argon2::{PasswordHasher, PasswordVerifier};
use rand::TryRngCore;
use vstd::prelude::*;
use vstd::slice::slice_to_vec;
use vstd::string::StrSliceExecFns;

verus! {

/// Argon2 parameters
#[derive(Debug, Clone, Copy, PartialEq, Eq)]
pub struct ArgonParams {
    /// Memory size, expressed in kibibytes, between 8*`p_cost` and (2^32)-1.
    pub memory: u32,
    /// Number of iterations, between 1 and (2^32)-1.
    pub iterations: u32,
    /// Degree of parallelism, between 1 and (2^24)-1.
    pub parallelism: u32,
    /// Output length, in bytes.
    pub output_len: usize,
}

/// The cost parameters that `argon2` recommends: 19 MiB of memory, two
/// iterations, one lane and an output of 32 bytes.
pub open spec fn default_params() -> ArgonParams {
    ArgonParams { memory: 19456, iterations: 2, parallelism: 1, output_len: 32 }
}

/// Reads the constants `DEFAULT_M_COST`, `DEFAULT_T_COST`, `DEFAULT_P_COST`
/// and `DEFAULT_OUTPUT_LEN` of `argon2::Params`. The contract gives the
/// values that the crate's source assigns to them.
#[verifier::external_body]
fn argon2_defaults() -> (params: ArgonParams)
    ensures
        params == default_params(),
{
    ArgonParams {
        memory: argon2::Params::DEFAULT_M_COST,
        iterations: argon2::Params::DEFAULT_T_COST,
        parallelism: argon2::Params::DEFAULT_P_COST,
        output_len: argon2::Params::DEFAULT_OUTPUT_LEN,
    }
}

impl Default for ArgonParams {
    fn default() -> (params: Self)
        ensures
            params == default_params(),
    {
        argon2_defaults()
    }
}

impl ArgonParams {
    /// Creates a new Argon2 parameters struct, with the recommended values
    pub fn new() -> (params: Self)
        ensures
            params == default_params(),
    {
        argon2_defaults()
    }

    /// Sets the memory size
    pub fn m_cost(self, memory: u32) -> (params: Self)
        ensures
            params == (ArgonParams { memory, ..self }),
    {
        let mut params = self;
        params.memory = memory;
        params
    }

    /// Sets the number of iterations
    pub fn t_cost(self, iterations: u32) -> (params: Self)
        ensures
            params == (ArgonParams { iterations, ..self }),
    {
        let mut params = self;
        params.iterations = iterations;
        params
    }

    /// Sets the degree of parallelism
    pub fn p_cost(self, parallelism: u32) -> (params: Self)
        ensures
            params == (ArgonParams { parallelism, ..self }),
    {
        let mut params = self;
        params.parallelism = parallelism;
        params
    }

    /// Sets the output length
    pub fn output_len(self, output_len: usize) -> (params: Self)
        ensures
            params == (ArgonParams { output_len, ..self }),
    {
        let mut params = self;
        params.output_len = output_len;
        params
    }
}

/// Extension trait for [`Option<T>`]: lets a function take a value or an
/// option of it.
pub trait IntoOptional<T>: Sized {
    /// What [`IntoOptional::into_optional`] returns.
    spec fn spec_into_optional(self) -> Option<T>;

    /// Convert T to [`Option<T>`]
    fn into_optional(self) -> (optional: Option<T>)
        ensures
            optional == self.spec_into_optional(),
    ;
}

impl<T> IntoOptional<T> for T {
    open spec fn spec_into_optional(self) -> Option<T> {
        Some(self)
    }

    fn into_optional(self) -> (optional: Option<T>) {
        Some(self)
    }
}

impl<T> IntoOptional<T> for Option<T> {
    open spec fn spec_into_optional(self) -> Option<T> {
        self
    }

    fn into_optional(self) -> (optional: Option<T>) {
        self
    }
}

/// The parameters that are used where `params` gives none.
pub open spec fn chosen_params(params: Option<ArgonParams>) -> ArgonParams {
    match params {
        Some(params) => params,
        None => default_params(),
    }
}

/// Whether `argon2` accepts the cost parameters: at least 8 KiB of memory
/// for each lane, at least one iteration, between one lane and 2^24 - 1, and
/// an output of 4 bytes up to 2^32 - 1.
pub open spec fn params_valid(params: ArgonParams) -> bool {
    &&& 8 <= params.memory
    &&& 8 * params.parallelism <= params.memory
    &&& 1 <= params.iterations
    &&& 1 <= params.parallelism <= 0xFF_FFFF
    &&& 4 <= params.output_len <= 0xFFFF_FFFF
}

/// The longest salt, in bytes, whose Base64 form fits the 64 characters of a
/// salt string.
pub const MAX_SALT_BYTES: usize = 48;

/// The shortest salt, in bytes, whose Base64 form has the four characters
/// that a salt string needs.
pub const MIN_SALT_BYTES: usize = 3;

/// The raw Argon2id hash (version 0x13) of `password` with `salt` under the
/// given cost parameters, or `None` where `argon2` refuses the inputs.
pub uninterp spec fn argon2id_hash(
    memory: u32,
    iterations: u32,
    parallelism: u32,
    output_len: usize,
    password: Seq<u8>,
    salt: Seq<u8>,
) -> Option<Seq<u8>>;

/// The PHC string of the Argon2id hash (version 0x13) of `password` with
/// `salt` under the given cost parameters, or `None` where `argon2` refuses
/// the inputs.
pub uninterp spec fn argon2id_phc(
    memory: u32,
    iterations: u32,
    parallelism: u32,
    output_len: usize,
    password: Seq<u8>,
    salt: Seq<u8>,
) -> Option<Seq<char>>;

/// Whether `hash` is a PHC string.
pub uninterp spec fn phc_parses(hash: Seq<char>) -> bool;

/// The parameters that the PHC string `hash` holds, each with its name and
/// its value, in the order of the string; none where `hash` is no PHC
/// string.
pub uninterp spec fn phc_params(hash: Seq<char>) -> Seq<(Seq<char>, Seq<char>)>;

/// Whether `password` matches the PHC string `hash`; no password matches a
/// string that is no PHC string.
pub uninterp spec fn phc_matches(password: Seq<u8>, hash: Seq<char>) -> bool;

/// Asks `argon2::Params::new` whether it accepts the cost parameters, with
/// the output length given. The contract repeats the checks of that
/// function; `requires` keeps eight times the lanes within `u32`, the
/// product that the function computes.
#[verifier::external_body]
fn argon2_accepts(params: ArgonParams) -> (accepted: bool)
    requires
        params.parallelism <= 0x1FFF_FFFF,
    ensures
        accepted == params_valid(params),
{
    argon2::Params::new(
        params.memory,
        params.iterations,
        params.parallelism,
        Some(params.output_len),
    ).is_ok()
}

/// Runs `argon2::Argon2::hash_password_into` with Argon2id, version 0x13,
/// into a buffer of `output_len` bytes. The contract names the result, and
/// states of it what the source shows at its entry: that a salt of fewer
/// than eight bytes is refused, and that a key has the length asked for.
#[verifier::external_body]
fn argon2id_into(params: ArgonParams, password: &[u8], salt: &[u8]) -> (key: Option<Vec<u8>>)
    requires
        params_valid(params),
    ensures
        match key {
            Some(key) => argon2id_hash(
                params.memory,
                params.iterations,
                params.parallelism,
                params.output_len,
                password@,
                salt@,
            ) == Some(key@) && key@.len() == params.output_len,
            None => argon2id_hash(
                params.memory,
                params.iterations,
                params.parallelism,
                params.output_len,
                password@,
                salt@,
            ) is None,
        },
        salt@.len() < 8 ==> key is None,
{
    let costs = argon2::Params::new(
        params.memory,
        params.iterations,
        params.parallelism,
        Some(params.output_len),
    ).ok()?;
    let mut key = vec![0u8; params.output_len];
    argon2::Argon2::new(argon2::Algorithm::Argon2id, argon2::Version::V0x13, costs)
        .hash_password_into(password, salt, &mut key)
        .ok()?;
    Some(key)
}

/// Asks `password_hash::SaltString::encode_b64` whether it can encode the
/// salt: it can where the Base64 form fits into 64 characters, that is for
/// salts of up to 48 bytes.
#[verifier::external_body]
fn salt_encodes(salt: &[u8]) -> (encodes: bool)
    ensures
        encodes == (salt@.len() <= MAX_SALT_BYTES),
{
    argon2::password_hash::SaltString::encode_b64(salt).is_ok()
}

/// Runs `argon2::PasswordHasher::hash_password` of Argon2id, version 0x13,
/// on the Base64 form of the salt, and renders the hash as a PHC string.
/// `requires` leaves out the salts on which making the salt string fails or
/// panics.
#[verifier::external_body]
fn argon2id_phc_string(params: ArgonParams, password: &[u8], salt: &[u8]) -> (phc: Option<String>)
    requires
        params_valid(params),
        MIN_SALT_BYTES <= salt@.len() <= MAX_SALT_BYTES,
    ensures
        match phc {
            Some(phc) => argon2id_phc(
                params.memory,
                params.iterations,
                params.parallelism,
                params.output_len,
                password@,
                salt@,
            ) == Some(phc@),
            None => argon2id_phc(
                params.memory,
                params.iterations,
                params.parallelism,
                params.output_len,
                password@,
                salt@,
            ) is None,
        },
{
    let costs = argon2::Params::new(
        params.memory,
        params.iterations,
        params.parallelism,
        Some(params.output_len),
    ).ok()?;
    let salt = argon2::password_hash::SaltString::encode_b64(salt).ok()?;
    let context = argon2::Argon2::new(argon2::Algorithm::Argon2id, argon2::Version::V0x13, costs);
    match context.hash_password(password, &salt) {
        Ok(hash) => Some(hash.to_string()),
        Err(_) => None,
    }
}

/// Asks `argon2::PasswordHash::new` whether `hash` parses as a PHC string.
#[verifier::external_body]
fn is_phc_string(hash: &str) -> (parses: bool)
    ensures
        parses == phc_parses(hash@),
{
    argon2::PasswordHash::new(hash).is_ok()
}

/// Reads the parameters of the PHC string `hash` with
/// `argon2::PasswordHash::new` and the iterator of its `params`.
#[verifier::external_body]
fn phc_param_list(hash: &str) -> (params: Vec<(String, String)>)
    ensures
        params.deep_view() == phc_params(hash@),
{
    match argon2::PasswordHash::new(hash) {
        Ok(parsed) => parsed.params.iter().map(
            |(name, value)| (name.as_str().to_string(), value.as_str().to_string()),
        ).collect(),
        Err(_) => Vec::new(),
    }
}

/// Checks `password` against the PHC string `hash` with
/// `argon2::PasswordVerifier::verify_password` of the default Argon2
/// context, which computes the hash anew with the parameters and the salt
/// that the string holds, and compares. It allocates the memory that the
/// string asks for. `requires` leaves out the strings that ask for so many
/// lanes that eight times their number does not fit into `u32`, the product
/// that `argon2` computes.
#[verifier::external_body]
fn phc_verify(password: &[u8], hash: &str) -> (matches: bool)
    requires
        !too_many_lanes(phc_params(hash@)),
    ensures
        matches == phc_matches(password@, hash@),
{
    match argon2::PasswordHash::new(hash) {
        Ok(parsed) => argon2::Argon2::default().verify_password(password, &parsed).is_ok(),
        Err(_) => false,
    }
}

/// Fills sixteen bytes from the operating system's random source with
/// `rand::rngs::OsRng::try_fill_bytes`. `None` stands for a source that
/// failed; of the bytes nothing is promised.
#[verifier::external_body]
fn os_random_salt() -> (salt: Option<[u8; 16]>) {
    let mut salt = [0u8; 16];
    rand::rngs::OsRng.try_fill_bytes(&mut salt).ok()?;
    Some(salt)
}

/// The name of the parameter that holds the number of lanes.
pub const LANES_PARAM: &'static str = "p";

/// The least number of lanes of which eight times as many do not fit into
/// `u32`.
pub const LANES_LIMIT: u64 = 0x2000_0000;

/// Whether `c` is a decimal digit.
pub open spec fn is_digit(c: char) -> bool {
    '0' <= c <= '9'
}

/// Whether `text` is made of decimal digits, and of at least one.
pub open spec fn is_number(text: Seq<char>) -> bool {
    text.len() > 0 && forall|i: int| 0 <= i < text.len() ==> is_digit(#[trigger] text[i])
}

/// The number that the decimal digits `text` stand for.
pub open spec fn number_value(text: Seq<char>) -> nat
    decreases text.len(),
{
    if text.len() == 0 {
        0
    } else {
        (number_value(text.drop_last()) * 10 + (text.last() as u32 - '0' as u32)) as nat
    }
}

/// Whether `text` is a number of lanes that `argon2` cannot take.
pub open spec fn is_over_limit(text: Seq<char>) -> bool {
    is_number(text) && number_value(text) >= LANES_LIMIT
}

/// Whether one of the parameters asks for a number of lanes that `argon2`
/// cannot take.
pub open spec fn too_many_lanes(params: Seq<(Seq<char>, Seq<char>)>) -> bool {
    exists|i: int|
        0 <= i < params.len() && (#[trigger] params[i]).0 == LANES_PARAM@ && is_over_limit(
            params[i].1,
        )
}

/// Whether `text` is a number of lanes that `argon2` cannot take.
pub fn over_limit(text: &str) -> (over: bool)
    ensures
        over == is_over_limit(text@),
{
    let n: usize = text.unicode_len();
    if n == 0 {
        return false;
    }
    let mut value: u64 = 0;
    let mut over = false;
    let mut i: usize = 0;
    while i < n
        invariant
            i <= n == text@.len(),
            forall|j: int| 0 <= j < i ==> is_digit(#[trigger] text@[j]),
            over == (number_value(text@.take(i as int)) >= LANES_LIMIT),
            !over ==> value == number_value(text@.take(i as int)),
        decreases n - i,
    {
        let c = text.get_char(i);
        if c < '0' || c > '9' {
            return false;
        }
        proof {
            assert(text@.take(i + 1).drop_last() == text@.take(i as int));
        }
        if !over {
            value = value * 10 + (c as u32 - '0' as u32) as u64;
            over = value >= LANES_LIMIT;
        }
        i += 1;
    }
    assert(text@.take(n as int) == text@);
    over
}

/// Whether one of the parameters asks for a number of lanes that `argon2`
/// cannot take.
pub fn asks_too_many_lanes(params: &Vec<(String, String)>) -> (too_many: bool)
    ensures
        too_many == too_many_lanes(params.deep_view()),
{
    let mut i: usize = 0;
    while i < params.len()
        invariant
            i <= params.len(),
            forall|j: int|
                0 <= j < i ==> !((#[trigger] params.deep_view()[j]).0 == LANES_PARAM@
                    && is_over_limit(params.deep_view()[j].1)),
        decreases params.len() - i,
    {
        assert(params.deep_view()[i as int] == (params[i as int].0@, params[i as int].1@));
        if params[i].0 == LANES_PARAM.to_owned() && over_limit(params[i].1.as_str()) {
            return true;
        }
        i += 1;
    }
    false
}

/// The view of the result of a function that returns bytes.
pub open spec fn bytes_result_view(result: Result<Vec<u8>, UtilsError>) -> Result<
    Seq<u8>,
    UtilsErrorView,
> {
    match result {
        Ok(bytes) => Ok(bytes@),
        Err(error) => Err(error@),
    }
}

/// The view of the result of a function that returns a string.
pub open spec fn string_result_view(result: Result<String, UtilsError>) -> Result<
    Seq<char>,
    UtilsErrorView,
> {
    match result {
        Ok(text) => Ok(text@),
        Err(error) => Err(error@),
    }
}

/// The key that [`derive_key`] returns: the Argon2id hash under the chosen
/// parameters, where the parameters are valid and `argon2` accepts password
/// and salt.
pub open spec fn spec_derive_key(
    params: Option<ArgonParams>,
    password: Seq<u8>,
    salt: Seq<u8>,
) -> Result<Seq<u8>, UtilsErrorView> {
    let params = chosen_params(params);
    if !params_valid(params) {
        Err(UtilsErrorView::FailedToCreateParams)
    } else {
        match argon2id_hash(
            params.memory,
            params.iterations,
            params.parallelism,
            params.output_len,
            password,
            salt,
        ) {
            Some(key) => Ok(key),
            None => Err(UtilsErrorView::FailedToDeriveKey),
        }
    }
}

/// The string that [`hash_password`] returns: the PHC string under the
/// chosen parameters, where the parameters are valid, the salt can be
/// encoded and `argon2` accepts password and salt.
pub open spec fn spec_hash_password(
    params: Option<ArgonParams>,
    password: Seq<u8>,
    salt: Seq<u8>,
) -> Result<Seq<char>, UtilsErrorView> {
    let params = chosen_params(params);
    if !params_valid(params) {
        Err(UtilsErrorView::FailedToCreateParams)
    } else if salt.len() > MAX_SALT_BYTES {
        Err(UtilsErrorView::FailedToEncodeSalt(salt))
    } else {
        match argon2id_phc(
            params.memory,
            params.iterations,
            params.parallelism,
            params.output_len,
            password,
            salt,
        ) {
            Some(phc) => Ok(phc),
            None => Err(UtilsErrorView::FailedToHashPassword),
        }
    }
}

/// Whether `argon2` accepts the cost parameters.
pub fn check_params(params: ArgonParams) -> (valid: bool)
    ensures
        valid == params_valid(params),
{
    params.parallelism <= 0xFF_FFFF && argon2_accepts(params)
}

/// The result of a key derivation whose hash came out as `hash`.
pub fn key_from_hash(hash: Option<Vec<u8>>) -> (key: Result<Vec<u8>, UtilsError>)
    ensures
        bytes_result_view(key) == match hash {
            Some(bytes) => Ok::<Seq<u8>, UtilsErrorView>(bytes@),
            None => Err(UtilsErrorView::FailedToDeriveKey),
        },
{
    match hash {
        Some(bytes) => Ok(bytes),
        None => Err(UtilsError::FailedToDeriveKey),
    }
}

/// The result of a password hashing whose PHC string came out as `phc`.
pub fn phc_from_hash(phc: Option<String>) -> (text: Result<String, UtilsError>)
    ensures
        string_result_view(text) == match phc {
            Some(phc) => Ok::<Seq<char>, UtilsErrorView>(phc@),
            None => Err(UtilsErrorView::FailedToHashPassword),
        },
{
    match phc {
        Some(phc) => Ok(phc),
        None => Err(UtilsError::FailedToHashPassword),
    }
}

/// What [`verify_password`] returns for `hash`: the error of a string that
/// is no PHC string; no match for a string that asks for more lanes than
/// `argon2` can take; and otherwise whether the password matches.
pub open spec fn spec_verdict(parsed: bool, too_many: bool, matched: bool, hash: Seq<char>) -> Result<
    bool,
    UtilsErrorView,
> {
    if !parsed {
        Err(UtilsErrorView::FailedToParsePHCString(hash))
    } else if too_many {
        Ok(false)
    } else {
        Ok(matched)
    }
}

/// The view of the result of a function that returns a truth value.
pub open spec fn bool_result_view(result: Result<bool, UtilsError>) -> Result<
    bool,
    UtilsErrorView,
> {
    match result {
        Ok(b) => Ok(b),
        Err(error) => Err(error@),
    }
}

/// The result of a password check on `hash`, where `parsed` tells whether
/// `hash` is a PHC string, `too_many` whether it asks for more lanes than
/// `argon2` can take, and `matched` whether the password matches it.
pub fn verdict_from_check(parsed: bool, too_many: bool, matched: bool, hash: &str) -> (matches:
    Result<bool, UtilsError>)
    ensures
        bool_result_view(matches) == spec_verdict(parsed, too_many, matched, hash@),
{
    if !parsed {
        Err(UtilsError::FailedToParsePHCString(hash.to_owned()))
    } else if too_many {
        Ok(false)
    } else {
        Ok(matched)
    }
}

/// The result of a salt generation whose random source gave `drawn`.
pub fn salt_from_draw(drawn: Option<[u8; 16]>) -> (salt: Result<[u8; 16], UtilsError>)
    ensures
        match drawn {
            Some(bytes) => salt == Ok::<[u8; 16], UtilsError>(bytes),
            None => salt matches Err(error) && error@ == UtilsErrorView::FailedToGenerateSalt,
        },
{
    match drawn {
        Some(bytes) => Ok(bytes),
        None => Err(UtilsError::FailedToGenerateSalt),
    }
}

/// Derive a key from a password and a salt using Argon2id.
///
/// Where no parameters are given, the recommended ones are used. The key
/// has the output length of the parameters.
pub fn derive_key<P: IntoOptional<ArgonParams>>(params: P, pass: &[u8], salt: &[u8]) -> (key:
    Result<Vec<u8>, UtilsError>)
    ensures
        bytes_result_view(key) == spec_derive_key(params.spec_into_optional(), pass@, salt@),
        key matches Ok(bytes) ==> bytes@.len() == chosen_params(
            params.spec_into_optional(),
        ).output_len,
        salt@.len() < 8 ==> key is Err,
{
    derive_key_impl(params.into_optional(), pass, salt)
}

fn derive_key_impl(params: Option<ArgonParams>, pass: &[u8], salt: &[u8]) -> (key: Result<
    Vec<u8>,
    UtilsError,
>)
    ensures
        bytes_result_view(key) == spec_derive_key(params, pass@, salt@),
        key matches Ok(bytes) ==> bytes@.len() == chosen_params(params).output_len,
        salt@.len() < 8 ==> key is Err,
{
    let params = match params {
        Some(params) => params,
        None => ArgonParams::new(),
    };
    if !check_params(params) {
        return Err(UtilsError::FailedToCreateParams);
    }
    key_from_hash(argon2id_into(params, pass, salt))
}

/// Generate a random salt of 16 bytes.
///
/// Fails, with [`UtilsError::FailedToGenerateSalt`], only where the
/// operating system's random source does.
pub fn generate_salt() -> (salt: Result<[u8; 16], UtilsError>)
    ensures
        salt matches Err(error) ==> error@ == UtilsErrorView::FailedToGenerateSalt,
{
    salt_from_draw(os_random_salt())
}

/// Hash a password using Argon2id; the result is a PHC string.
///
/// Where no parameters are given, the recommended ones are used. A salt of
/// fewer than [`MIN_SALT_BYTES`] bytes is not accepted.
pub fn hash_password<P: IntoOptional<ArgonParams>>(params: P, pass: &[u8], salt: &[u8]) -> (phc:
    Result<String, UtilsError>)
    requires
        MIN_SALT_BYTES <= salt@.len(),
    ensures
        string_result_view(phc) == spec_hash_password(params.spec_into_optional(), pass@, salt@),
{
    hash_password_impl(params.into_optional(), pass, salt)
}

fn hash_password_impl(params: Option<ArgonParams>, pass: &[u8], salt: &[u8]) -> (phc: Result<
    String,
    UtilsError,
>)
    requires
        MIN_SALT_BYTES <= salt@.len(),
    ensures
        string_result_view(phc) == spec_hash_password(params, pass@, salt@),
{
    let params = match params {
        Some(params) => params,
        None => ArgonParams::new(),
    };
    if !check_params(params) {
        return Err(UtilsError::FailedToCreateParams);
    }
    if !salt_encodes(salt) {
        return Err(UtilsError::FailedToEncodeSalt(slice_to_vec(salt)));
    }
    phc_from_hash(argon2id_phc_string(params, pass, salt))
}

/// Verify a password against a PHC string.
///
/// Returns whether the password matches, and
/// [`UtilsError::FailedToParsePHCString`] where `hash` is no PHC string. A
/// string that asks for 2^29 lanes or more is matched by no password.
pub fn verify_password(pass: &[u8], hash: &str) -> (matches: Result<bool, UtilsError>)
    ensures
        bool_result_view(matches) == spec_verdict(
            phc_parses(hash@),
            too_many_lanes(phc_params(hash@)),
            phc_matches(pass@, hash@),
            hash@,
        ),
{
    verify_password_impl(pass, hash)
}

fn verify_password_impl(pass: &[u8], hash: &str) -> (matches: Result<bool, UtilsError>)
    ensures
        bool_result_view(matches) == spec_verdict(
            phc_parses(hash@),
            too_many_lanes(phc_params(hash@)),
            phc_matches(pass@, hash@),
            hash@,
        ),
{
    let parsed = is_phc_string(hash);
    let too_many = parsed && asks_too_many_lanes(&phc_param_list(hash));
    let matched = parsed && !too_many && phc_verify(pass, hash);
    verdict_from_check(parsed, too_many, matched, hash)
}

} // verus!
