use vstd::prelude::*;

verus! {

/// Configuration of token checking: where the key set is fetched from,
/// and whether expiry times are enforced.
#[derive(Clone, Debug, PartialEq, Eq)]
pub struct JwtConfig {
    pub jwk_url: String,
    pub validate_expiry_time: bool,
}

/// The claims a full token carries.
#[derive(Clone, Debug, PartialEq, Eq)]
pub struct Claims {
    pub customer_number: u64,
    pub site: String,
    pub grant_type: String,
    pub locale: String,
    pub scope: Vec<String>,
    pub user_name: String,
}

/// The customer-identifying subset of the claims.
#[derive(Clone, Debug, PartialEq, Eq)]
pub struct CustomerClaim {
    pub customer_number: u64,
    pub site: String,
}

/// The request-side token checker: the key set fetched at startup, and
/// whether expiry times are enforced. Fetching the set is i/o and lives
/// at the edge; this type holds what the fetch produced.
pub struct JwtAuth {
    pub validate_expiry_time: bool,
    pub jwk_set: jsonwebtoken::jwk::JwkSet,
}

impl JwtAuth {
    pub fn from_key_set(jwk_set: jsonwebtoken::jwk::JwkSet, validate_expiry_time: bool) -> (r:
        Self)
        ensures
            r.validate_expiry_time == validate_expiry_time,
            r.jwk_set == jwk_set,
    {
        JwtAuth { validate_expiry_time, jwk_set }
    }
}

/// What can go wrong between receiving a token and trusting its claims.
/// Errors of the underlying libraries are carried as their rendered
/// text.
#[derive(Clone, Debug, PartialEq, Eq)]
pub enum JwtError {
    /// The key set could not be fetched.
    Http(String),
    /// The token's header could not be decoded.
    DecodeHeader(String),
    /// The token's header names no key id.
    NoKeyInHeader,
    /// No key in the set has the key id the token names.
    KeyNotFound(String),
    /// The key advertises no usable algorithm.
    KeyHasNoAlgorithm,
    /// The key's type is not supported for verification.
    UnsupportedKeyType(&'static str),
    /// The key's material could not be turned into a decoding key.
    DecodeKey(String),
    /// The token's signature or claims did not check out.
    DecodeJwt(String),
}

/// Relies on jsonwebtoken::jwk::JwkSet, carried opaquely as the fetched
/// key set.
#[verifier::external_type_specification]
#[verifier::external_body]
pub struct ExJwkSet(jsonwebtoken::jwk::JwkSet);

/// Relies on jsonwebtoken::jwk::Jwk, carried opaquely as one key of the
/// set.
#[verifier::external_type_specification]
#[verifier::external_body]
pub struct ExJwk(jsonwebtoken::jwk::Jwk);

/// Relies on jsonwebtoken::Algorithm, carried opaquely as a key's
/// signing algorithm.
#[verifier::external_type_specification]
#[verifier::external_body]
pub struct ExAlgorithm(jsonwebtoken::Algorithm);

/// Relies on jsonwebtoken::Validation, carried opaquely as the checks a
/// token must pass.
#[verifier::external_type_specification]
#[verifier::external_body]
pub struct ExValidation(jsonwebtoken::Validation);

/// Relies on jsonwebtoken::DecodingKey, carried opaquely as the key a
/// signature is checked with.
#[verifier::external_type_specification]
#[verifier::external_body]
pub struct ExDecodingKey(jsonwebtoken::DecodingKey);

/// Relies on jsonwebtoken::decode_header: reads the header of a compact
/// token without checking its signature, and fails when the token is not
/// three dot-separated parts with a decodable header. The key id is the
/// header's optional `kid` field.
#[verifier::external_body]
fn decode_header_kid(token: &str) -> (r: Result<Option<String>, String>) {
    match jsonwebtoken::decode_header(token) {
        Ok(header) => Ok(header.kid),
        Err(err) => Err(format!("{}", err)),
    }
}

/// Relies on jsonwebtoken::jwk::JwkSet::find: the first key of the set
/// whose key id equals the given one, if any.
#[verifier::external_body]
fn find_key<'a>(
    keys: &'a jsonwebtoken::jwk::JwkSet,
    kid: &str,
) -> (r: Option<&'a jsonwebtoken::jwk::Jwk>) {
    keys.find(kid)
}

/// Relies on jsonwebtoken::Algorithm::from_str: the signing algorithm
/// the key advertises, where it advertises one and that value names a
/// signing algorithm.
#[verifier::external_body]
fn usable_algorithm(key: &jsonwebtoken::jwk::Jwk) -> (r: Option<jsonwebtoken::Algorithm>) {
    let advertised = key.common.key_algorithm?;
    str::parse::<jsonwebtoken::Algorithm>(&advertised.to_string()).ok()
}

/// Relies on jsonwebtoken::Validation::new: a validation accepting
/// exactly the given algorithm; expiry checking is then switched as
/// asked.
#[verifier::external_body]
fn build_validation(
    alg: jsonwebtoken::Algorithm,
    validate_exp: bool,
) -> (r: jsonwebtoken::Validation) {
    let mut validation = jsonwebtoken::Validation::new(alg);
    validation.validate_exp = validate_exp;
    validation
}

/// The verification-relevant material of a key: its algorithm family,
/// with the modulus and exponent for an RSA key.
#[derive(Clone, Debug, PartialEq, Eq)]
pub enum KeyParams {
    Rsa { n: String, e: String },
    EllipticCurve,
    OctetKey,
    OctetKeyPair,
}

/// Relies on the algorithm field of jsonwebtoken::jwk::Jwk: tells the
/// key's algorithm family apart and hands out the RSA components.
#[verifier::external_body]
fn key_params(key: &jsonwebtoken::jwk::Jwk) -> (r: KeyParams) {
    match &key.algorithm {
        jsonwebtoken::jwk::AlgorithmParameters::RSA(p) => KeyParams::Rsa {
            n: p.n.clone(),
            e: p.e.clone(),
        },
        jsonwebtoken::jwk::AlgorithmParameters::EllipticCurve(_) => KeyParams::EllipticCurve,
        jsonwebtoken::jwk::AlgorithmParameters::OctetKey(_) => KeyParams::OctetKey,
        jsonwebtoken::jwk::AlgorithmParameters::OctetKeyPair(_) => KeyParams::OctetKeyPair,
    }
}

/// Relies on jsonwebtoken::DecodingKey::from_rsa_components: a
/// verification key from base64 RSA modulus and exponent, failing when
/// they do not decode.
#[verifier::external_body]
fn rsa_decoding_key(n: &str, e: &str) -> (r: Result<jsonwebtoken::DecodingKey, String>) {
    jsonwebtoken::DecodingKey::from_rsa_components(n, e).map_err(|err| format!("{}", err))
}

/// The key id a token must be checked under: the header must decode, and
/// must name a key id.
pub fn classify_header(header: Result<Option<String>, String>) -> (r: Result<String, JwtError>)
    ensures
        r == match header {
            Ok(Some(kid)) => Ok::<String, JwtError>(kid),
            Ok(None) => Err::<String, JwtError>(JwtError::NoKeyInHeader),
            Err(e) => Err::<String, JwtError>(JwtError::DecodeHeader(e)),
        },
{
    match header {
        Ok(Some(kid)) => Ok(kid),
        Ok(None) => Err(JwtError::NoKeyInHeader),
        Err(e) => Err(JwtError::DecodeHeader(e)),
    }
}

/// The key the set yielded for a key id; a missing key is an error
/// naming that id.
pub fn classify_key_lookup<'a>(
    found: Option<&'a jsonwebtoken::jwk::Jwk>,
    kid: String,
) -> (r: Result<&'a jsonwebtoken::jwk::Jwk, JwtError>)
    ensures
        (found matches Some(key) ==> r == Ok::<&'a jsonwebtoken::jwk::Jwk, JwtError>(key)),
        found is None ==> r == Err::<&'a jsonwebtoken::jwk::Jwk, JwtError>(
            JwtError::KeyNotFound(kid),
        ),
{
    match found {
        Some(key) => Ok(key),
        None => Err(JwtError::KeyNotFound(kid)),
    }
}

/// The algorithm a key must be checked with; a key advertising none is
/// an error.
pub fn classify_algorithm(alg: Option<jsonwebtoken::Algorithm>) -> (r: Result<
    jsonwebtoken::Algorithm,
    JwtError,
>)
    ensures
        (alg matches Some(a) ==> r == Ok::<jsonwebtoken::Algorithm, JwtError>(a)),
        alg is None ==> r == Err::<jsonwebtoken::Algorithm, JwtError>(JwtError::KeyHasNoAlgorithm),
{
    match alg {
        Some(a) => Ok(a),
        None => Err(JwtError::KeyHasNoAlgorithm),
    }
}

/// The decoding key for a key's material: only RSA keys are supported;
/// every other family is rejected by name, and RSA material that does
/// not decode is a key error.
pub fn decoding_key_for(params: KeyParams) -> (r: Result<jsonwebtoken::DecodingKey, JwtError>)
    ensures
        (params is Rsa ==> (r is Ok || r matches Err(JwtError::DecodeKey(_)))),
        (params is EllipticCurve ==> (r matches Err(e) && e matches JwtError::UnsupportedKeyType(t)
            && t@ == "EllipticCurve"@)),
        (params is OctetKey ==> (r matches Err(e) && e matches JwtError::UnsupportedKeyType(t)
            && t@ == "OctetKey"@)),
        (params is OctetKeyPair ==> (r matches Err(e) && e matches JwtError::UnsupportedKeyType(t)
            && t@ == "OctetKeyPair"@)),
{
    match params {
        KeyParams::Rsa { n, e } => match rsa_decoding_key(n.as_str(), e.as_str()) {
            Ok(key) => Ok(key),
            Err(msg) => Err(JwtError::DecodeKey(msg)),
        },
        KeyParams::EllipticCurve => Err(JwtError::UnsupportedKeyType("EllipticCurve")),
        KeyParams::OctetKey => Err(JwtError::UnsupportedKeyType("OctetKey")),
        KeyParams::OctetKeyPair => Err(JwtError::UnsupportedKeyType("OctetKeyPair")),
    }
}

/// Select and prepare the verification material for a token: its header
/// names a key id, the key set must hold that key, the key must
/// advertise an algorithm and be of a supported family. What comes back
/// is the decoding key and the validation to check the token with; which
/// stage failed is told apart by the error. The later verification
/// stages never fail here: this function yields no `Http` and no
/// `DecodeJwt` error.
pub fn prepare_decoding(
    keys: &jsonwebtoken::jwk::JwkSet,
    token: &str,
    validate_exp: bool,
) -> (r: Result<(jsonwebtoken::DecodingKey, jsonwebtoken::Validation), JwtError>)
    ensures
        !(r matches Err(JwtError::Http(_))),
        !(r matches Err(JwtError::DecodeJwt(_))),
{
    let kid = match classify_header(decode_header_kid(token)) {
        Ok(kid) => kid,
        Err(e) => return Err(e),
    };
    let key = match classify_key_lookup(find_key(keys, kid.as_str()), kid) {
        Ok(key) => key,
        Err(e) => return Err(e),
    };
    let algorithm = match classify_algorithm(usable_algorithm(key)) {
        Ok(a) => a,
        Err(e) => return Err(e),
    };
    let validation = build_validation(algorithm, validate_exp);
    let decoding_key = match decoding_key_for(key_params(key)) {
        Ok(k) => k,
        Err(e) => return Err(e),
    };
    Ok((decoding_key, validation))
}

/// The rejection of the request-side token check: no bearer token is
/// answered 401, a missing checker on the request is an internal 500,
/// an invalid token is answered 401, and a valid token passes.
pub fn jwt_rejection(bearer_present: bool, auth_present: bool, token_valid: bool) -> (r: Option<
    u16,
>)
    ensures
        r == if !bearer_present {
            Some(401u16)
        } else if !auth_present {
            Some(500u16)
        } else if !token_valid {
            Some(401u16)
        } else {
            None::<u16>
        },
{
    if !bearer_present {
        Some(401)
    } else if !auth_present {
        Some(500)
    } else if !token_valid {
        Some(401)
    } else {
        None
    }
}

} // verus!
