use vstd::prelude::*;

verus! {

/// Claim set of a JSON web token: the required expiry plus the optional
/// registered claims the tool handles.
#[derive(Debug)]
pub struct Claims {
    pub exp: usize,
    pub aud: Option<String>,
    pub iat: Option<usize>,
    pub iss: Option<String>,
    pub nbf: Option<usize>,
    pub sub: Option<String>,
}

impl Claims {
    /// The claim set the signing subcommand issues: expiry, audience and
    /// subject as given, every other claim absent.
    pub fn new(exp: usize, aud: Option<String>, sub: Option<String>) -> (c: Claims)
        ensures
            c.exp == exp,
            c.aud == aud,
            c.sub == sub,
            c.iat is None,
            c.iss is None,
            c.nbf is None,
    {
        Claims { exp, aud, iat: None, iss: None, nbf: None, sub }
    }
}

impl Default for Claims {
    /// An empty claim set: expiry zero, every optional claim absent.
    fn default() -> (c: Claims)
        ensures
            c.exp == 0,
            c.aud is None,
            c.iat is None,
            c.iss is None,
            c.nbf is None,
            c.sub is None,
    {
        Claims { exp: 0, aud: None, iat: None, iss: None, nbf: None, sub: None }
    }
}

/// What token verification demands of a candidate's claims, as plain data;
/// the caller maps it onto its token library's validation settings.
#[derive(Debug)]
pub struct JwtValidationRules {
    /// Claims that must be present in the token.
    pub required_claims: Vec<&'static str>,
    /// The exact subject demanded, when one is demanded.
    pub sub: Option<String>,
    /// The exact audience demanded, when one is demanded.
    pub aud: Option<String>,
}

/// The rules the verifying subcommand applies: expiry, subject and audience
/// must be present, and subject and audience must equal the expected values
/// when those are given.
pub fn jwt_validation_rules(aud: Option<String>, sub: Option<String>) -> (r: JwtValidationRules)
    ensures
        r.required_claims@.len() == 3,
        r.required_claims@[0]@ == "exp"@,
        r.required_claims@[1]@ == "sub"@,
        r.required_claims@[2]@ == "aud"@,
        r.sub == sub,
        r.aud == aud,
{
    let mut required_claims: Vec<&'static str> = Vec::new();
    required_claims.push("exp");
    required_claims.push("sub");
    required_claims.push("aud");
    JwtValidationRules { required_claims, sub, aud }
}

} // verus!
