use vstd::prelude::*;

verus! {

/// The value of the `Authorization` header that carries an access token.
pub fn bearer_header(access_token: &str) -> (r: String)
    ensures
        r@ == "Bearer "@ + access_token@,
{
    String::from_str("Bearer ").concat(access_token)
}

} // verus!
