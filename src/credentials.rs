use vstd::prelude::*;
use crate::error::ScanError;

verus! {

/// Accepts the token that an exchange issued: an absent or empty token is
/// `NoTokenIssued`.
pub fn accept_token(issued: Option<&str>) -> (r: Result<String, ScanError>)
    ensures
        match issued {
            Some(t) => if t@.len() > 0 {
                r is Ok && r->Ok_0@ == t@
            } else {
                r == Err::<String, ScanError>(ScanError::NoTokenIssued)
            },
            None => r == Err::<String, ScanError>(ScanError::NoTokenIssued),
        },
{
    match issued {
        Some(t) => if t.unicode_len() > 0 {
            Ok(String::from_str(t))
        } else {
            Err(ScanError::NoTokenIssued)
        },
        None => Err(ScanError::NoTokenIssued),
    }
}

/// The value of the authorization header that carries `token`.
pub fn bearer_value(token: &str) -> (r: String)
    ensures
        r@ == "Bearer "@ + token@,
{
    let mut v = String::from_str("Bearer ");
    v.append(token);
    v
}

} // verus!
