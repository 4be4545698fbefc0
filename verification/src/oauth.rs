//! The XOAUTH2 credentials a Gmail IMAP session is opened with.

use vstd::prelude::*;
use vstd::string::StringExecFns;

verus! {

/// The XOAUTH2 initial response for `user` and `token`, as the SASL
/// mechanism defines it: `user=<user>^Aauth=Bearer <token>^A^A`.
pub open spec fn xoauth2_response(user: Seq<char>, token: Seq<char>) -> Seq<char> {
    "user="@ + user + "\x01auth=Bearer "@ + token + "\x01\x01"@
}

/// The XOAUTH2 response carries the whole account name and the whole token,
/// each exactly once at its place: `user=` (5 characters), the account, then
/// `^Aauth=Bearer ` (13 characters), the token, then `^A^A`.
pub proof fn law_response_carries_whole_fields(user: Seq<char>, token: Seq<char>)
    ensures
        ({
            let r = xoauth2_response(user, token);
            let u = user.len() as int;
            let t = token.len() as int;
            &&& r.len() == u + t + 20
            &&& r.subrange(0, 5) == seq!['u', 's', 'e', 'r', '=']
            &&& r.subrange(5, 5 + u) == user
            &&& r[5 + u] == '\x01'
            &&& r.subrange(6 + u, 18 + u) == seq!['a', 'u', 't', 'h', '=', 'B', 'e', 'a', 'r', 'e', 'r', ' ']
            &&& r.subrange(18 + u, 18 + u + t) == token
            &&& r.subrange(18 + u + t, 20 + u + t) == seq!['\x01', '\x01']
        }),
{
    reveal_strlit("user=");
    reveal_strlit("\x01auth=Bearer ");
    reveal_strlit("\x01\x01");
    let r = xoauth2_response(user, token);
    let u = user.len() as int;
    let t = token.len() as int;
    assert(r.subrange(0, 5) =~= seq!['u', 's', 'e', 'r', '=']);
    assert(r.subrange(5, 5 + u) =~= user);
    assert(r.subrange(6 + u, 18 + u) =~= seq!['a', 'u', 't', 'h', '=', 'B', 'e', 'a', 'r', 'e', 'r', ' ']);
    assert(r.subrange(18 + u, 18 + u + t) =~= token);
    assert(r.subrange(18 + u + t, 20 + u + t) =~= seq!['\x01', '\x01']);
}

/// A Gmail account and the OAuth2 access token that signs it in.
pub struct GmailOAuth2 {
    pub user: String,
    pub access_token: String,
}

impl GmailOAuth2 {
    /// The answer to the server's challenge, which it does not look at: the
    /// XOAUTH2 response for this account and token.
    pub fn process(&self, data: &[u8]) -> (res: String)
        ensures
            res@ == xoauth2_response(self.user@, self.access_token@),
    {
        let res = String::from_str("user=");
        let res = res.concat(self.user.as_str());
        let res = res.concat("\x01auth=Bearer ");
        let res = res.concat(self.access_token.as_str());
        res.concat("\x01\x01")
    }
}

} // verus!
