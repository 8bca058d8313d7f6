//! The XOAUTH2 SASL client response: the single credential line sent on
//! the server's first, empty challenge, and the empty line sent on any
//! further challenge so the server reports its own failure.
use vstd::prelude::*;

verus! {

/// The XOAUTH2 credential line for a user and access token:
/// `user=<user>\x01auth=Bearer <token>\x01\x01`.
pub open spec fn xoauth2_line(user: Seq<char>, token: Seq<char>) -> Seq<char> {
    "user="@ + user + "\u{1}auth=Bearer "@ + token + "\u{1}\u{1}"@
}

/// The XOAUTH2 authenticator's state: the one response still owed to the
/// server. After it is taken, only empty responses remain, so a rejected
/// credential is never repeated.
pub struct XOAuth2 {
    pub response: String,
}

impl XOAuth2 {
    /// Prepare the credential line for a user and access token.
    pub fn new(user: &str, access_token: &str) -> (r: Self)
        ensures
            r.response@ == xoauth2_line(user@, access_token@),
    {
        let mut s = "user=".to_owned();
        s.append(user);
        s.append("\u{1}auth=Bearer ");
        s.append(access_token);
        s.append("\u{1}\u{1}");
        XOAuth2 { response: s }
    }

    /// Hand out the pending response and leave nothing behind: the first
    /// challenge gets the credential line, every later one the empty
    /// string.
    pub fn process(&mut self) -> (r: String)
        ensures
            r@ == old(self).response@,
            final(self).response@ == Seq::<char>::empty(),
    {
        let r = self.response.clone();
        self.response = String::new();
        r
    }
}

} // verus!
