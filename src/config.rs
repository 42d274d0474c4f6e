use vstd::prelude::*;

verus! {

/// Process-wide settings, loaded once at startup and passed by reference into
/// every workflow; never changed afterwards.
pub struct Config {
    /// Shared secret expected in the authorization header.
    pub token: String,
    pub port: u16,
    pub card_number: String,
    pub card_name: String,
    pub card_month: String,
    pub card_year: String,
    pub card_cvv: String,
    /// Requester email used when a request names none.
    pub default_email: String,
}

impl Config {
    /// The email to use for a request: the one given, else the default.
    pub fn email_or_default(&self, given: Option<String>) -> (r: String)
        ensures
            match given {
                Some(e) => r@ == e@,
                None => r@ == self.default_email@,
            },
    {
        match given {
            Some(e) => e,
            None => self.default_email.clone(),
        }
    }
}

} // verus!
