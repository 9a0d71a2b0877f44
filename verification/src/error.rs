use vstd::prelude::*;

verus! {

/// The name that was given for a theme and is none.
#[derive(Debug)]
pub struct ParseThemeError(pub String);

impl ParseThemeError {
    /// The message for the user.
    pub fn to_string(&self) -> (message: String)
        ensures
            message@ == "'"@ + self.0@
                + "' is not a valid theme. Options are: true, 256, mono, grey or gray"@,
    {
        let mut message = String::from_str("'");
        message.append(self.0.as_str());
        message.append("' is not a valid theme. Options are: true, 256, mono, grey or gray");
        message
    }
}

/// Why a stored session could not be used.
#[derive(Debug)]
pub enum LoginError {
    NoCookie,
    InvalidCookie,
}

/// Why the client of the site gives up.
#[derive(Debug)]
pub enum ClientError {
    /// What was to be a URL is none.
    Url(url::ParseError),
    /// An element that was looked for is not on the page.
    MissingHtmlElement,
    /// The request was not authorised, or the login failed.
    Authorisation,
}

/// Why the viewer gives up.
#[derive(Debug)]
pub enum Error {
    /// The client of the site gave up.
    Lobsters(ClientError),
    /// The time at which a story was created is no date.
    InvalidDate(chrono::ParseError),
}

} // verus!
