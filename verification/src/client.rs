use kuchiki::traits::TendrilSink;
use vstd::prelude::*;

use crate::error::ClientError;
use crate::models::StoryId;
use crate::util::{decimal, parse_url, push_decimal, str_eq, url_parsed, Link};

verus! {

/// The number of a page of stories behind the first.
#[derive(Debug)]
pub struct Page(u32);

impl View for Page {
    type V = u32;

    closed spec fn view(&self) -> u32 {
        self.0
    }
}

impl Page {
    /// The page `page`, or nothing for 0 and 1, which are the front page.
    pub fn new(page: u32) -> (made: Option<Page>)
        ensures
            page <= 1 <==> made is None,
            made matches Some(p) ==> p@ == page,
    {
        if page > 1 {
            Some(Page(page))
        } else {
            None
        }
    }

    /// The number of the page.
    pub fn number(&self) -> (n: u32)
        ensures
            n == self@,
    {
        self.0
    }
}

/// The path under which the stories of `page` are found: that of the front
/// page where no page is given.
pub open spec fn index_path_of(page: Option<Page>) -> Seq<char> {
    match page {
        Some(p) => "page/"@ + decimal(p@ as nat),
        None => Seq::empty(),
    }
}

/// The path under which the stories of `page` are found.
pub fn index_path(page: Option<Page>) -> (path: String)
    ensures
        path@ == index_path_of(page),
{
    match page {
        Some(p) => {
            let mut path = String::from_str("page/");
            push_decimal(&mut path, p.0 as u64);
            path
        },
        None => String::new(),
    }
}

/// The path under which the story `id` and its comments are found.
pub fn story_path(id: &StoryId) -> (path: String)
    ensures
        path@ == "s/"@ + id.0@,
{
    let mut path = String::from_str("s/");
    path.append(id.0.as_str());
    path
}

/// Whether `location` is a URL and the same as `target`.
pub open spec fn leads_to(location: Option<Seq<char>>, target: Seq<char>) -> bool {
    match location {
        Some(text) => match url_parsed(text) {
            Some(link) => link.href == target,
            None => false,
        },
        None => false,
    }
}

/// Whether a response that sends the client on to `location` sends it to
/// `target`: a login has succeeded just when it does.
pub fn redirects_to(location: Option<&str>, target: &Link) -> (same: bool)
    ensures
        same == leads_to(
            match location {
                Some(text) => Some(text@),
                None => None,
            },
            target@.href,
        ),
{
    match location {
        Some(text) => match parse_url(text) {
            Ok(link) => str_eq(link.as_str(), target.as_str()),
            Err(_) => false,
        },
        None => false,
    }
}

/// Whether a login has succeeded, going by the answer to it: it has when
/// the answer is a redirect and sends the client on to `target`. Else the
/// login was not authorised.
pub fn login_outcome(redirect: bool, location: Option<&str>, target: &Link) -> (result: Result<
    (),
    ClientError,
>)
    ensures
        result is Ok <==> redirect && leads_to(
            match location {
                Some(text) => Some(text@),
                None => None,
            },
            target@.href,
        ),
        result matches Err(err) ==> err is Authorisation,
{
    if redirect && redirects_to(location, target) {
        Ok(())
    } else {
        Err(ClientError::Authorisation)
    }
}

/// What kuchiki finds in the page `html`: the value of the attribute
/// `attribute` of the first element that matches the selector `selector`,
/// or nothing where no element matches, the selector is none, or the
/// element has no such attribute.
pub uninterp spec fn first_attribute(
    html: Seq<char>,
    selector: Seq<char>,
    attribute: Seq<char>,
) -> Option<Seq<char>>;

/// The longest page, in characters, that is looked through.
pub const LONGEST_PAGE: usize = 0x1FFF_FFFF;

/// Parses `html` with kuchiki's `parse_html`, looks for the first element
/// that matches `selector` with `select_first`, and reads `attribute` among
/// its attributes with `Attributes::get`. The three read nothing but what
/// they are given, so the result is named after that. The parser keeps text
/// in buffers that hold less than four gibibytes and grow in powers of two,
/// and it panics beyond: a character takes four bytes at most, so a page of
/// `LONGEST_PAGE` characters stays within two gibibytes.
#[verifier::external_body]
pub(crate) fn attribute_of_first(html: &str, selector: &str, attribute: &str) -> (value: Option<
    String,
>)
    requires
        html@.len() <= LONGEST_PAGE,
    ensures
        match value {
            Some(text) => first_attribute(html@, selector@, attribute@) == Some(text@),
            None => first_attribute(html@, selector@, attribute@) is None,
        },
{
    let document = kuchiki::parse_html().one(html);
    match document.select_first(selector) {
        Ok(element) => element.attributes.borrow().get(attribute).map(String::from),
        Err(()) => None,
    }
}

/// The token against forged requests that the page `body` carries: the
/// content of its first `meta` element of the name `csrf-token`. The error
/// is that the page has no such element, or the element no content. The
/// page is of `LONGEST_PAGE` characters at most.
pub fn extract_csrf_token_from_html(body: &str) -> (result: Result<String, ClientError>)
    requires
        body@.len() <= LONGEST_PAGE,
    ensures
        match result {
            Ok(token) => first_attribute(body@, "meta[name='csrf-token']"@, "content"@) == Some(
                token@,
            ),
            Err(err) => err is MissingHtmlElement && first_attribute(
                body@,
                "meta[name='csrf-token']"@,
                "content"@,
            ) is None,
        },
{
    match attribute_of_first(body, "meta[name='csrf-token']", "content") {
        Some(token) => Ok(token),
        None => Err(ClientError::MissingHtmlElement),
    }
}

} // verus!
