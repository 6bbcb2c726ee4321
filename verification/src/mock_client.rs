//! A stand-in for an HTTP client: canned responses by URL, and a greeting
//! endpoint that answers by itself.

use vstd::prelude::*;
use crate::text::decimal;
use crate::text::find;
use crate::text::first_occurrence;
use crate::text::occurs;
use crate::text::occurs_at;
use crate::text::push_decimal;

verus! {

/// A canned response.
#[derive(Debug, Clone, PartialEq, Eq)]
pub struct MockResponse {
    pub status: u16,
    pub body: String,
}

/// The mathematical value of a [`MockResponse`].
pub struct MockResponseView {
    pub status: u16,
    pub body: Seq<char>,
}

impl View for MockResponse {
    type V = MockResponseView;

    open spec fn view(&self) -> MockResponseView {
        MockResponseView { status: self.status, body: self.body@ }
    }
}

/// One configured URL with its response.
#[derive(Debug, Clone, PartialEq, Eq)]
struct Mock {
    url: String,
    response: MockResponse,
}

/// The client: the responses configured so far, by URL.
#[derive(Debug, Clone, PartialEq, Eq)]
pub struct MockHttpClient {
    mocks: Vec<Mock>,
}

/// The responses that a list of mocks configures: for each URL the one
/// configured last.
spec fn configured(mocks: Seq<Mock>) -> Map<Seq<char>, MockResponseView>
    decreases mocks.len(),
{
    if mocks.len() == 0 {
        Map::empty()
    } else {
        configured(mocks.drop_last()).insert(mocks.last().url@, mocks.last().response@)
    }
}

impl View for MockHttpClient {
    type V = Map<Seq<char>, MockResponseView>;

    closed spec fn view(&self) -> Map<Seq<char>, MockResponseView> {
        configured(self.mocks@)
    }
}

/// Whether `url` asks the greeting endpoint.
pub open spec fn is_greeting(url: Seq<char>) -> bool {
    occurs_at(url, "/api/greet?name="@, 0)
}

/// Whom a greeting URL names: what follows its first `name=`, up to the
/// next `name=` if there is one.
pub open spec fn greeted_name(url: Seq<char>) -> Seq<char> {
    url.subrange(16, first_occurrence(url, "name="@, 16))
}

/// What the client answers to a request for `url`.
///
/// The greeting endpoint answers by itself. Any other URL gets the body
/// configured for it if its status is 200, an error that carries the
/// status if it is not, and an error if nothing is configured.
pub open spec fn response_to(mocks: Map<Seq<char>, MockResponseView>, url: Seq<char>) -> Result<
    Seq<char>,
    Seq<char>,
> {
    if is_greeting(url) {
        Ok("Hello, "@ + greeted_name(url) + "!"@)
    } else if mocks.contains_key(url) {
        if mocks[url].status == 200 {
            Ok(mocks[url].body)
        } else {
            Err("HTTP Error: "@ + decimal(mocks[url].status as nat))
        }
    } else {
        Err("No mock response configured for this URL"@)
    }
}

/// The view of a response of text.
pub open spec fn text_result(r: Result<String, String>) -> Result<Seq<char>, Seq<char>> {
    match r {
        Ok(body) => Ok(body@),
        Err(message) => Err(message@),
    }
}

proof fn configured_last_wins(mocks: Seq<Mock>, url: Seq<char>, k: int)
    requires
        0 <= k < mocks.len(),
        mocks[k].url@ == url,
        forall|j: int| k < j < mocks.len() ==> mocks[j].url@ != url,
    ensures
        configured(mocks).contains_key(url),
        configured(mocks)[url] == mocks[k].response@,
    decreases mocks.len(),
{
    if k < mocks.len() - 1 {
        configured_last_wins(mocks.drop_last(), url, k);
    }
}

proof fn configured_nowhere(mocks: Seq<Mock>, url: Seq<char>)
    requires
        forall|j: int| 0 <= j < mocks.len() ==> mocks[j].url@ != url,
    ensures
        !configured(mocks).contains_key(url),
    decreases mocks.len(),
{
    if mocks.len() > 0 {
        configured_nowhere(mocks.drop_last(), url);
    }
}

impl MockHttpClient {
    /// A client with the one response it starts with: a greeting for
    /// `World`.
    pub fn new() -> (r: MockHttpClient)
        ensures
            r@ == Map::<Seq<char>, MockResponseView>::empty().insert(
                "/api/greet?name=World"@,
                MockResponseView { status: 200, body: "Hello, World!"@ },
            ),
    {
        let mut mocks: Vec<Mock> = Vec::new();
        mocks.push(
            Mock {
                url: String::from_str("/api/greet?name=World"),
                response: MockResponse { status: 200, body: String::from_str("Hello, World!") },
            },
        );
        proof {
            let only = mocks@;
            assert(only.drop_last().len() == 0);
            assert(configured(only.drop_last()) == Map::<Seq<char>, MockResponseView>::empty());
            assert(configured(only) == configured(only.drop_last()).insert(
                only.last().url@,
                only.last().response@,
            ));
        }
        MockHttpClient { mocks: mocks }
    }

    /// Configures the response for `url`, in place of any it had.
    pub fn mock_response(&mut self, url: &str, status: u16, body: String)
        ensures
            final(self)@ == old(self)@.insert(
                url@,
                MockResponseView { status: status, body: body@ },
            ),
    {
        self.mocks.push(
            Mock { url: String::from_str(url), response: MockResponse { status: status, body: body } },
        );
        proof {
            assert(self.mocks@.drop_last() =~= old(self).mocks@);
        }
    }

    /// Forgets every configured response.
    pub fn clear_mocks(&mut self)
        ensures
            final(self)@ == Map::<Seq<char>, MockResponseView>::empty(),
    {
        self.mocks.clear();
    }

    /// The mock configured last for `url`.
    fn lookup(&self, url: &str) -> (r: Option<usize>)
        ensures
            match r {
                Some(k) => k < self.mocks@.len() && self@.contains_key(url@) && self@[url@]
                    == self.mocks@[k as int].response@,
                None => !self@.contains_key(url@),
            },
    {
        let wanted = String::from_str(url);
        let mut i: usize = self.mocks.len();
        while i > 0
            invariant
                i <= self.mocks@.len(),
                wanted@ == url@,
                forall|j: int| i <= j < self.mocks@.len() ==> self.mocks@[j].url@ != url@,
            decreases i,
        {
            i = i - 1;
            if self.mocks[i].url == wanted {
                proof {
                    configured_last_wins(self.mocks@, url@, i as int);
                }
                return Some(i);
            }
        }
        proof {
            configured_nowhere(self.mocks@, url@);
        }
        None
    }

    /// Answers a request for `url`.
    pub fn get(&self, url: &str) -> (r: Result<String, String>)
        ensures
            text_result(r) == response_to(self@, url@),
    {
        let n = url.unicode_len();
        let prefix = "/api/greet?name=";
        proof {
            reveal_strlit("/api/greet?name=");
        }
        let m = prefix.unicode_len();
        if occurs(url, prefix, n, m, 0) {
            let end = find(url, "name=", 16);
            let name = url.substring_char(16, end);
            let mut greeting = String::from_str("Hello, ");
            greeting.append(name);
            greeting.append("!");
            return Ok(greeting);
        }
        match self.lookup(url) {
            Some(k) => {
                if self.mocks[k].response.status == 200 {
                    Ok(self.mocks[k].response.body.clone())
                } else {
                    let mut message = String::from_str("HTTP Error: ");
                    push_decimal(&mut message, self.mocks[k].response.status as u64);
                    Err(message)
                }
            },
            None => Err(String::from_str("No mock response configured for this URL")),
        }
    }
}

} // verus!
