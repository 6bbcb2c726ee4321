//! The demo page: a greeting, a sum, and a button that fetches a post.

use vstd::prelude::*;
use crate::dom::get_element_by_id;
use crate::logger::LogLevel;
use crate::logger::LogRecordView;
use crate::logger::Logger;
use crate::mock_client::MockHttpClient;
use crate::mock_client::MockResponseView;
use crate::mock_client::response_to;
use crate::mock_client::text_result;
use crate::page::EventKind;
use crate::page::Handler;
use crate::page::Listener;
use crate::page::Page;
use crate::page::PageView;
use crate::page::Target;
use crate::text::push_signed_decimal;
use crate::text::signed_decimal;

verus! {

/// A page with the outcome of a step of the demo, whose failures are plain
/// messages.
pub struct DemoStep {
    pub page: PageView,
    pub outcome: Result<(), Seq<char>>,
}

/// The markup of the demo's result: the greeting and the sum of two and
/// three.
pub open spec fn result_markup(greeting: Seq<char>, sum: int) -> Seq<char> {
    "<p>"@ + greeting + "</p><p>2 + 3 = "@ + signed_decimal(sum) + "</p>"@
}

/// `text` with every line feed written as a `<br>` tag.
pub open spec fn with_breaks(text: Seq<char>) -> Seq<char>
    decreases text.len(),
{
    if text.len() == 0 {
        Seq::empty()
    } else if text.last() == '\n' {
        with_breaks(text.drop_last()) + "<br>"@
    } else {
        with_breaks(text.drop_last()).push(text.last())
    }
}

impl PageView {
    /// Setting up the demo page: the greeting for `WebAssembly` and the sum
    /// go into the element `result`, and a click on the element `fetchPost`
    /// is wired to fetch the post into the element `postContent`. What
    /// fails first ends it; the result written before stays written.
    pub open spec fn init_example(self, mocks: Map<Seq<char>, MockResponseView>) -> DemoStep {
        if !self.has_window {
            DemoStep { page: self, outcome: Err("Window not found"@) }
        } else if !self.has_document {
            DemoStep { page: self, outcome: Err("Document not found"@) }
        } else {
            match response_to(mocks, "/api/greet?name="@ + "WebAssembly"@) {
                Err(message) => DemoStep { page: self, outcome: Err(message) },
                Ok(greeting) => match self.element_with_id("result"@) {
                    None => DemoStep { page: self, outcome: Err("Result div not found"@) },
                    Some(result) => {
                        let shown = self.with_html(result, result_markup(greeting, 5));
                        match shown.element_with_id("fetchPost"@) {
                            None => DemoStep {
                                page: shown,
                                outcome: Err("Fetch button not found"@),
                            },
                            Some(button) => match shown.element_with_id("postContent"@) {
                                None => DemoStep {
                                    page: shown,
                                    outcome: Err("Post content div not found"@),
                                },
                                Some(content) => DemoStep {
                                    page: shown.with_listener(
                                        Listener {
                                            target: Target::Element(button as usize),
                                            event: EventKind::Click,
                                            handler: Handler::FetchPost {
                                                content: content as usize,
                                            },
                                        },
                                    ),
                                    outcome: Ok(()),
                                },
                            },
                        }
                    },
                },
            }
        }
    }

    /// Showing what a fetch of the post came to in element `content`: the
    /// post's text with its line feeds as tags, or, after a failure that is
    /// logged, a note of it. An element that the document does not hold is
    /// left out, and only the log line is written.
    pub open spec fn show_post(self, content: int, fetched: Result<Seq<char>, Seq<char>>)
        -> PageView {
        match fetched {
            Ok(text) => if 0 <= content < self.elements.len() {
                self.with_html(content, with_breaks(text))
            } else {
                self
            },
            Err(detail) => {
                let logged = self.with_console_line(
                    LogRecordView {
                        level: LogLevel::Log,
                        text: "Error fetching post: "@ + detail,
                        style: None,
                    },
                );
                if 0 <= content < self.elements.len() {
                    logged.with_html(content, "Error fetching post data"@)
                } else {
                    logged
                }
            },
        }
    }
}

/// The sum of `a` and `b`.
pub fn add(a: i32, b: i32) -> (r: i32)
    requires
        i32::MIN <= a + b <= i32::MAX,
    ensures
        r == a + b,
{
    a + b
}

/// Asks the greeting endpoint of `client` to greet `name`.
pub fn greet(client: &MockHttpClient, name: &str) -> (r: Result<String, String>)
    ensures
        text_result(r) == response_to(client@, "/api/greet?name="@ + name@),
{
    let url = String::from_str("/api/greet?name=").concat(name);
    client.get(url.as_str())
}

fn markup_of_result(greeting: &str, sum: i32) -> (r: String)
    ensures
        r@ == result_markup(greeting@, sum as int),
{
    let mut out = String::from_str("<p>");
    out.append(greeting);
    out.append("</p><p>2 + 3 = ");
    push_signed_decimal(&mut out, sum as i64);
    out.append("</p>");
    out
}

/// `text` with every line feed written as a `<br>` tag.
pub fn break_lines(text: &str) -> (r: String)
    ensures
        r@ == with_breaks(text@),
{
    let n = text.unicode_len();
    let mut out = String::new();
    let mut i: usize = 0;
    assert(text@.subrange(0, 0) =~= Seq::<char>::empty());
    while i < n
        invariant
            i <= n == text@.len(),
            out@ == with_breaks(text@.subrange(0, i as int)),
        decreases n - i,
    {
        let c = text.get_char(i);
        proof {
            let next = text@.subrange(0, i + 1);
            assert(next.drop_last() =~= text@.subrange(0, i as int));
            assert(next.last() == c);
        }
        if c == '\n' {
            out.append("<br>");
        } else {
            let one = text.substring_char(i, i + 1);
            assert(one@ =~= seq![c]);
            out.append(one);
            assert(out@ =~= with_breaks(text@.subrange(0, i as int)).push(c));
        }
        i = i + 1;
    }
    assert(text@.subrange(0, n as int) =~= text@);
    out
}

/// The view of a step of the demo.
pub open spec fn demo_step(page: &Page, r: Result<(), String>) -> DemoStep {
    DemoStep {
        page: page@,
        outcome: match r {
            Ok(_) => Ok(()),
            Err(message) => Err(message@),
        },
    }
}

/// Sets up the demo page: writes the greeting for `WebAssembly` and the sum
/// of two and three into the element `result`, and wires a click on the
/// element `fetchPost` to fetch the post into the element `postContent`.
///
/// Fails with a message that names what is missing: the window, the
/// document, or one of the three elements.
pub fn init_example(page: &mut Page, client: &MockHttpClient) -> (r: Result<(), String>)
    ensures
        demo_step(final(page), r) == old(page)@.init_example(client@),
{
    if !page.has_window {
        return Err(String::from_str("Window not found"));
    }
    if !page.has_document {
        return Err(String::from_str("Document not found"));
    }
    let greeting = match greet(client, "WebAssembly") {
        Ok(g) => g,
        Err(message) => {
            return Err(message);
        },
    };
    let result = match get_element_by_id(page, "result") {
        Ok(i) => i,
        Err(_) => {
            return Err(String::from_str("Result div not found"));
        },
    };
    page.set_html(result, markup_of_result(greeting.as_str(), self::add(2, 3)));
    let button = match get_element_by_id(page, "fetchPost") {
        Ok(i) => i,
        Err(_) => {
            return Err(String::from_str("Fetch button not found"));
        },
    };
    let content = match get_element_by_id(page, "postContent") {
        Ok(i) => i,
        Err(_) => {
            return Err(String::from_str("Post content div not found"));
        },
    };
    page.push_listener(
        Listener {
            target: Target::Element(button),
            event: EventKind::Click,
            handler: Handler::FetchPost { content: content },
        },
    );
    Ok(())
}

/// Shows what a fetch of the post came to in element `content`: the post's
/// text with its line feeds as `<br>` tags, or, after a failure, the note
/// `Error fetching post data`, with the failure itself written to the
/// console.
pub fn show_post(page: &mut Page, content: usize, fetched: Result<String, String>)
    ensures
        final(page)@ == old(page)@.show_post(content as int, text_result(fetched)),
{
    let n = page.elements.len();
    assert(n == page@.elements.len());
    match fetched {
        Ok(text) => {
            if content < n {
                page.set_html(content, break_lines(text.as_str()));
            }
        },
        Err(detail) => {
            let message = String::from_str("Error fetching post: ").concat(detail.as_str());
            proof {
                reveal_strlit("Error fetching post: ");
            }
            match Logger::log(message.as_str()) {
                Ok(record) => {
                    page.push_console_line(record);
                },
                Err(_) => {},
            }
            if content < n {
                page.set_html(content, String::from_str("Error fetching post data"));
            }
        },
    }
}

} // verus!
