use video_player::example::add;
use video_player::example::break_lines;
use video_player::example::greet;
use video_player::example::init_example;
use video_player::example::show_post;
use video_player::logger::LogLevel;
use video_player::mock_client::MockHttpClient;
use video_player::page::Element;
use video_player::page::EventKind;
use video_player::page::Handler;
use video_player::page::Listener;
use video_player::page::Page;
use video_player::page::Target;
use video_player::post_client::format_post;
use video_player::post_client::Post;

fn demo_page() -> Page {
    let mut page = Page::new();
    page.push_element(Element::new("result"));
    page.push_element(Element::new("fetchPost"));
    page.push_element(Element::new("postContent"));
    page
}

#[test]
fn it_works() {
    let result = add(2, 2);
    assert_eq!(result, 4);
}

#[test]
fn add_handles_negative_numbers() {
    assert_eq!(add(-7, 3), -4);
    assert_eq!(add(i32::MAX, 0), i32::MAX);
    assert_eq!(add(i32::MIN, 1), i32::MIN + 1);
}

#[test]
fn test_greet() {
    let mut client = MockHttpClient::new();
    let test_name = "TestUser";
    let test_url = format!("/api/greet?name={}", test_name);
    let expected_response = "Hello, TestUser!";
    client.mock_response(&test_url, 200, expected_response.to_string());
    let result = greet(&client, test_name).unwrap();
    assert_eq!(result, expected_response);
}

#[test]
fn greeting_needs_no_configuration() {
    let mut client = MockHttpClient::new();
    client.clear_mocks();
    assert_eq!(greet(&client, "WebAssembly"), Ok("Hello, WebAssembly!".to_string()));
    assert_eq!(greet(&client, ""), Ok("Hello, !".to_string()));
}

#[test]
fn greeting_stops_at_a_second_name() {
    let client = MockHttpClient::new();
    assert_eq!(client.get("/api/greet?name=Ada&name=Bob"), Ok("Hello, Ada&!".to_string()));
    assert_eq!(client.get("/api/greet?name=name="), Ok("Hello, !".to_string()));
    assert_eq!(client.get("/api/greet?name=nam"), Ok("Hello, nam!".to_string()));
}

#[test]
fn test_mock_client() {
    let mut client = MockHttpClient::new();
    let test_url = "/api/greet?name=Test";
    let test_response = "Hello, Test!".to_string();
    client.mock_response(test_url, 200, test_response.clone());
    let result = client.get(test_url).unwrap();
    assert_eq!(result, test_response);
}

#[test]
fn test_mock_client_error() {
    let mut client = MockHttpClient::new();
    let test_url = "/api/Error?name=Error";
    client.mock_response(test_url, 404, "Not Found".to_string());
    let result = client.get(test_url);
    assert!(result.is_err());
    assert_eq!(result, Err("HTTP Error: 404".to_string()));
}

#[test]
fn mock_client_answers_configured_urls() {
    let mut client = MockHttpClient::new();
    assert_eq!(
        client.get("/api/posts/1"),
        Err("No mock response configured for this URL".to_string())
    );
    client.mock_response("/api/posts/1", 200, "first".to_string());
    assert_eq!(client.get("/api/posts/1"), Ok("first".to_string()));
    client.mock_response("/api/posts/1", 200, "second".to_string());
    assert_eq!(client.get("/api/posts/1"), Ok("second".to_string()));
    client.mock_response("/api/posts/1", 500, "broken".to_string());
    assert_eq!(client.get("/api/posts/1"), Err("HTTP Error: 500".to_string()));
    client.clear_mocks();
    assert_eq!(
        client.get("/api/posts/1"),
        Err("No mock response configured for this URL".to_string())
    );
}

#[test]
fn mock_client_keeps_other_urls_apart() {
    let mut client = MockHttpClient::new();
    client.mock_response("/a", 200, "A".to_string());
    client.mock_response("/b", 200, "B".to_string());
    assert_eq!(client.get("/a"), Ok("A".to_string()));
    assert_eq!(client.get("/b"), Ok("B".to_string()));
    assert_eq!(client.get("/api/greet"), Err("No mock response configured for this URL".to_string()));
}

#[test]
fn post_is_shown_with_number_and_title() {
    let post = Post {
        userId: 1,
        id: 1,
        title: "sunt aut facere".to_string(),
        body: "quia et suscipit\nsuscipit recusandae".to_string(),
    };
    assert_eq!(
        format_post(&post),
        "Post #1: sunt aut facere\n\nquia et suscipit\nsuscipit recusandae"
    );
    let negative = Post { userId: 0, id: -12, title: String::new(), body: String::new() };
    assert_eq!(format_post(&negative), "Post #-12: \n\n");
}

#[test]
fn line_feeds_become_tags() {
    assert_eq!(break_lines(""), "");
    assert_eq!(break_lines("one"), "one");
    assert_eq!(break_lines("one\ntwo\n\nthree"), "one<br>two<br><br>three");
    assert_eq!(break_lines("\u{e9}t\u{e9}\n"), "\u{e9}t\u{e9}<br>");
}

#[test]
fn demo_page_is_set_up() {
    let mut page = demo_page();
    let client = MockHttpClient::new();
    assert_eq!(init_example(&mut page, &client), Ok(()));
    assert_eq!(
        page.elements[0].html,
        Some("<p>Hello, WebAssembly!</p><p>2 + 3 = 5</p>".to_string())
    );
    assert_eq!(
        page.listeners,
        vec![Listener {
            target: Target::Element(1),
            event: EventKind::Click,
            handler: Handler::FetchPost { content: 2 },
        }]
    );
}

#[test]
fn demo_page_names_what_is_missing() {
    let client = MockHttpClient::new();

    let mut page = demo_page();
    page.has_window = false;
    assert_eq!(init_example(&mut page, &client), Err("Window not found".to_string()));

    let mut page = demo_page();
    page.has_document = false;
    assert_eq!(init_example(&mut page, &client), Err("Document not found".to_string()));

    let mut page = Page::new();
    assert_eq!(init_example(&mut page, &client), Err("Result div not found".to_string()));

    let mut page = Page::new();
    page.push_element(Element::new("result"));
    assert_eq!(init_example(&mut page, &client), Err("Fetch button not found".to_string()));
    assert!(page.elements[0].html.is_some());
    assert!(page.listeners.is_empty());

    let mut page = Page::new();
    page.push_element(Element::new("result"));
    page.push_element(Element::new("fetchPost"));
    assert_eq!(init_example(&mut page, &client), Err("Post content div not found".to_string()));
    assert!(page.listeners.is_empty());
}

#[test]
fn fetched_post_is_shown() {
    let mut page = demo_page();
    show_post(&mut page, 2, Ok("Post #1: title\n\nbody".to_string()));
    assert_eq!(page.elements[2].html, Some("Post #1: title<br><br>body".to_string()));
    assert!(page.console.is_empty());
}

#[test]
fn failed_fetch_is_logged_and_noted() {
    let mut page = demo_page();
    show_post(&mut page, 2, Err("TypeError: Failed to fetch".to_string()));
    assert_eq!(page.elements[2].html, Some("Error fetching post data".to_string()));
    assert_eq!(page.console.len(), 1);
    assert_eq!(page.console[0].level, LogLevel::Log);
    assert_eq!(page.console[0].text, "Error fetching post: TypeError: Failed to fetch");

    let mut page = demo_page();
    show_post(&mut page, 7, Ok("text".to_string()));
    assert_eq!(page, demo_page());
}
