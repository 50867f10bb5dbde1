use aocmd_dl::articles::article_fragments;
use aocmd_dl::markdown::{append_block, join_blocks};
use aocmd_dl::request::{puzzle_url, request_headers, session_cookie};

fn texts(list: &[&str]) -> Vec<String> {
    list.iter().map(|text| text.to_string()).collect()
}

fn render(body: &str) -> String {
    let fragments = article_fragments(body).unwrap();
    let blocks: Vec<String> = fragments.iter().map(|html| html2md::parse_html(html)).collect();
    join_blocks(&blocks)
}

#[test]
fn address_of_a_puzzle() {
    assert_eq!(puzzle_url("2020", "1"), "https://adventofcode.com/2020/day/1");
    assert_eq!(puzzle_url("2015", "25"), "https://adventofcode.com/2015/day/25");
    assert_eq!(puzzle_url("", ""), "https://adventofcode.com//day/");
}

#[test]
fn cookie_of_a_session() {
    assert_eq!(session_cookie("abc123"), "session=abc123");
    assert_eq!(session_cookie(""), "session=");
}

#[test]
fn headers_without_a_token() {
    let headers = request_headers(None);
    assert_eq!(
        headers,
        vec![("User-Agent".to_string(), "https://github.com/dacbd/aocmd-dl".to_string())]
    );
}

#[test]
fn headers_with_a_token() {
    let headers = request_headers(Some("abc123"));
    assert_eq!(
        headers,
        vec![
            ("User-Agent".to_string(), "https://github.com/dacbd/aocmd-dl".to_string()),
            ("Cookie".to_string(), "session=abc123".to_string()),
        ]
    );
}

#[test]
fn no_blocks_give_an_empty_text() {
    assert_eq!(join_blocks(&Vec::new()), "");
}

#[test]
fn blocks_are_followed_by_two_blank_lines() {
    assert_eq!(join_blocks(&texts(&["one"])), "one\n\n\n");
    assert_eq!(join_blocks(&texts(&["one", "two"])), "one\n\n\ntwo\n\n\n");
    assert_eq!(join_blocks(&texts(&["", "x", ""])), "\n\n\nx\n\n\n\n\n\n");
}

#[test]
fn a_block_is_added_at_the_end() {
    let mut buffer = String::from("head");
    append_block(&mut buffer, "tail");
    assert_eq!(buffer, "headtail\n\n\n");
}

#[test]
fn joining_two_lists_is_joining_each() {
    let first = texts(&["a", "b"]);
    let second = texts(&["c"]);
    let mut both = first.clone();
    both.extend(second.clone());
    assert_eq!(join_blocks(&both), join_blocks(&first) + &join_blocks(&second));
}

#[test]
fn articles_are_found_in_order() {
    let body = "<html><body><main><article><p>one</p></article>\
                <article><p>two</p></article></main></body></html>";
    assert_eq!(article_fragments(body).unwrap(), texts(&["<p>one</p>", "<p>two</p>"]));
}

#[test]
fn a_page_without_articles_has_none() {
    assert_eq!(article_fragments("<html><body><p>none</p></body></html>").unwrap().len(), 0);
    assert_eq!(article_fragments("").unwrap().len(), 0);
}

#[test]
fn inner_markup_leaves_the_article_tag_out() {
    let body = "<article class=\"day-desc\"><h2>--- Day 1 ---</h2><p>Read <em>this</em>.</p></article>";
    assert_eq!(
        article_fragments(body).unwrap(),
        texts(&["<h2>--- Day 1 ---</h2><p>Read <em>this</em>.</p>"])
    );
}

#[test]
fn two_articles_give_two_blocks() {
    let body = "<html><body><article><p>first part</p></article>\
                <article><p>second part</p></article></body></html>";
    assert_eq!(render(body), "first part\n\n\nsecond part\n\n\n");
}

#[test]
fn a_page_without_articles_gives_an_empty_text() {
    assert_eq!(render("<html><body><p>nothing here</p></body></html>"), "");
}

#[test]
fn text_outside_the_articles_is_left_out() {
    let body = "<html><body><header>menu</header><article><p>kept</p></article>\
                <p>between</p><article><p>also kept</p></article><footer>end</footer>\
                </body></html>";
    assert_eq!(render(body), "kept\n\n\nalso kept\n\n\n");
}
