use datetime_page::clock::current_clock;
use datetime_page::clock::format_date;
use datetime_page::clock::Clock;
use datetime_page::errors::RenderError;
use datetime_page::render::compile_index_source;
use datetime_page::render::message;
use datetime_page::render::render_index_with;
use datetime_page::render::TemplateCache;

#[test]
fn rendered_markup_is_identical_across_calls() {
    let t = compile_index_source("<html><p>{{ date }}|{{ time }}</p></html>").unwrap();
    let c1 = Clock::from_fields(2024, 1, 15, 9, 30, 0).unwrap();
    let c2 = Clock::from_fields(2025, 12, 31, 23, 59, 59).unwrap();
    let first = render_index_with(&t, &c1).unwrap();
    let again = render_index_with(&t, &c1).unwrap();
    assert_eq!(first, again);
    assert_eq!(first, "<html><p>2024-01-15|09:30:00</p></html>");
    let later = render_index_with(&t, &c2).unwrap();
    assert_eq!(later, "<html><p>2025-12-31|23:59:59</p></html>");
}

#[test]
fn context_binds_date_and_time() {
    let t = compile_index_source("{{ date }}").unwrap();
    let c = Clock::from_fields(2024, 1, 15, 9, 30, 0).unwrap();
    assert_eq!(render_index_with(&t, &c).unwrap(), "2024-01-15");
    let t = compile_index_source("{{ time }}").unwrap();
    assert_eq!(render_index_with(&t, &c).unwrap(), "09:30:00");
}

#[test]
fn unbound_variable_is_a_render_error() {
    let t = compile_index_source("{{ missing }}").unwrap();
    let c = Clock::from_fields(2024, 1, 15, 9, 30, 0).unwrap();
    let e = render_index_with(&t, &c).unwrap_err();
    assert!(e.is_render());
    assert!(!e.is_compile());
}

#[test]
fn bad_syntax_is_a_compile_error() {
    let e = compile_index_source("{% if %}").unwrap_err();
    assert!(e.is_compile());
    assert!(!e.is_render());
}

#[test]
fn missing_template_directory_is_a_compile_error() {
    // The test process runs where no `templates` directory exists, so the
    // entry-point file cannot be loaded.
    let cache = TemplateCache::new();
    let e = cache.render_index().unwrap_err();
    assert!(e.is_compile());
    let text = cache.get_index_template().unwrap_err().describe();
    assert!(text.to_lowercase().contains("error"));
}

#[test]
fn describe_carries_the_word_error_and_the_detail() {
    let e = RenderError::Render(String::from("boom"));
    assert_eq!(e.detail().as_str(), "boom");
    assert_eq!(e.describe(), "Error: boom");
    let e = RenderError::Compile(String::from("bad template"));
    assert_eq!(e.detail().as_str(), "bad template");
    assert_eq!(e.describe(), "Error: bad template");
}

#[test]
fn rendered_page_carries_todays_date() {
    let t = compile_index_source("<body>{{ date }}</body>").unwrap();
    let c = current_clock().expect("the machine clock is within the printable range");
    let html = render_index_with(&t, &c).unwrap();
    assert_eq!(html, format!("<body>{}</body>", format_date(&c)));
    assert!(html.contains(&format_date(&c)));
}

#[test]
fn message_is_the_fixed_greeting() {
    assert_eq!(message(), "Brought to you by htmx");
}
