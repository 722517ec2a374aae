//! The HTML shell of server-rendered pages and streaming settings.
use vstd::prelude::*;

verus! {

/// The stylesheet link of the shell: a `<link>` element for a path, nothing without one.
pub open spec fn css_link(css_path: Option<Seq<char>>) -> Seq<char> {
    match css_path {
        Some(p) => "<link rel=\"stylesheet\" href=\""@ + p + "\">"@,
        None => Seq::empty(),
    }
}

/// The HTML document wrapping a rendered body: doctype, head with meta tags,
/// the stylesheet link and the title, then the body.
pub open spec fn shell_html(app_name: Seq<char>, css_path: Option<Seq<char>>, body_html: Seq<char>) -> Seq<char> {
    "<!DOCTYPE html>\n<html lang=\"en\">\n<head>\n    <meta charset=\"utf-8\">\n    <meta name=\"viewport\" content=\"width=device-width, initial-scale=1\">\n    "@
        + css_link(css_path) + "\n    <title>"@ + app_name + "</title>\n</head>\n<body>\n    "@
        + body_html + "\n</body>\n</html>"@
}

/// The view of an optional string slice.
pub open spec fn opt_str_view(s: Option<&str>) -> Option<Seq<char>> {
    match s {
        Some(p) => Some(p@),
        None => None,
    }
}

/// The HTML shell for a server-rendered page.
pub fn generate_shell_html(app_name: &str, css_path: Option<&str>, body_html: &str) -> (r: String)
    ensures
        r@ == shell_html(app_name@, opt_str_view(css_path), body_html@),
{
    let mut s = "<!DOCTYPE html>\n<html lang=\"en\">\n<head>\n    <meta charset=\"utf-8\">\n    <meta name=\"viewport\" content=\"width=device-width, initial-scale=1\">\n    ".to_string();
    match css_path {
        Some(p) => {
            s.append("<link rel=\"stylesheet\" href=\"");
            s.append(p);
            s.append("\">");
        },
        None => {
            assert(s@ + css_link(None) =~= s@);
        },
    }
    s.append("\n    <title>");
    s.append(app_name);
    s.append("</title>\n</head>\n<body>\n    ");
    s.append(body_html);
    s.append("\n</body>\n</html>");
    s
}

/// Registration of server functions with a request handler; implemented by applications.
pub trait ServerFnRegistry {
    /// Register all server functions with the handler.
    fn register_server_fns<H>(handler: H) -> H;
}

/// Streaming response configuration.
#[derive(Debug, Clone, Copy, PartialEq, Eq, Structural)]
pub struct StreamConfig {
    /// Buffer size for streaming chunks.
    pub buffer_size: usize,
    /// Flush after shell is sent.
    pub flush_after_shell: bool,
    /// Flush after each section.
    pub flush_after_section: bool,
}

impl Default for StreamConfig {
    /// An 8 KiB buffer, flushing after the shell and after each section.
    fn default() -> (r: Self)
        ensures
            r == (StreamConfig { buffer_size: 8192, flush_after_shell: true, flush_after_section: true }),
    {
        StreamConfig { buffer_size: 8192, flush_after_shell: true, flush_after_section: true }
    }
}

impl StreamConfig {
    /// The default streaming configuration.
    pub fn new() -> (r: Self)
        ensures
            r == (StreamConfig { buffer_size: 8192, flush_after_shell: true, flush_after_section: true }),
    {
        StreamConfig::default()
    }

    /// Set the buffer size.
    pub fn with_buffer_size(self, size: usize) -> (r: Self)
        ensures
            r == (StreamConfig { buffer_size: size, ..self }),
    {
        StreamConfig { buffer_size: size, ..self }
    }

    /// Enable or disable flushing after the shell.
    pub fn flush_shell(self, enabled: bool) -> (r: Self)
        ensures
            r == (StreamConfig { flush_after_shell: enabled, ..self }),
    {
        StreamConfig { flush_after_shell: enabled, ..self }
    }

    /// Enable or disable flushing after each section.
    pub fn flush_sections(self, enabled: bool) -> (r: Self)
        ensures
            r == (StreamConfig { flush_after_section: enabled, ..self }),
    {
        StreamConfig { flush_after_section: enabled, ..self }
    }
}

} // verus!
