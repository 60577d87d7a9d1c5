//! Formatting of the generated script text.
use vstd::prelude::*;
use crate::error::InternalError;
use dprint_plugin_typescript::configuration::ConfigurationBuilder;
use dprint_plugin_typescript::{FormatTextOptions, format_text};

verus! {

/// The formatted form of script source `src`, or `None` when the formatter
/// cannot parse it.
pub uninterp spec fn ts_formatted(src: Seq<char>) -> Option<Seq<char>>;

/// Relies on `dprint_plugin_typescript::format_text`, configured with an
/// indent of 4 and a line width of 100: it returns the formatted text, no
/// text when the input is already formatted, and an error when the input
/// does not parse.
#[verifier::external_body]
fn format_ts(src: &str) -> (r: Option<String>)
    ensures
        r is None <==> ts_formatted(src@) is None,
        r matches Some(t) ==> ts_formatted(src@) == Some(t@),
{
    let config = ConfigurationBuilder::new().indent_width(4).line_width(100).build();
    let options = FormatTextOptions {
        path: std::path::Path::new("module.ts"),
        extension: None,
        text: src.to_string(),
        config: &config,
        external_formatter: None,
    };
    match format_text(options) {
        Ok(Some(text)) => Some(text),
        Ok(None) => Some(src.to_string()),
        Err(_) => None,
    }
}

/// The script formatter.
pub struct TsFormat;

impl TsFormat {
    /// Formats script source; text the formatter cannot parse is an internal
    /// error of the generator.
    pub fn format(source: &str) -> (r: Result<String, InternalError>)
        ensures
            r is Err <==> ts_formatted(source@) is None,
            r matches Ok(t) ==> ts_formatted(source@) == Some(t@),
            r matches Err(e) ==> e == InternalError::Format,
    {
        match format_ts(source) {
            Some(t) => Ok(t),
            None => Err(InternalError::Format),
        }
    }
}

} // verus!
