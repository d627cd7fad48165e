use vstd::prelude::*;

use crate::compare::str_eq;

verus! {

/// Output format of the CSV conversion subcommand.
#[derive(Clone, Copy, Debug, PartialEq, Eq, Structural)]
pub enum OutputFormat {
    Json,
    Yaml,
    Toml,
}

/// The canonical spelling of an output format, also its file extension.
pub open spec fn spec_output_format_name(format: OutputFormat) -> Seq<char> {
    match format {
        OutputFormat::Json => "json"@,
        OutputFormat::Yaml => "yaml"@,
        OutputFormat::Toml => "toml"@,
    }
}

impl OutputFormat {
    /// The canonical spelling of this format.
    pub fn name(&self) -> (s: &'static str)
        ensures
            s@ == spec_output_format_name(*self),
    {
        match self {
            OutputFormat::Json => "json",
            OutputFormat::Yaml => "yaml",
            OutputFormat::Toml => "toml",
        }
    }
}

/// Maps the exact spellings `"json"`, `"yaml"` and `"toml"` to their format;
/// anything else is rejected with a message naming the offending spelling.
pub fn parse_format(format: &str) -> (r: Result<OutputFormat, String>)
    ensures
        r == Ok::<OutputFormat, String>(OutputFormat::Json) <==> format@ == "json"@,
        r == Ok::<OutputFormat, String>(OutputFormat::Yaml) <==> format@ == "yaml"@,
        r == Ok::<OutputFormat, String>(OutputFormat::Toml) <==> format@ == "toml"@,
        r matches Err(e) ==> e@ == "Unsupported format: "@ + format@,
{
    proof {
        reveal_strlit("json");
        reveal_strlit("yaml");
        reveal_strlit("toml");
        assert("json"@[0] == 'j' && "yaml"@[0] == 'y' && "toml"@[0] == 't');
        assert("json"@ != "yaml"@ && "json"@ != "toml"@ && "yaml"@ != "toml"@);
    }
    if str_eq(format, "json") {
        Ok(OutputFormat::Json)
    } else if str_eq(format, "yaml") {
        Ok(OutputFormat::Yaml)
    } else if str_eq(format, "toml") {
        Ok(OutputFormat::Toml)
    } else {
        Err(String::from_str("Unsupported format: ").concat(format))
    }
}

/// Options of the CSV conversion subcommand.
#[derive(Debug)]
pub struct CsvOpts {
    pub input: String,
    pub output: Option<String>,
    pub format: OutputFormat,
    pub delimiter: char,
    pub header: bool,
}

impl CsvOpts {
    /// The file the conversion writes to: the name given explicitly, else a
    /// default name carrying the format's extension.
    pub fn output_file(&self) -> (name: String)
        ensures
            name@ == (match self.output {
                Some(o) => o@,
                None => "output."@ + spec_output_format_name(self.format),
            }),
    {
        match &self.output {
            Some(o) => o.clone(),
            None => String::from_str("output.").concat(self.format.name()),
        }
    }
}

} // verus!
