//! The output formats a command can be asked for.
use vstd::prelude::*;
use crate::errors::{Result, TelegramCliError, is_message_error};
use crate::telegram::lowercase::{spec_to_lowercase, to_lowercase};
use crate::text::{concat3, seq_starts_with, str_eq, str_starts_with, views};

verus! {

/// How a result is printed.
#[derive(Debug, Clone, Copy, PartialEq, Eq, Structural)]
pub enum OutputFormat {
    Table,
    Yaml,
    Toml,
    Json,
    Ndjson,
}

/// The format named by an already lower-cased text, if any.
pub open spec fn spec_format_named(lower: Seq<char>) -> Option<OutputFormat> {
    if lower == "table"@ {
        Some(OutputFormat::Table)
    } else if lower == "yaml"@ {
        Some(OutputFormat::Yaml)
    } else if lower == "toml"@ {
        Some(OutputFormat::Toml)
    } else if lower == "json"@ {
        Some(OutputFormat::Json)
    } else if lower == "ndjson"@ {
        Some(OutputFormat::Ndjson)
    } else {
        None
    }
}

/// The format a text names, compared case-insensitively.
pub open spec fn spec_parse_format(s: Seq<char>) -> Option<OutputFormat> {
    spec_format_named(spec_to_lowercase(s))
}

/// The error text for a text that names no format.
pub open spec fn unsupported_format_message(s: Seq<char>) -> Seq<char> {
    "unsupported output format: "@ + s + ". Supported: table, yaml, toml, json, ndjson"@
}

/// `s` with every leading copy of `p` removed (`str::trim_start_matches`).
pub open spec fn trim_start_matches(s: Seq<char>, p: Seq<char>) -> Seq<char>
    decreases s.len(),
{
    if p.len() > 0 && seq_starts_with(s, p) {
        trim_start_matches(s.subrange(p.len() as int, s.len() as int), p)
    } else {
        s
    }
}

/// The format requested by `args[i..]`: the first `--json`, or the first
/// `--format X` / `--format=X` whose value names a format; `default` otherwise.
pub open spec fn spec_detect_from(args: Seq<Seq<char>>, i: int, default: OutputFormat) -> OutputFormat
    decreases args.len() - i,
{
    if i < 0 || i >= args.len() {
        default
    } else if args[i] == "--json"@ {
        OutputFormat::Json
    } else if args[i] == "--format"@ {
        if i + 1 < args.len() {
            match spec_parse_format(args[i + 1]) {
                Some(f) => f,
                None => spec_detect_from(args, i + 2, default),
            }
        } else {
            default
        }
    } else if seq_starts_with(args[i], "--format="@) {
        match spec_parse_format(trim_start_matches(args[i], "--format="@)) {
            Some(f) => f,
            None => spec_detect_from(args, i + 1, default),
        }
    } else {
        spec_detect_from(args, i + 1, default)
    }
}

/// Removes every leading copy of `p` from `s`.
pub fn trim_start_matches_str(s: &str, p: &str) -> (r: String)
    ensures
        r@ == trim_start_matches(s@, p@),
{
    let chars = crate::text::chars_of(s);
    let pat = crate::text::chars_of(p);
    let mut start: usize = 0;
    assert(s@.subrange(0, s@.len() as int) =~= s@);
    if pat.len() > 0 {
        while start <= chars.len() && pat.len() <= chars.len() - start && crate::text::occurs_at_exec(
            chars.as_slice(),
            pat.as_slice(),
            start,
        )
            invariant
                chars@ == s@,
                pat@ == p@,
                pat@.len() > 0,
                start <= chars@.len(),
                trim_start_matches(s@, p@) == trim_start_matches(s@.subrange(start as int, s@.len() as int), p@),
            decreases chars@.len() - start,
        {
            proof {
                let rest = s@.subrange(start as int, s@.len() as int);
                assert(rest.subrange(0, p@.len() as int) =~= s@.subrange(start as int, start + p@.len()));
                assert(rest.subrange(p@.len() as int, rest.len() as int) =~= s@.subrange(start + p@.len(), s@.len() as int));
            }
            start = start + pat.len();
        }
        proof {
            let rest = s@.subrange(start as int, s@.len() as int);
            if p@.len() <= rest.len() {
                assert(rest.subrange(0, p@.len() as int) =~= s@.subrange(start as int, start + p@.len()));
            }
        }
    } else {
        assert(s@.subrange(0, s@.len() as int) =~= s@);
    }
    crate::text::string_of_range(chars.as_slice(), start, chars.len())
}

impl OutputFormat {
    /// The format named by an already lower-cased text; `original` is the text
    /// as the user wrote it, quoted in the error.
    pub fn from_lowercase(lower: &str, original: &str) -> (r: Result<OutputFormat>)
        ensures
            match spec_format_named(lower@) {
                Some(f) => r == Ok::<OutputFormat, TelegramCliError>(f),
                None => r is Err && is_message_error(r->Err_0, unsupported_format_message(original@)),
            },
    {
        if str_eq(lower, "table") {
            Ok(OutputFormat::Table)
        } else if str_eq(lower, "yaml") {
            Ok(OutputFormat::Yaml)
        } else if str_eq(lower, "toml") {
            Ok(OutputFormat::Toml)
        } else if str_eq(lower, "json") {
            Ok(OutputFormat::Json)
        } else if str_eq(lower, "ndjson") {
            Ok(OutputFormat::Ndjson)
        } else {
            Err(
                TelegramCliError::Message(
                    concat3(
                        "unsupported output format: ",
                        original,
                        ". Supported: table, yaml, toml, json, ndjson",
                    ),
                ),
            )
        }
    }

    /// Parses a format name, case-insensitively.
    pub fn from_str(s: &str) -> (r: Result<OutputFormat>)
        ensures
            match spec_parse_format(s@) {
                Some(f) => r == Ok::<OutputFormat, TelegramCliError>(f),
                None => r is Err && is_message_error(r->Err_0, unsupported_format_message(s@)),
            },
    {
        let lower = to_lowercase(s);
        OutputFormat::from_lowercase(lower.as_str(), s)
    }

    /// The format chosen by the `--format` and `--json` flags: `--json` wins,
    /// then `--format`, then YAML.
    pub fn from_flags(format: Option<&str>, json: bool) -> (r: Result<OutputFormat>)
        ensures
            json ==> r == Ok::<OutputFormat, TelegramCliError>(OutputFormat::Json),
            !json && format is None ==> r == Ok::<OutputFormat, TelegramCliError>(OutputFormat::Yaml),
            !json && format is Some ==> match spec_parse_format(format->0@) {
                Some(f) => r == Ok::<OutputFormat, TelegramCliError>(f),
                None => r is Err && is_message_error(r->Err_0, unsupported_format_message(format->0@)),
            },
    {
        if json {
            return Ok(OutputFormat::Json);
        }
        match format {
            Some(value) => OutputFormat::from_str(value),
            None => Ok(OutputFormat::Yaml),
        }
    }

    /// The format requested on a command line, YAML when none is.
    pub fn detect_requested_format(args: &[String]) -> (r: OutputFormat)
        ensures
            r == spec_detect_from(views(args@), 0, OutputFormat::Yaml),
    {
        OutputFormat::detect_requested_format_or(args, OutputFormat::Yaml)
    }

    /// The format requested on a command line, `default` when none is.
    pub fn detect_requested_format_or(args: &[String], default: OutputFormat) -> (r: OutputFormat)
        ensures
            r == spec_detect_from(views(args@), 0, default),
    {
        let ghost a = views(args@);
        let mut i: usize = 0;
        while i < args.len()
            invariant
                a == views(args@),
                i <= args@.len(),
                spec_detect_from(a, 0, default) == spec_detect_from(a, i as int, default),
            decreases args@.len() - i,
        {
            let arg = args[i].as_str();
            assert(a[i as int] == arg@);
            if str_eq(arg, "--json") {
                return OutputFormat::Json;
            } else if str_eq(arg, "--format") {
                if i + 1 < args.len() {
                    assert(a[i + 1] == args@[i + 1]@);
                    match OutputFormat::from_str(args[i + 1].as_str()) {
                        Ok(f) => {
                            return f;
                        },
                        Err(_) => {},
                    }
                    i = i + 2;
                } else {
                    return default;
                }
            } else if str_starts_with(arg, "--format=") {
                let value = trim_start_matches_str(arg, "--format=");
                match OutputFormat::from_str(value.as_str()) {
                    Ok(f) => {
                        return f;
                    },
                    Err(_) => {},
                }
                i = i + 1;
            } else {
                i = i + 1;
            }
        }
        default
    }
}

} // verus!
