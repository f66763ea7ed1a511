//! Run configuration: the command-line arguments as plain values, and
//! the two-state context around them — uninitialized until every
//! connection argument is present, initialized after the single
//! validating transition.

use core::marker::PhantomData;
use vstd::prelude::*;

use crate::nocodb::NocoDB;
use crate::text::bool_to_string;
use crate::text::char_to_string;
use crate::text::i64_to_string;
use crate::text::spec_decimal;

verus! {

/// The command-line arguments and options, as plain values.
#[derive(Debug)]
pub struct Cli {
    /// Path to the CSV file to upload.
    pub csv_file: String,
    /// NocoDB server base URL.
    pub nocodb_base_url: Option<String>,
    /// NocoDB API token.
    pub nocodb_api_token: Option<String>,
    /// NocoDB table identifier.
    pub nocodb_table_id: Option<String>,
    /// Number of parallel workers used to upload data.
    pub parallel_jobs: Option<i8>,
    /// Number of CSV rows to upload in a single request.
    pub chunk_size: Option<i32>,
    /// CSV separator character.
    pub csv_separator: Option<char>,
    /// CSV quote character.
    pub csv_quote_separator: Option<char>,
    /// Whether to read the file as the legacy single-byte encoding
    /// instead of Unicode.
    pub use_windows_format: Option<bool>,
}

fn clone_opt_string(o: &Option<String>) -> (r: Option<String>)
    ensures
        r == *o,
{
    match o {
        Some(s) => Some(s.clone()),
        None => None,
    }
}

fn opt_string_or_empty(o: &Option<String>) -> (r: String)
    ensures
        r@ == opt_str_view(*o),
{
    match o {
        Some(s) => s.clone(),
        None => String::new(),
    }
}

/// The text of an optional string argument, empty when absent.
pub open spec fn opt_str_view(o: Option<String>) -> Seq<char> {
    match o {
        Some(s) => s@,
        None => Seq::empty(),
    }
}

impl Clone for Cli {
    /// An exact copy of the arguments.
    fn clone(&self) -> (r: Cli)
        ensures
            r == *self,
    {
        Cli {
            csv_file: self.csv_file.clone(),
            nocodb_base_url: clone_opt_string(&self.nocodb_base_url),
            nocodb_api_token: clone_opt_string(&self.nocodb_api_token),
            nocodb_table_id: clone_opt_string(&self.nocodb_table_id),
            parallel_jobs: self.parallel_jobs,
            chunk_size: self.chunk_size,
            csv_separator: self.csv_separator,
            csv_quote_separator: self.csv_quote_separator,
            use_windows_format: self.use_windows_format,
        }
    }
}

impl Cli {
    /// The arguments as name/value text pairs in name order, for
    /// display: absent strings show empty, absent numbers and flags
    /// show their type's zero value.
    pub fn to_map(&self) -> (r: Vec<(String, String)>)
        ensures
            r@.map_values(|p: (String, String)| (p.0@, p.1@)) == seq![
                ("chunk_size"@, spec_decimal(
                    match self.chunk_size {
                        Some(v) => v as int,
                        None => 0,
                    },
                )),
                ("csv_file"@, self.csv_file@),
                ("csv_quote_separator"@, seq![
                    match self.csv_quote_separator {
                        Some(c) => c,
                        None => '\u{0}',
                    },
                ]),
                ("csv_separator"@, seq![
                    match self.csv_separator {
                        Some(c) => c,
                        None => '\u{0}',
                    },
                ]),
                ("nocodb_api_token"@, opt_str_view(self.nocodb_api_token)),
                ("nocodb_base_url"@, opt_str_view(self.nocodb_base_url)),
                ("nocodb_table_id"@, opt_str_view(self.nocodb_table_id)),
                ("parallel_jobs"@, spec_decimal(
                    match self.parallel_jobs {
                        Some(v) => v as int,
                        None => 0,
                    },
                )),
                ("use_windows_format"@, (
                    if (match self.use_windows_format {
                        Some(b) => b,
                        None => false,
                    }) {
                        "true"@
                    } else {
                        "false"@
                    }
                )),
            ],
    {
        let mut r: Vec<(String, String)> = Vec::new();
        let chunk: i64 = match self.chunk_size {
            Some(v) => v as i64,
            None => 0,
        };
        r.push((String::from_str("chunk_size"), i64_to_string(chunk)));
        r.push((String::from_str("csv_file"), self.csv_file.clone()));
        let qc: char = match self.csv_quote_separator {
            Some(c) => c,
            None => '\u{0}',
        };
        r.push((String::from_str("csv_quote_separator"), char_to_string(qc)));
        let sc: char = match self.csv_separator {
            Some(c) => c,
            None => '\u{0}',
        };
        r.push((String::from_str("csv_separator"), char_to_string(sc)));
        r.push((String::from_str("nocodb_api_token"), opt_string_or_empty(&self.nocodb_api_token)));
        r.push((String::from_str("nocodb_base_url"), opt_string_or_empty(&self.nocodb_base_url)));
        r.push((String::from_str("nocodb_table_id"), opt_string_or_empty(&self.nocodb_table_id)));
        let jobs: i64 = match self.parallel_jobs {
            Some(v) => v as i64,
            None => 0,
        };
        r.push((String::from_str("parallel_jobs"), i64_to_string(jobs)));
        let windows: bool = match self.use_windows_format {
            Some(b) => b,
            None => false,
        };
        r.push((String::from_str("use_windows_format"), bool_to_string(windows)));
        proof {
            assert(r@.map_values(|p: (String, String)| (p.0@, p.1@)) =~= seq![
                ("chunk_size"@, spec_decimal(
                    match self.chunk_size {
                        Some(v) => v as int,
                        None => 0,
                    },
                )),
                ("csv_file"@, self.csv_file@),
                ("csv_quote_separator"@, seq![
                    match self.csv_quote_separator {
                        Some(c) => c,
                        None => '\u{0}',
                    },
                ]),
                ("csv_separator"@, seq![
                    match self.csv_separator {
                        Some(c) => c,
                        None => '\u{0}',
                    },
                ]),
                ("nocodb_api_token"@, opt_str_view(self.nocodb_api_token)),
                ("nocodb_base_url"@, opt_str_view(self.nocodb_base_url)),
                ("nocodb_table_id"@, opt_str_view(self.nocodb_table_id)),
                ("parallel_jobs"@, spec_decimal(
                    match self.parallel_jobs {
                        Some(v) => v as int,
                        None => 0,
                    },
                )),
                ("use_windows_format"@, (
                    if (match self.use_windows_format {
                        Some(b) => b,
                        None => false,
                    }) {
                        "true"@
                    } else {
                        "false"@
                    }
                )),
            ]);
        }
        r
    }
}

/// Marker for the two states the context can stand in.
pub trait ContextStatus {

}

/// Context state before all connection arguments are known present.
pub struct Uninitialized;

/// Context state after the validating transition: every connection
/// argument is present.
pub struct Initialized;

impl ContextStatus for Uninitialized {

}

impl ContextStatus for Initialized {

}

/// Why the context could not be initialized.
#[derive(Debug, Clone, Copy, PartialEq, Eq, Structural)]
pub enum ConfigError {
    /// A required connection argument (base URL, token or table id) is
    /// absent.
    MissingArguments,
}

/// The run context: the arguments and the NocoDB client built from
/// them, tagged with how far initialization got.
pub struct Context<S: ContextStatus> {
    pub nocodb: NocoDB,
    pub args: Cli,
    pub status: PhantomData<S>,
}

impl Context<Uninitialized> {
    /// A fresh, uninitialized context from the arguments.  When both
    /// the base URL and the token are already present the client is
    /// built from them; otherwise it stays unconfigured.
    pub fn from_args(args: &Cli) -> (r: Context<Uninitialized>)
        ensures
            r.args == *args,
            args.nocodb_base_url is Some && args.nocodb_api_token is Some ==> (r.nocodb.base_url@
                == args.nocodb_base_url->0@ && r.nocodb.api_key@ == args.nocodb_api_token->0@),
            args.nocodb_base_url is None || args.nocodb_api_token is None ==> (r.nocodb.base_url@
                == Seq::<char>::empty() && r.nocodb.api_key@ == Seq::<char>::empty()),
    {
        let nocodb: NocoDB = match (&args.nocodb_base_url, &args.nocodb_api_token) {
            (Some(u), Some(k)) => NocoDB::new(u.clone(), k.clone()),
            _ => NocoDB::default(),
        };
        Context { nocodb, args: args.clone(), status: PhantomData }
    }

    /// Whether any connection argument needed to run the command is
    /// still absent.
    pub fn has_missing_args(&self) -> (r: bool)
        ensures
            r == (self.args.nocodb_base_url is None || self.args.nocodb_api_token is None
                || self.args.nocodb_table_id is None),
    {
        self.args.nocodb_base_url.is_none() || self.args.nocodb_api_token.is_none()
            || self.args.nocodb_table_id.is_none()
    }

    /// The single validating transition: succeeds exactly when every
    /// connection argument is present, and then yields the initialized
    /// context with the client built from the URL and token.
    pub fn init(&self) -> (r: Result<Context<Initialized>, ConfigError>)
        ensures
            r is Ok <==> (self.args.nocodb_base_url is Some && self.args.nocodb_api_token is Some
                && self.args.nocodb_table_id is Some),
            r matches Ok(c) ==> (c.args == self.args && c.nocodb.base_url@
                == self.args.nocodb_base_url->0@ && c.nocodb.api_key@
                == self.args.nocodb_api_token->0@),
            r is Err ==> r == Result::<Context<Initialized>, ConfigError>::Err(
                ConfigError::MissingArguments,
            ),
    {
        match (&self.args.nocodb_base_url, &self.args.nocodb_api_token, &self.args.nocodb_table_id) {
            (Some(u), Some(k), Some(_)) => Ok(
                Context {
                    nocodb: NocoDB::new(u.clone(), k.clone()),
                    args: self.args.clone(),
                    status: PhantomData,
                },
            ),
            _ => Err(ConfigError::MissingArguments),
        }
    }
}

} // verus!
