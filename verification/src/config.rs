//! User configuration: overrides for the subprocess's permission mode,
//! extra CLI arguments, and an extra system prompt. Reading and parsing
//! the on-disk TOML file is the caller's; the defaults and the prompt
//! assembly live here.

use vstd::prelude::*;
use vstd::string::StringExecFns;

verus! {

/// The configuration, all fields optional.
#[derive(Debug)]
pub struct Config {
    /// Overrides the permission mode handed to the subprocess.
    pub permission_mode: Option<String>,
    /// Additional CLI arguments passed to the subprocess.
    pub extra_args: Option<Vec<String>>,
    /// Text appended to the default system prompt.
    pub extra_system_prompt: Option<String>,
}

impl Default for Config {
    /// The default configuration: nothing overridden.
    fn default() -> (c: Config)
        ensures
            c.permission_mode is None,
            c.extra_args is None,
            c.extra_system_prompt is None,
    {
        Config { permission_mode: None, extra_args: None, extra_system_prompt: None }
    }
}

impl Config {
    /// Returns the permission mode, defaulting to `"acceptEdits"`.
    pub fn permission_mode(&self) -> (r: &str)
        ensures
            r@ == (match self.permission_mode {
                Option::Some(m) => m@,
                Option::None => "acceptEdits"@,
            }),
    {
        match &self.permission_mode {
            Option::Some(m) => m.as_str(),
            Option::None => "acceptEdits",
        }
    }

    /// Returns the extra CLI args, defaulting to none.
    pub fn extra_args(&self) -> (r: Vec<String>)
        ensures
            r@ == (match self.extra_args {
                Option::Some(v) => v@,
                Option::None => Seq::<String>::empty(),
            }),
    {
        match &self.extra_args {
            Option::Some(v) => {
                let mut out: Vec<String> = Vec::new();
                let mut i: usize = 0;
                while i < v.len()
                    invariant
                        0 <= i <= v@.len(),
                        out@ == v@.take(i as int),
                    decreases v@.len() - i,
                {
                    out.push(v[i].clone());
                    proof {
                        assert(out@ =~= v@.take(i + 1));
                    }
                    i += 1;
                }
                proof {
                    assert(v@.take(v@.len() as int) =~= v@);
                }
                out
            },
            Option::None => Vec::new(),
        }
    }

    /// Appends the extra system prompt (if any) to `prompt`, separated by
    /// a blank line; without one, leaves `prompt` unchanged.
    pub fn append_system_prompt(&self, prompt: &mut String)
        ensures
            final(prompt)@ == old(prompt)@ + (match self.extra_system_prompt {
                Option::Some(e) => "\n\n"@ + e@,
                Option::None => Seq::<char>::empty(),
            }),
    {
        let ghost prev = prompt@;
        match &self.extra_system_prompt {
            Option::Some(e) => {
                prompt.append("\n\n");
                prompt.append(e.as_str());
                proof {
                    assert(prompt@ =~= prev + ("\n\n"@ + e@));
                }
            },
            Option::None => {
                proof {
                    assert(prompt@ =~= prev + Seq::<char>::empty());
                }
            },
        }
    }
}

/// The default configuration file path under the platform configuration
/// directory, when one is known.
pub open spec fn spec_default_config_path(config_dir: Option<Seq<char>>) -> Option<Seq<char>> {
    match config_dir {
        Option::Some(d) => Option::Some(d + "/ai-mergetool/config.toml"@),
        Option::None => Option::None,
    }
}

/// Builds the default configuration file path from the platform
/// configuration directory, when the caller resolved one.
pub fn default_config_path(config_dir: Option<String>) -> (r: Option<String>)
    ensures
        (match r {
            Option::Some(p) => spec_default_config_path(
                match config_dir {
                    Option::Some(d) => Option::Some(d@),
                    Option::None => Option::None,
                },
            ) == Option::Some(p@),
            Option::None => config_dir is None,
        }),
{
    match config_dir {
        Option::Some(d) => {
            let mut out = d;
            out.append("/ai-mergetool/config.toml");
            Option::Some(out)
        },
        Option::None => Option::None,
    }
}

/// Why generating a configuration file was refused.
#[derive(Debug, PartialEq, Eq, Structural)]
pub enum GenerateConfigError {
    /// No explicit output path was given and no default configuration
    /// directory is known.
    NoDefaultDirectory,
    /// The target file already exists and overwriting was not forced.
    AlreadyExists,
}

/// A request to write the configuration template to disk.
#[derive(Debug)]
pub struct GenerateConfigArgs {
    /// Write to this path instead of the default location.
    pub output: Option<String>,
    /// Overwrite an existing file.
    pub force: bool,
}

impl GenerateConfigArgs {
    /// The path the template should be written to: the explicit output
    /// path when given, else the default path when one is known, else an
    /// error.
    pub fn target_path(&self, default_path: Option<String>) -> (r: Result<
        String,
        GenerateConfigError,
    >)
        ensures
            (match (self.output, default_path) {
                (Option::Some(p), _) => r == Result::<String, GenerateConfigError>::Ok(p),
                (Option::None, Option::Some(d)) => r == Result::<
                    String,
                    GenerateConfigError,
                >::Ok(d),
                (Option::None, Option::None) => r == Result::<String, GenerateConfigError>::Err(
                    GenerateConfigError::NoDefaultDirectory,
                ),
            }),
    {
        match &self.output {
            Option::Some(p) => Result::Ok(p.clone()),
            Option::None => match default_path {
                Option::Some(d) => Result::Ok(d),
                Option::None => Result::Err(GenerateConfigError::NoDefaultDirectory),
            },
        }
    }

    /// Checks whether the target may be written given whether it already
    /// exists: an existing file is refused unless overwriting was forced.
    pub fn check_overwrite(&self, already_exists: bool) -> (r: Result<(), GenerateConfigError>)
        ensures
            r == (if already_exists && !self.force {
                Result::<(), GenerateConfigError>::Err(GenerateConfigError::AlreadyExists)
            } else {
                Result::<(), GenerateConfigError>::Ok(())
            }),
    {
        if already_exists && !self.force {
            Result::Err(GenerateConfigError::AlreadyExists)
        } else {
            Result::Ok(())
        }
    }
}

} // verus!
