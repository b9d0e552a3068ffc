//! Registration of the merge tool with version-control programs: which
//! programs to configure and exactly which configuration keys and values
//! each gets. Running the programs is the caller's.

use vstd::prelude::*;
use vstd::string::StringExecFns;

use crate::redact::dir_views;

verus! {

/// A version-control program the merge tool can be registered with.
#[derive(Clone, Copy, Debug, PartialEq, Eq, Structural)]
pub enum InstallProgram {
    /// Register as a merge tool for Git.
    Git,
    /// Register as a merge tool for jj.
    Jj,
}

/// Why an installation request could not proceed.
#[derive(Debug, PartialEq, Eq, Structural)]
pub enum InstallError {
    /// Neither supported program is available on this system.
    NoProgramAvailable,
}

/// The views of a vector of string pairs.
pub open spec fn pair_views(s: Seq<(String, String)>) -> Seq<(Seq<char>, Seq<char>)> {
    s.map_values(|p: (String, String)| (p.0@, p.1@))
}

impl InstallProgram {
    /// The program's executable name.
    pub fn program(&self) -> (r: &str)
        ensures
            r@ == (match *self {
                InstallProgram::Git => "git"@,
                InstallProgram::Jj => "jj"@,
            }),
    {
        match self {
            InstallProgram::Git => "git",
            InstallProgram::Jj => "jj",
        }
    }

    /// The programs to configure when none were named: each supported
    /// program that is available on this system, Git first.
    pub fn default_values(git_available: bool, jj_available: bool) -> (r: Vec<InstallProgram>)
        ensures
            r@ == (if git_available {
                seq![InstallProgram::Git]
            } else {
                Seq::<InstallProgram>::empty()
            }) + (if jj_available {
                seq![InstallProgram::Jj]
            } else {
                Seq::<InstallProgram>::empty()
            }),
    {
        let mut out: Vec<InstallProgram> = Vec::new();
        if git_available {
            out.push(InstallProgram::Git);
        }
        if jj_available {
            out.push(InstallProgram::Jj);
        }
        proof {
            assert(out@ =~= (if git_available {
                seq![InstallProgram::Git]
            } else {
                Seq::<InstallProgram>::empty()
            }) + (if jj_available {
                seq![InstallProgram::Jj]
            } else {
                Seq::<InstallProgram>::empty()
            }));
        }
        out
    }

    /// The arguments of one configuration-setting invocation of the
    /// program: its `config set` subcommand, the scope flag it takes, and
    /// the key and value.
    pub fn config_set_args(&self, name: &str, value: &str) -> (r: Vec<String>)
        ensures
            dir_views(r@) == seq![
                "config"@,
                "set"@,
                (match *self {
                    InstallProgram::Git => "--global"@,
                    InstallProgram::Jj => "--user"@,
                }),
                name@,
                value@,
            ],
    {
        let mut out: Vec<String> = Vec::new();
        out.push(String::from_str("config"));
        out.push(String::from_str("set"));
        match self {
            InstallProgram::Git => out.push(String::from_str("--global")),
            InstallProgram::Jj => out.push(String::from_str("--user")),
        }
        out.push(name.to_owned());
        out.push(value.to_owned());
        proof {
            assert(dir_views(out@) =~= seq![
                "config"@,
                "set"@,
                (match *self {
                    InstallProgram::Git => "--global"@,
                    InstallProgram::Jj => "--user"@,
                }),
                name@,
                value@,
            ]);
        }
        out
    }

    /// The configuration keys and values that register the merge tool
    /// with this program, in the order they are to be set.
    pub fn install_settings(&self) -> (r: Vec<(String, String)>)
        ensures
            pair_views(r@) == (match *self {
                InstallProgram::Git => seq![
                    (
                        "mergetool.ai.cmd"@,
                        "ai-mergetool merge \"$BASE\" \"$LOCAL\" \"$REMOTE\" -o \"$MERGED\""@,
                    ),
                    ("mergetool.ai.trustExitCode"@, "true"@),
                    ("mergetool.ai.trustExitCode"@, "true"@),
                ],
                InstallProgram::Jj => seq![
                    ("merge-tools.ai.program"@, "ai-mergetool"@),
                    (
                        "merge-tools.ai.merge-args"@,
                        "[\"merge\", \"$base\", \"$left\", \"$right\", \"-o\", \"$output\", \"-p\", \"$path\"]"@,
                    ),
                ],
            }),
    {
        let mut out: Vec<(String, String)> = Vec::new();
        match self {
            InstallProgram::Git => {
                out.push(
                    (
                        String::from_str("mergetool.ai.cmd"),
                        String::from_str(
                            "ai-mergetool merge \"$BASE\" \"$LOCAL\" \"$REMOTE\" -o \"$MERGED\"",
                        ),
                    ),
                );
                out.push(
                    (String::from_str("mergetool.ai.trustExitCode"), String::from_str("true")),
                );
                out.push(
                    (String::from_str("mergetool.ai.trustExitCode"), String::from_str("true")),
                );
            },
            InstallProgram::Jj => {
                out.push(
                    (
                        String::from_str("merge-tools.ai.program"),
                        String::from_str("ai-mergetool"),
                    ),
                );
                out.push(
                    (
                        String::from_str("merge-tools.ai.merge-args"),
                        String::from_str(
                            "[\"merge\", \"$base\", \"$left\", \"$right\", \"-o\", \"$output\", \"-p\", \"$path\"]",
                        ),
                    ),
                );
            },
        }
        proof {
            assert(pair_views(out@) =~= (match *self {
                InstallProgram::Git => seq![
                    (
                        "mergetool.ai.cmd"@,
                        "ai-mergetool merge \"$BASE\" \"$LOCAL\" \"$REMOTE\" -o \"$MERGED\""@,
                    ),
                    ("mergetool.ai.trustExitCode"@, "true"@),
                    ("mergetool.ai.trustExitCode"@, "true"@),
                ],
                InstallProgram::Jj => seq![
                    ("merge-tools.ai.program"@, "ai-mergetool"@),
                    (
                        "merge-tools.ai.merge-args"@,
                        "[\"merge\", \"$base\", \"$left\", \"$right\", \"-o\", \"$output\", \"-p\", \"$path\"]"@,
                    ),
                ],
            }));
        }
        out
    }
}

/// A request to register the merge tool.
#[derive(Debug)]
pub struct InstallArgs {
    /// Programs to configure. When empty, each available program is
    /// configured instead.
    pub programs: Vec<InstallProgram>,
}

impl InstallArgs {
    /// The programs one installation run should configure: the named
    /// ones, or the available defaults when none were named; an error
    /// when that still leaves none.
    pub fn programs_to_configure(&self, defaults: Vec<InstallProgram>) -> (r: Result<
        Vec<InstallProgram>,
        InstallError,
    >)
        ensures
            (match r {
                Result::Ok(programs) => {
                    &&& programs@ == (if self.programs@.len() > 0 {
                        self.programs@
                    } else {
                        defaults@
                    })
                    &&& programs@.len() > 0
                },
                Result::Err(e) => {
                    &&& e == InstallError::NoProgramAvailable
                    &&& self.programs@.len() == 0
                    &&& defaults@.len() == 0
                },
            }),
    {
        if self.programs.len() > 0 {
            let mut out: Vec<InstallProgram> = Vec::new();
            let mut i: usize = 0;
            while i < self.programs.len()
                invariant
                    0 <= i <= self.programs@.len(),
                    out@ == self.programs@.take(i as int),
                decreases self.programs@.len() - i,
            {
                out.push(self.programs[i]);
                proof {
                    assert(out@ =~= self.programs@.take(i + 1));
                }
                i += 1;
            }
            proof {
                assert(self.programs@.take(self.programs@.len() as int) =~= self.programs@);
            }
            Result::Ok(out)
        } else if defaults.len() > 0 {
            Result::Ok(defaults)
        } else {
            Result::Err(InstallError::NoProgramAvailable)
        }
    }
}

} // verus!
