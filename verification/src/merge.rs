//! One merge-conflict resolution request: the three input versions, the
//! output path decision, and the exact prompts and argument list handed to
//! the subprocess. Spawning the subprocess and pumping its output is the
//! caller's.

use vstd::prelude::*;
use vstd::string::StrSliceExecFns;
use vstd::string::StringExecFns;

use crate::redact::dir_views;

verus! {

/// Why a merge request is not runnable.
#[derive(Debug, PartialEq, Eq, Structural)]
pub enum MergeArgsError {
    /// Neither an output path nor the merge-driver mode was given, so
    /// there is nowhere to write the result.
    NoOutputPath,
}

/// A merge-conflict resolution request.
#[derive(Debug)]
pub struct MergeArgs {
    /// Git merge-driver mode: the result is written to the left path.
    pub git_merge_driver: bool,
    /// Base version (common ancestor).
    pub base: String,
    /// Left version (ours / current branch).
    pub left: String,
    /// Right version (theirs / incoming).
    pub right: String,
    /// Output file path.
    pub output: Option<String>,
    /// Ancestor conflict label.
    pub ancestor_label: Option<String>,
    /// Left / ours conflict label.
    pub left_label: String,
    /// Right / theirs conflict label.
    pub right_label: String,
    /// Original file path, for display.
    pub filepath: Option<String>,
    /// Conflict marker size.
    pub marker_size: Option<u32>,
}

/// The path the resolved file goes to: the explicit output path, else the
/// left path in merge-driver mode, else nothing.
pub open spec fn spec_output_path(a: MergeArgs) -> Option<Seq<char>> {
    match a.output {
        Option::Some(p) => Option::Some(p@),
        Option::None => if a.git_merge_driver {
            Option::Some(a.left@)
        } else {
            Option::None
        },
    }
}

/// The label under which the request is displayed and prompted.
pub open spec fn spec_filepath(a: MergeArgs) -> Seq<char> {
    match a.filepath {
        Option::Some(f) => f@,
        Option::None => "unknown file"@,
    }
}

/// The system prompt for the subprocess.
pub open spec fn spec_system_prompt(a: MergeArgs) -> Seq<char> {
    "You are resolving a merge conflict in `"@ + spec_filepath(a)
        + "`. Your working directory is the root of the repository, so you can browse and edit other files if needed (e.g. if code moved between files).\n\nThree versions of the file are provided as temporary files: the base (common ancestor), left ("@
        + a.left_label@ + "), and right ("@ + a.right_label@
        + "). Read all three, understand what each side changed relative to the base, and write a resolved version to the output path. If changes are compatible, merge them cleanly. If they genuinely conflict, use your best judgment and explain your reasoning."@
}

/// The user prompt for the subprocess, given the resolved output path.
pub open spec fn spec_user_prompt(a: MergeArgs, out_path: Seq<char>) -> Seq<char> {
    "Resolve the merge conflict in `"@ + spec_filepath(a)
        + "`.\n\nRead these three versions of the file:\n- Base (common ancestor): "@ + a.base@
        + "\n- Left ("@ + a.left_label@ + "): "@ + a.left@ + "\n- Right ("@ + a.right_label@
        + "): "@ + a.right@ + "\n\nWrite the resolved file to: "@ + out_path
}

/// What `std::path::Path::parent` gives for a path string, when it is
/// non-empty: a function of the string alone.
pub uninterp spec fn nonempty_parent_of(path: Seq<char>) -> Option<Seq<char>>;

/// Relies on `std::path::Path::parent`: the parent directory of the path,
/// dropped when there is none or it is empty.
#[verifier::external_body]
fn parent_dir(path: &str) -> (r: Option<String>)
    ensures
        (match r {
            Option::Some(p) => nonempty_parent_of(path@) == Option::Some(p@),
            Option::None => nonempty_parent_of(path@) is None,
        }),
{
    std::path::Path::new(path)
        .parent()
        .filter(|p| !p.as_os_str().is_empty())
        .map(|p| p.to_string_lossy().into_owned())
}

/// `acc` with `x` appended, unless it is absent or already present.
pub open spec fn add_unique(acc: Seq<Seq<char>>, x: Option<Seq<char>>) -> Seq<Seq<char>> {
    match x {
        Option::None => acc,
        Option::Some(p) => if acc.contains(p) {
            acc
        } else {
            acc.push(p)
        },
    }
}

/// The directories the subprocess is granted access to: the parent
/// directories of the base, left, right and output paths, without
/// duplicates, in first-occurrence order.
pub open spec fn spec_access_dirs(a: MergeArgs, out_path: Seq<char>) -> Seq<Seq<char>> {
    add_unique(
        add_unique(
            add_unique(
                add_unique(Seq::<Seq<char>>::empty(), nonempty_parent_of(a.base@)),
                nonempty_parent_of(a.left@),
            ),
            nonempty_parent_of(a.right@),
        ),
        nonempty_parent_of(out_path),
    )
}

/// The flags and arguments of one `--add-dir` grant per directory.
pub open spec fn spec_add_dir_args(dirs: Seq<Seq<char>>) -> Seq<Seq<char>>
    decreases dirs.len(),
{
    if dirs.len() == 0 {
        Seq::<Seq<char>>::empty()
    } else {
        seq!["--add-dir"@, dirs[0]] + spec_add_dir_args(dirs.skip(1))
    }
}

/// The full argument list for the subprocess, given the resolved output
/// path: the fixed flags, the system prompt, the user prompt, then one
/// access grant per directory.
pub open spec fn spec_assistant_args(a: MergeArgs, out_path: Seq<char>) -> Seq<Seq<char>> {
    seq![
        "--print"@,
        "--verbose"@,
        "--output-format=stream-json"@,
        "--permission-mode=acceptEdits"@,
        "--append-system-prompt"@,
        spec_system_prompt(a),
        spec_user_prompt(a, out_path),
    ] + spec_add_dir_args(spec_access_dirs(a, out_path))
}

fn vec_contains_str(v: &Vec<String>, x: &str) -> (r: bool)
    ensures
        r == dir_views(v@).contains(x@),
{
    let mut i: usize = 0;
    while i < v.len()
        invariant
            0 <= i <= v@.len(),
            forall|k: int| 0 <= k < i ==> dir_views(v@)[k] != x@,
        decreases v@.len() - i,
    {
        if crate::render::str_eq(v[i].as_str(), x) {
            proof {
                assert(dir_views(v@)[i as int] == x@);
            }
            return true;
        }
        i += 1;
    }
    proof {
        if dir_views(v@).contains(x@) {
            let k = choose|k: int| 0 <= k < dir_views(v@).len() && dir_views(v@)[k] == x@;
            assert(false);
        }
    }
    false
}

fn push_unique_parent(dirs: &mut Vec<String>, path: &str)
    ensures
        dir_views(final(dirs)@) == add_unique(dir_views(old(dirs)@), nonempty_parent_of(path@)),
{
    let ghost prev = dir_views(dirs@);
    match parent_dir(path) {
        Option::Some(p) => {
            if !vec_contains_str(dirs, p.as_str()) {
                let ghost pv = p@;
                dirs.push(p);
                proof {
                    assert(dir_views(dirs@) =~= prev.push(pv));
                }
            }
        },
        Option::None => {},
    }
}

impl MergeArgs {
    /// The path the resolved file is written to: the explicit output path
    /// when given; the left path in merge-driver mode; otherwise an error,
    /// since the result would have nowhere to go.
    pub fn output_path(&self) -> (r: Result<&String, MergeArgsError>)
        ensures
            (match r {
                Result::Ok(p) => spec_output_path(*self) == Option::Some(p@),
                Result::Err(e) => {
                    &&& e == MergeArgsError::NoOutputPath
                    &&& spec_output_path(*self) is None
                },
            }),
    {
        match &self.output {
            Option::Some(p) => Result::Ok(p),
            Option::None => if self.git_merge_driver {
                Result::Ok(&self.left)
            } else {
                Result::Err(MergeArgsError::NoOutputPath)
            },
        }
    }

    /// The label under which the request is displayed, defaulting to a
    /// fixed placeholder.
    pub fn filepath(&self) -> (r: &str)
        ensures
            r@ == spec_filepath(*self),
    {
        match &self.filepath {
            Option::Some(f) => f.as_str(),
            Option::None => "unknown file",
        }
    }

    /// Builds the system prompt for the subprocess.
    pub fn system_prompt(&self) -> (r: String)
        ensures
            r@ == spec_system_prompt(*self),
    {
        let mut out = String::from_str("You are resolving a merge conflict in `");
        out.append(self.filepath());
        out.append(
            "`. Your working directory is the root of the repository, so you can browse and edit other files if needed (e.g. if code moved between files).\n\nThree versions of the file are provided as temporary files: the base (common ancestor), left (",
        );
        out.append(self.left_label.as_str());
        out.append("), and right (");
        out.append(self.right_label.as_str());
        out.append(
            "). Read all three, understand what each side changed relative to the base, and write a resolved version to the output path. If changes are compatible, merge them cleanly. If they genuinely conflict, use your best judgment and explain your reasoning.",
        );
        proof {
            assert(out@ =~= spec_system_prompt(*self));
        }
        out
    }

    /// Builds the user prompt for the subprocess; fails only when no
    /// output path can be resolved.
    pub fn user_prompt(&self) -> (r: Result<String, MergeArgsError>)
        ensures
            (match r {
                Result::Ok(p) => {
                    &&& spec_output_path(*self) is Some
                    &&& p@ == spec_user_prompt(*self, spec_output_path(*self)->Some_0)
                },
                Result::Err(e) => {
                    &&& e == MergeArgsError::NoOutputPath
                    &&& spec_output_path(*self) is None
                },
            }),
    {
        let out_path = match self.output_path() {
            Result::Ok(p) => p.clone(),
            Result::Err(e) => {
                return Result::Err(e);
            },
        };
        let mut out = String::from_str("Resolve the merge conflict in `");
        out.append(self.filepath());
        out.append("`.\n\nRead these three versions of the file:\n- Base (common ancestor): ");
        out.append(self.base.as_str());
        out.append("\n- Left (");
        out.append(self.left_label.as_str());
        out.append("): ");
        out.append(self.left.as_str());
        out.append("\n- Right (");
        out.append(self.right_label.as_str());
        out.append("): ");
        out.append(self.right.as_str());
        out.append("\n\nWrite the resolved file to: ");
        out.append(out_path.as_str());
        proof {
            assert(out@ =~= spec_user_prompt(*self, spec_output_path(*self)->Some_0));
        }
        Result::Ok(out)
    }

    /// The directories the subprocess is granted access to, without
    /// duplicates, in first-occurrence order.
    pub fn access_dirs(&self) -> (r: Result<Vec<String>, MergeArgsError>)
        ensures
            (match r {
                Result::Ok(dirs) => {
                    &&& spec_output_path(*self) is Some
                    &&& dir_views(dirs@) == spec_access_dirs(
                        *self,
                        spec_output_path(*self)->Some_0,
                    )
                },
                Result::Err(e) => {
                    &&& e == MergeArgsError::NoOutputPath
                    &&& spec_output_path(*self) is None
                },
            }),
    {
        let out_path = match self.output_path() {
            Result::Ok(p) => p.clone(),
            Result::Err(e) => {
                return Result::Err(e);
            },
        };
        let mut dirs: Vec<String> = Vec::new();
        proof {
            assert(dir_views(dirs@) =~= Seq::<Seq<char>>::empty());
        }
        push_unique_parent(&mut dirs, self.base.as_str());
        push_unique_parent(&mut dirs, self.left.as_str());
        push_unique_parent(&mut dirs, self.right.as_str());
        push_unique_parent(&mut dirs, out_path.as_str());
        Result::Ok(dirs)
    }

    /// Builds the full argument list for the subprocess; fails only when
    /// no output path can be resolved.
    pub fn assistant_args(&self) -> (r: Result<Vec<String>, MergeArgsError>)
        ensures
            (match r {
                Result::Ok(args) => {
                    &&& spec_output_path(*self) is Some
                    &&& dir_views(args@) == spec_assistant_args(
                        *self,
                        spec_output_path(*self)->Some_0,
                    )
                },
                Result::Err(e) => {
                    &&& e == MergeArgsError::NoOutputPath
                    &&& spec_output_path(*self) is None
                },
            }),
    {
        let user = match self.user_prompt() {
            Result::Ok(p) => p,
            Result::Err(e) => {
                return Result::Err(e);
            },
        };
        let dirs = match self.access_dirs() {
            Result::Ok(d) => d,
            Result::Err(e) => {
                return Result::Err(e);
            },
        };
        let mut args: Vec<String> = Vec::new();
        args.push(String::from_str("--print"));
        args.push(String::from_str("--verbose"));
        args.push(String::from_str("--output-format=stream-json"));
        args.push(String::from_str("--permission-mode=acceptEdits"));
        args.push(String::from_str("--append-system-prompt"));
        args.push(self.system_prompt());
        args.push(user);
        let ghost head = dir_views(args@);
        let ghost dirviews = dir_views(dirs@);
        let mut i: usize = 0;
        proof {
            assert(dirviews.skip(0) =~= dirviews);
            assert(head + spec_add_dir_args(dirviews) =~= head + spec_add_dir_args(
                dirviews.skip(0),
            ));
        }
        while i < dirs.len()
            invariant
                0 <= i <= dirs@.len(),
                dirviews == dir_views(dirs@),
                dir_views(args@) + spec_add_dir_args(dirviews.skip(i as int)) == head
                    + spec_add_dir_args(dirviews),
            decreases dirs@.len() - i,
        {
            let ghost prevargs = dir_views(args@);
            args.push(String::from_str("--add-dir"));
            args.push(dirs[i].clone());
            proof {
                assert(dirviews.skip(i as int)[0] == dirviews[i as int]);
                assert(dirviews.skip(i as int).skip(1) =~= dirviews.skip(i as int + 1));
                assert(dir_views(args@) =~= prevargs + seq!["--add-dir"@, dirviews[i as int]]);
                let rest = spec_add_dir_args(dirviews.skip(i as int + 1));
                assert((prevargs + seq!["--add-dir"@, dirviews[i as int]]) + rest =~= prevargs + (
                seq!["--add-dir"@, dirviews[i as int]] + rest));
            }
            i += 1;
        }
        proof {
            assert(dirviews.skip(dirs@.len() as int) =~= Seq::<Seq<char>>::empty());
            assert(dir_views(args@) + Seq::<Seq<char>>::empty() =~= dir_views(args@));
            assert(head =~= seq![
                "--print"@,
                "--verbose"@,
                "--output-format=stream-json"@,
                "--permission-mode=acceptEdits"@,
                "--append-system-prompt"@,
                spec_system_prompt(*self),
                spec_user_prompt(*self, spec_output_path(*self)->Some_0),
            ]);
        }
        Result::Ok(args)
    }
}

} // verus!
