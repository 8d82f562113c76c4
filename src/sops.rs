//! Invoking sops: the command it is given, the output paths of encryption and
//! decryption, and what its exit status means.

use vstd::prelude::*;

use crate::key::KeyError;
use crate::text::{ends_with, has_suffix, opt_view, views};

verus! {

/// The environment variable through which sops reads the age secret key.
pub open spec fn age_key_variable() -> Seq<char> {
    "SOPS_AGE_KEY"@
}

pub fn age_key_env_var() -> (r: &'static str)
    ensures
        r@ == age_key_variable(),
{
    "SOPS_AGE_KEY"
}

/// A sops invocation, built up one step at a time: the program, its
/// arguments in order, the directory to run in, and the age secret key to
/// hand it through the environment.
#[derive(Clone, Debug)]
pub struct SopsCommandBuilder {
    pub program: String,
    pub arguments: Vec<String>,
    pub working_dir: Option<String>,
    pub age_key: Option<String>,
}

impl SopsCommandBuilder {
    pub fn new() -> (r: Self)
        ensures
            r.program@ == "sops"@,
            r.arguments@.len() == 0,
            r.working_dir is None,
            r.age_key is None,
    {
        SopsCommandBuilder {
            program: String::from_str("sops"),
            arguments: Vec::new(),
            working_dir: None,
            age_key: None,
        }
    }

    /// Appends one argument.
    pub fn arg(self, arg: &str) -> (r: Self)
        ensures
            r.program == self.program,
            views(r.arguments@) == views(self.arguments@).push(arg@),
            r.working_dir == self.working_dir,
            r.age_key == self.age_key,
    {
        let mut s = self;
        let ghost before = s.arguments@;
        s.arguments.push(String::from_str(arg));
        assert(views(s.arguments@) =~= views(before).push(arg@));
        s
    }

    /// Appends arguments, in their order.
    pub fn args(self, args: &Vec<String>) -> (r: Self)
        ensures
            r.program == self.program,
            views(r.arguments@) == views(self.arguments@) + views(args@),
            r.working_dir == self.working_dir,
            r.age_key == self.age_key,
    {
        let mut s = self;
        let ghost start = views(s.arguments@);
        let mut i: usize = 0;
        while i < args.len()
            invariant
                i <= args@.len(),
                s.program == self.program,
                s.working_dir == self.working_dir,
                s.age_key == self.age_key,
                views(s.arguments@) == start + views(args@.subrange(0, i as int)),
            decreases args@.len() - i,
        {
            let ghost before = s.arguments@;
            s.arguments.push(args[i].clone());
            assert(views(s.arguments@) =~= views(before).push(args@[i as int]@));
            assert(views(args@.subrange(0, i + 1)) =~= views(args@.subrange(0, i as int)).push(
                args@[i as int]@,
            ));
            i = i + 1;
        }
        assert(args@.subrange(0, args@.len() as int) =~= args@);
        s
    }

    /// Sets the directory to run in.
    pub fn current_dir(self, dir: &str) -> (r: Self)
        ensures
            r.program == self.program,
            r.arguments == self.arguments,
            opt_view(r.working_dir) == Some(dir@),
            r.age_key == self.age_key,
    {
        let mut s = self;
        s.working_dir = Some(String::from_str(dir));
        s
    }

    /// Attaches the age key, or fails with the reason none could be had.
    pub fn with_age_key(self, key: Result<String, KeyError>) -> (r: Result<Self, KeyError>)
        ensures
            match key {
                Ok(k) => r matches Ok(b) && b.program == self.program && b.arguments
                    == self.arguments && b.working_dir == self.working_dir && opt_view(b.age_key)
                    == Some(k@),
                Err(e) => r == Err::<Self, KeyError>(e),
            },
    {
        match key {
            Ok(k) => {
                let mut s = self;
                s.age_key = Some(k);
                Ok(s)
            },
            Err(e) => Err(e),
        }
    }

    /// Attaches the age key where one could be had; else leaves the command as it is.
    pub fn with_optional_age_key(self, key: Result<String, KeyError>) -> (r: Self)
        ensures
            r.program == self.program,
            r.arguments == self.arguments,
            r.working_dir == self.working_dir,
            match key {
                Ok(k) => opt_view(r.age_key) == Some(k@),
                Err(_) => r.age_key == self.age_key,
            },
    {
        match key {
            Ok(k) => {
                let mut s = self;
                s.age_key = Some(k);
                s
            },
            Err(_) => self,
        }
    }

    pub fn has_age_key(&self) -> (r: bool)
        ensures
            r == self.age_key is Some,
    {
        self.age_key.is_some()
    }
}

/// Where encryption writes: the path with `.enc` appended.
pub open spec fn encrypted_path_of(path: Seq<char>) -> Seq<char> {
    path + ".enc"@
}

/// Where decryption writes: the path without its `.enc` suffix, or with
/// `.dec` appended where it has none.
pub open spec fn decrypted_path_of(path: Seq<char>) -> Seq<char> {
    if ends_with(path, ".enc"@) {
        path.subrange(0, path.len() - 4)
    } else {
        path + ".dec"@
    }
}

pub fn encrypted_output_path(path: &str) -> (r: String)
    ensures
        r@ == encrypted_path_of(path@),
{
    String::from_str(path).concat(".enc")
}

pub fn decrypted_output_path(path: &str) -> (r: String)
    ensures
        r@ == decrypted_path_of(path@),
{
    proof {
        reveal_strlit(".enc");
    }
    if has_suffix(path, ".enc") {
        let n = path.unicode_len();
        path.substring_char(0, n - 4).to_owned()
    } else {
        String::from_str(path).concat(".dec")
    }
}

/// The sops command that opens `path` in an editor.
pub fn edit_command(path: &str, key: Result<String, KeyError>) -> (r: Result<SopsCommandBuilder, KeyError>)
    ensures
        match key {
            Ok(k) => r matches Ok(b) && b.program@ == "sops"@ && views(b.arguments@) == seq![path@]
                && b.working_dir is None && opt_view(b.age_key) == Some(k@),
            Err(e) => r == Err::<SopsCommandBuilder, KeyError>(e),
        },
{
    let b = SopsCommandBuilder::new().arg(path);
    proof {
        assert(views(b.arguments@) =~= seq![path@]);
    }
    b.with_age_key(key)
}

/// The arguments with which sops encrypts `path` into `output`.
pub open spec fn encrypt_args_of(path: Seq<char>) -> Seq<Seq<char>> {
    seq!["--encrypt"@, "--output"@, encrypted_path_of(path), path]
}

/// The arguments with which sops decrypts `path` into `output`.
pub open spec fn decrypt_args_of(path: Seq<char>) -> Seq<Seq<char>> {
    seq!["--decrypt"@, "--output"@, decrypted_path_of(path), path]
}

/// The sops command that encrypts `path` next to it, with `.enc` appended.
pub fn encrypt_command(path: &str, key: Result<String, KeyError>) -> (r: Result<SopsCommandBuilder, KeyError>)
    ensures
        match key {
            Ok(k) => r matches Ok(b) && b.program@ == "sops"@ && views(b.arguments@)
                == encrypt_args_of(path@) && b.working_dir is None && opt_view(b.age_key) == Some(k@),
            Err(e) => r == Err::<SopsCommandBuilder, KeyError>(e),
        },
{
    let output = encrypted_output_path(path);
    let b = SopsCommandBuilder::new().arg("--encrypt").arg("--output").arg(output.as_str()).arg(path);
    proof {
        assert(views(b.arguments@) =~= encrypt_args_of(path@));
    }
    b.with_age_key(key)
}

/// The sops command that decrypts `path` next to it (see `decrypted_path_of`).
pub fn decrypt_command(path: &str, key: Result<String, KeyError>) -> (r: Result<SopsCommandBuilder, KeyError>)
    ensures
        match key {
            Ok(k) => r matches Ok(b) && b.program@ == "sops"@ && views(b.arguments@)
                == decrypt_args_of(path@) && b.working_dir is None && opt_view(b.age_key) == Some(k@),
            Err(e) => r == Err::<SopsCommandBuilder, KeyError>(e),
        },
{
    let output = decrypted_output_path(path);
    let b = SopsCommandBuilder::new().arg("--decrypt").arg("--output").arg(output.as_str()).arg(path);
    proof {
        assert(views(b.arguments@) =~= decrypt_args_of(path@));
    }
    b.with_age_key(key)
}

/// The exit code with which sops says that the file did not change.
pub open spec fn unchanged_code() -> i32 {
    200
}

/// Whether an exit code is the one sops gives for a file it left unchanged.
pub fn is_file_unchanged_status(code: Option<i32>) -> (r: bool)
    ensures
        r == (code == Some(200i32)),
{
    match code {
        Some(c) => c == 200,
        None => false,
    }
}

/// How a run of sops ended: it exited, with its code where the platform
/// gives one (none where a signal ended it), or it could not be started.
#[derive(Clone, Copy, Debug, PartialEq, Eq, Structural)]
pub enum RunStatus {
    Exited(Option<i32>),
    LaunchFailed,
}

/// What a run of sops means for the user.
#[derive(Clone, Copy, Debug, PartialEq, Eq, Structural)]
pub enum SopsOutcome {
    /// sops exited with 0.
    Succeeded,
    /// sops left the file as it was; informational, not an error.
    Unchanged,
    /// sops failed; the process exits with this code.
    Failed(i32),
    /// sops could not be started.
    LaunchFailed,
}

pub open spec fn outcome_of(status: RunStatus) -> SopsOutcome {
    match status {
        RunStatus::Exited(Some(c)) => if c == 0 {
            SopsOutcome::Succeeded
        } else if c == unchanged_code() {
            SopsOutcome::Unchanged
        } else {
            SopsOutcome::Failed(c)
        },
        RunStatus::Exited(None) => SopsOutcome::Failed(1),
        RunStatus::LaunchFailed => SopsOutcome::LaunchFailed,
    }
}

pub open spec fn exit_code_of(outcome: SopsOutcome) -> i32 {
    match outcome {
        SopsOutcome::Succeeded => 0,
        SopsOutcome::Unchanged => 0,
        SopsOutcome::Failed(c) => c,
        SopsOutcome::LaunchFailed => 1,
    }
}

pub fn sops_outcome(status: RunStatus) -> (r: SopsOutcome)
    ensures
        r == outcome_of(status),
{
    match status {
        RunStatus::Exited(Some(c)) => {
            if c == 0 {
                SopsOutcome::Succeeded
            } else if is_file_unchanged_status(Some(c)) {
                SopsOutcome::Unchanged
            } else {
                SopsOutcome::Failed(c)
            }
        },
        RunStatus::Exited(None) => SopsOutcome::Failed(1),
        RunStatus::LaunchFailed => SopsOutcome::LaunchFailed,
    }
}

impl SopsOutcome {
    /// Whether the outcome is an error that ends the process.
    pub fn is_error(&self) -> (r: bool)
        ensures
            r == (exit_code_of(*self) != 0 || *self is LaunchFailed),
    {
        match self {
            SopsOutcome::Succeeded => false,
            SopsOutcome::Unchanged => false,
            SopsOutcome::Failed(c) => *c != 0,
            SopsOutcome::LaunchFailed => true,
        }
    }

    /// The code the process exits with after this outcome.
    pub fn exit_code(&self) -> (r: i32)
        ensures
            r == exit_code_of(*self),
    {
        match self {
            SopsOutcome::Succeeded => 0,
            SopsOutcome::Unchanged => 0,
            SopsOutcome::Failed(c) => *c,
            SopsOutcome::LaunchFailed => 1,
        }
    }
}

/// The exit code of sops decides the outcome: the unchanged-file code is no
/// error and ends the process with 0, 0 is success, and any other code that
/// sops exits with is the code the process exits with.
pub proof fn lemma_exit_code_mapping(code: i32)
    ensures
        code == 200 ==> outcome_of(RunStatus::Exited(Some(code))) == SopsOutcome::Unchanged
            && exit_code_of(outcome_of(RunStatus::Exited(Some(code)))) == 0,
        code == 0 ==> outcome_of(RunStatus::Exited(Some(code))) == SopsOutcome::Succeeded
            && exit_code_of(outcome_of(RunStatus::Exited(Some(code)))) == 0,
        code != 0 && code != 200 ==> outcome_of(RunStatus::Exited(Some(code)))
            == SopsOutcome::Failed(code) && exit_code_of(outcome_of(RunStatus::Exited(Some(code))))
            == code,
{
}

} // verus!
