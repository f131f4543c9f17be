//! Assembly of Tailwind CLI invocations.
//!
//! The library decides exactly which arguments the CLI executable is
//! invoked with; launching the process and extracting the bundled binary
//! are process-level work left to the caller, which receives the argument
//! list as plain values.

use vstd::prelude::*;

verus! {

/// The argument list of a one-shot, minified CSS build.
pub open spec fn build_args(
    input_path: Seq<char>,
    output_path: Seq<char>,
    config_path: Seq<char>,
) -> Seq<Seq<char>> {
    seq!["-i"@, input_path, "-o"@, output_path, "--minify"@, "-c"@, config_path]
}

/// The argument list of a continuous, rebuilding watch.
pub open spec fn watch_args(
    input_path: Seq<char>,
    output_path: Seq<char>,
    config_path: Seq<char>,
) -> Seq<Seq<char>> {
    seq!["-i"@, input_path, "-o"@, output_path, "--watch"@, "-c"@, config_path]
}

/// A handle on the Tailwind CLI executable.
pub struct TailwindCli {
    binary_path: String,
}

impl TailwindCli {
    /// The path of the CLI executable this handle invokes.
    pub closed spec fn binary_path_view(&self) -> Seq<char> {
        self.binary_path@
    }

    /// A handle for the CLI executable at `binary_path`.
    pub fn new(binary_path: String) -> (r: Self)
        ensures
            r.binary_path_view() == binary_path@,
    {
        TailwindCli { binary_path }
    }

    /// The path of the CLI executable, for the caller that launches it.
    pub fn binary_path_str(&self) -> (r: &str)
        ensures
            r@ == self.binary_path_view(),
    {
        self.binary_path.as_str()
    }

    /// The arguments of a one-shot minified build of `input_path` into
    /// `output_path` under the configuration at `config_path`.
    pub fn build(&self, input_path: &str, output_path: &str, config_path: &str) -> (args: Vec<
        String,
    >)
        ensures
            args.deep_view() == build_args(input_path@, output_path@, config_path@),
    {
        let args: Vec<String> = vec![
            "-i".to_owned(),
            input_path.to_owned(),
            "-o".to_owned(),
            output_path.to_owned(),
            "--minify".to_owned(),
            "-c".to_owned(),
            config_path.to_owned(),
        ];
        proof {
            assert(args.deep_view() =~= build_args(input_path@, output_path@, config_path@));
        }
        args
    }

    /// The arguments of a continuous watch that rebuilds `output_path`
    /// whenever `input_path` changes, under the configuration at
    /// `config_path`.
    pub fn watch(&self, input_path: &str, output_path: &str, config_path: &str) -> (args: Vec<
        String,
    >)
        ensures
            args.deep_view() == watch_args(input_path@, output_path@, config_path@),
    {
        let args: Vec<String> = vec![
            "-i".to_owned(),
            input_path.to_owned(),
            "-o".to_owned(),
            output_path.to_owned(),
            "--watch".to_owned(),
            "-c".to_owned(),
            config_path.to_owned(),
        ];
        proof {
            assert(args.deep_view() =~= watch_args(input_path@, output_path@, config_path@));
        }
        args
    }
}

} // verus!
