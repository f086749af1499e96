//! Assembling the command that starts the game client.
//!
//! Nothing is started here: the caller spawns what `launch_spec` describes.

use vstd::prelude::*;
use crate::error::FailureKind;
use crate::paths::{final_component, join, spec_final_component, spec_join};
use crate::platform::Platform;
use crate::text::{
    concat, is_blank, join_list, same_text, spec_is_blank, spec_join_list, texts,
};

verus! {

/// The class whose `main` starts the game client.
pub const ENTRY_POINT: &'static str = "world.selene.client.ClientBootstrapKt";

/// Everything needed to start the game client.
#[derive(Clone, Debug, PartialEq, Eq)]
pub struct LaunchSpec {
    /// The Java launcher to run.
    pub program: String,
    /// Its arguments, in order.
    pub args: Vec<String>,
    /// The directory to run it in.
    pub working_dir: String,
}

/// Why the game client did not start: the reason that the operating system
/// gave when it refused to start the process.
#[derive(Clone, Debug, PartialEq, Eq)]
pub struct LaunchError {
    pub reason: String,
}

impl LaunchError {
    /// The text shown to the user.
    pub open spec fn spec_message(self) -> Seq<char> {
        "Failed to launch game: "@ + self.reason@
    }

    /// The kind this failure falls under: always a failure to spawn.
    pub fn kind(&self) -> (r: FailureKind)
        ensures
            r == FailureKind::SpawnFailure,
    {
        FailureKind::SpawnFailure
    }

    /// The text shown to the user: a fixed sentence, then the reason.
    pub fn message(&self) -> (r: String)
        ensures
            r@ == self.spec_message(),
    {
        concat("Failed to launch game: ", self.reason.as_str())
    }
}

/// The Java launcher for a given runtime path. A blank path gives the bare
/// command `java`, left to the search path. Otherwise the final component
/// decides: `bin` has `java` adjoined, `java` or `java.exe` is taken as it
/// is, and anything else is read as an installation root and has `bin/java`
/// adjoined.
pub open spec fn spec_java_command(p: Platform, jre_path: Seq<char>) -> Seq<char> {
    if spec_is_blank(jre_path) {
        "java"@
    } else {
        let last = spec_final_component(p, jre_path);
        if last == Some("bin"@) {
            spec_join(p, jre_path, "java"@)
        } else if last == Some("java"@) || last == Some("java.exe"@) {
            jre_path
        } else {
            spec_join(p, jre_path, "bin/java"@)
        }
    }
}

/// The argument vector: the JVM arguments, `-cp`, the class path entries
/// joined with the platform's list separator, the entry point, and the game
/// arguments, in that order.
pub open spec fn spec_launch_args(
    p: Platform,
    jvm_args: Seq<Seq<char>>,
    classpath: Seq<Seq<char>>,
    game_args: Seq<Seq<char>>,
) -> Seq<Seq<char>> {
    jvm_args + seq!["-cp"@, spec_join_list(p.spec_list_separator(), classpath), ENTRY_POINT@]
        + game_args
}

/// The Java launcher to run for `jre_path`.
pub fn java_command(p: Platform, jre_path: &str) -> (r: String)
    ensures
        r@ == spec_java_command(p, jre_path@),
{
    if is_blank(jre_path) {
        return "java".to_owned();
    }
    match final_component(p, jre_path) {
        Some(last) => {
            if same_text(last.as_str(), "bin") {
                join(p, jre_path, "java")
            } else if same_text(last.as_str(), "java") || same_text(last.as_str(), "java.exe") {
                jre_path.to_owned()
            } else {
                join(p, jre_path, "bin/java")
            }
        },
        None => join(p, jre_path, "bin/java"),
    }
}

/// The argument vector for a launch.
pub fn launch_args(
    p: Platform,
    jvm_args: &Vec<String>,
    classpath: &Vec<String>,
    game_args: &Vec<String>,
) -> (r: Vec<String>)
    ensures
        texts(r@) == spec_launch_args(p, texts(jvm_args@), texts(classpath@), texts(game_args@)),
{
    let mut args: Vec<String> = Vec::new();
    let mut i: usize = 0;
    while i < jvm_args.len()
        invariant
            i <= jvm_args.len(),
            texts(args@) == texts(jvm_args@).take(i as int),
        decreases jvm_args.len() - i,
    {
        let arg = jvm_args[i].clone();
        let ghost before = texts(args@);
        args.push(arg);
        assert(texts(args@) =~= before.push(arg@));
        assert(texts(jvm_args@).take(i + 1) =~= texts(jvm_args@).take(i as int).push(arg@));
        i += 1;
    }
    assert(texts(jvm_args@).take(i as int) =~= texts(jvm_args@));
    let ghost head = texts(args@);
    args.push("-cp".to_owned());
    args.push(join_list(p.list_separator(), classpath));
    args.push(ENTRY_POINT.to_owned());
    let ghost fixed = texts(jvm_args@) + seq![
        "-cp"@,
        spec_join_list(p.spec_list_separator(), texts(classpath@)),
        ENTRY_POINT@,
    ];
    assert(texts(args@) =~= fixed);
    let mut k: usize = 0;
    while k < game_args.len()
        invariant
            k <= game_args.len(),
            texts(args@) == fixed + texts(game_args@).take(k as int),
        decreases game_args.len() - k,
    {
        let arg = game_args[k].clone();
        let ghost before = texts(args@);
        args.push(arg);
        assert(texts(args@) =~= before.push(arg@));
        assert(texts(game_args@).take(k + 1) =~= texts(game_args@).take(k as int).push(arg@));
        assert(texts(args@) =~= fixed + texts(game_args@).take(k + 1));
        k += 1;
    }
    assert(texts(game_args@).take(k as int) =~= texts(game_args@));
    args
}

/// Describes the launch of the game client: the launcher that `jre_path`
/// stands for, the assembled argument vector, and the working directory as
/// it was given.
pub fn launch_spec(
    p: Platform,
    jre_path: &str,
    classpath: &Vec<String>,
    jvm_args: &Vec<String>,
    game_args: &Vec<String>,
    working_dir: &str,
) -> (r: LaunchSpec)
    ensures
        r.program@ == spec_java_command(p, jre_path@),
        texts(r.args@) == spec_launch_args(
            p,
            texts(jvm_args@),
            texts(classpath@),
            texts(game_args@),
        ),
        r.working_dir@ == working_dir@,
{
    LaunchSpec {
        program: java_command(p, jre_path),
        args: launch_args(p, jvm_args, classpath, game_args),
        working_dir: working_dir.to_owned(),
    }
}

} // verus!
