//! The host platform's conventions, chosen once by the caller and handed to
//! every function whose result depends on them.

use vstd::prelude::*;

verus! {

/// Which family of conventions the host follows.
#[derive(Clone, Copy, Debug, PartialEq, Eq, Structural)]
pub enum Platform {
    /// `/` separates path components, `:` separates the entries of a path list.
    Posix,
    /// `/` and `\` both separate path components, `;` separates the entries of a path list.
    Windows,
}

impl Platform {
    /// Whether `c` separates the components of a path.
    pub open spec fn separates(self, c: char) -> bool {
        c == '/' || (self == Platform::Windows && c == '\\')
    }

    /// The separator that is written between two components.
    pub open spec fn spec_main_separator(self) -> Seq<char> {
        match self {
            Platform::Posix => seq!['/'],
            Platform::Windows => seq!['\\'],
        }
    }

    /// The separator between the entries of a class path.
    pub open spec fn spec_list_separator(self) -> Seq<char> {
        match self {
            Platform::Posix => seq![':'],
            Platform::Windows => seq![';'],
        }
    }

    /// The command that looks a program up on the search path.
    pub open spec fn spec_search_command(self) -> Seq<char> {
        match self {
            Platform::Posix => "which"@,
            Platform::Windows => "where"@,
        }
    }

    /// The file name of the Java launcher.
    pub open spec fn spec_java_executable(self) -> Seq<char> {
        match self {
            Platform::Posix => "java"@,
            Platform::Windows => "java.exe"@,
        }
    }

    /// Where the Java launcher lies below an installation root.
    pub open spec fn spec_java_relative_path(self) -> Seq<char> {
        match self {
            Platform::Posix => "bin/java"@,
            Platform::Windows => "bin/java.exe"@,
        }
    }

    /// Whether `c` separates the components of a path.
    pub fn is_separator(self, c: char) -> (r: bool)
        ensures
            r == self.separates(c),
    {
        match self {
            Platform::Posix => c == '/',
            Platform::Windows => c == '/' || c == '\\',
        }
    }

    /// The separator that is written between two components.
    pub fn main_separator(self) -> (r: &'static str)
        ensures
            r@ == self.spec_main_separator(),
    {
        proof {
            reveal_strlit("/");
            reveal_strlit("\\");
        }
        match self {
            Platform::Posix => {
                assert("/"@ =~= seq!['/']);
                "/"
            },
            Platform::Windows => {
                assert("\\"@ =~= seq!['\\']);
                "\\"
            },
        }
    }

    /// The separator between the entries of a class path.
    pub fn list_separator(self) -> (r: &'static str)
        ensures
            r@ == self.spec_list_separator(),
    {
        proof {
            reveal_strlit(":");
            reveal_strlit(";");
        }
        match self {
            Platform::Posix => {
                assert(":"@ =~= seq![':']);
                ":"
            },
            Platform::Windows => {
                assert(";"@ =~= seq![';']);
                ";"
            },
        }
    }

    /// The command that looks a program up on the search path.
    pub fn search_command(self) -> (r: &'static str)
        ensures
            r@ == self.spec_search_command(),
    {
        match self {
            Platform::Posix => "which",
            Platform::Windows => "where",
        }
    }

    /// The file name of the Java launcher.
    pub fn java_executable(self) -> (r: &'static str)
        ensures
            r@ == self.spec_java_executable(),
    {
        match self {
            Platform::Posix => "java",
            Platform::Windows => "java.exe",
        }
    }

    /// Where the Java launcher lies below an installation root.
    pub fn java_relative_path(self) -> (r: &'static str)
        ensures
            r@ == self.spec_java_relative_path(),
    {
        match self {
            Platform::Posix => "bin/java",
            Platform::Windows => "bin/java.exe",
        }
    }
}

} // verus!
