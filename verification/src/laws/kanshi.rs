//! Where kanshi's files are.

use vstd::prelude::*;

use crate::kanshi;
use crate::kanshi::{CommandLine, KanshiPaths};

verus! {

/// A name in a directory: one that begins with a slash stands for itself; otherwise it
/// comes behind the directory, with one slash between them where the directory does
/// not end in one, and behind nothing just as it is.
pub proof fn names_are_put_behind_their_directory(base: Seq<char>, name: Seq<char>)
    ensures
        ({
            let path = kanshi::joined_path(base, name);
            let absolute = name.len() > 0 && name[0] == '/';
            &&& absolute ==> path == name
            &&& !absolute && base.len() == 0 ==> path == name
            &&& !absolute && base.len() > 0 && base.last() == '/' ==> path == base + name
            &&& !absolute && base.len() > 0 && base.last() != '/' ==> path == base + seq!['/']
                + name
        }),
{
    reveal_strlit("/");
    assert("/"@ =~= seq!['/']);
    if base.len() == 0 {
        assert(base + name =~= name);
    }
}

/// The files are in `.config/regolith3/kanshi` below the home directory by default;
/// the profiles are in `profiles` there, and the configuration is `config`.
pub proof fn files_are_found_by_name(home: Seq<char>, base: Seq<char>, paths: KanshiPaths)
    ensures
        kanshi::default_path(home) == home + "/.config/regolith3/kanshi"@,
        kanshi::paths_in(base).profiles == kanshi::joined_path(base, "profiles"@),
        kanshi::paths_in(base).config == kanshi::joined_path(base, "config"@),
        paths@.profiles == paths.profiles@,
        paths@.config == paths.config@,
{
}

/// The view of a command tells its program and each of its arguments.
pub proof fn command_views_tell_every_argument(command: CommandLine, i: int)
    ensures
        command@.program == command.program@,
        command@.args.len() == command.args@.len(),
        0 <= i < command.args@.len() ==> command@.args[i] == command.args@[i]@,
{
}

} // verus!
