//! Where kanshi keeps its files, and how it is told to read them again.

use vstd::prelude::*;
use vstd::string::*;

use crate::text;

verus! {

/// The directory of the profiles and the configuration file.
#[derive(Debug, PartialEq, Eq)]
pub struct KanshiPaths {
    pub profiles: String,
    pub config: String,
}

/// What [`KanshiPaths`] stand for.
pub struct KanshiPathsView {
    pub profiles: Seq<char>,
    pub config: Seq<char>,
}

impl View for KanshiPaths {
    type V = KanshiPathsView;

    open spec fn view(&self) -> KanshiPathsView {
        KanshiPathsView { profiles: self.profiles@, config: self.config@ }
    }
}

/// The path of `name` in the directory `base`, in the manner of Unix: an
/// absolute name stands for itself, and a slash is put between the two unless
/// there is one already or nothing to put it behind.
pub open spec fn joined_path(base: Seq<char>, name: Seq<char>) -> Seq<char> {
    if name.len() > 0 && name[0] == '/' {
        name
    } else if base.len() == 0 || base.last() == '/' {
        base + name
    } else {
        base + "/"@ + name
    }
}

/// The path of `name` in the directory `base`.
pub fn join_path(base: &str, name: &str) -> (path: String)
    ensures
        path@ == joined_path(base@, name@),
{
    proof {
        reveal_strlit("/");
    }
    let name_chars = text::chars_of(name);
    if name_chars.len() > 0 && name_chars[0] == '/' {
        return name.to_owned();
    }
    let base_chars = text::chars_of(base);
    let mut path = base.to_owned();
    if base_chars.len() > 0 && base_chars[base_chars.len() - 1] != '/' {
        path.append("/");
    }
    path.append(name);
    assert(path@ =~= joined_path(base@, name@));
    path
}

/// Where kanshi keeps its files unless told otherwise.
pub open spec fn default_path(home: Seq<char>) -> Seq<char> {
    home + "/.config/regolith3/kanshi"@
}

/// The directory where kanshi keeps its files unless told otherwise.
pub fn default_kanshi_path(home_dir: &str) -> (path: String)
    ensures
        path@ == default_path(home_dir@),
{
    let mut path = home_dir.to_owned();
    path.append("/.config/regolith3/kanshi");
    assert(path@ =~= default_path(home_dir@));
    path
}

/// The paths in a directory.
pub open spec fn paths_in(base: Seq<char>) -> KanshiPathsView {
    KanshiPathsView {
        profiles: joined_path(base, "profiles"@),
        config: joined_path(base, "config"@),
    }
}

/// The paths for the user with this home directory, given what the resource
/// that names the directory was found to be. Where the resource cannot be had,
/// the default directory is used.
pub fn get_kanshi_paths(home_dir: &str, resource: Result<String, String>) -> (paths: KanshiPaths)
    ensures
        paths@ == paths_in(
            match resource {
                Ok(path) => path@,
                Err(_) => default_path(home_dir@),
            },
        ),
{
    let base = match resource {
        Ok(path) => path,
        Err(_) => default_kanshi_path(home_dir),
    };
    KanshiPaths {
        profiles: join_path(base.as_str(), "profiles"),
        config: join_path(base.as_str(), "config"),
    }
}

/// A program and its arguments.
#[derive(Debug, PartialEq, Eq)]
pub struct CommandLine {
    pub program: String,
    pub args: Vec<String>,
}

/// What a [`CommandLine`] stands for.
pub struct CommandLineView {
    pub program: Seq<char>,
    pub args: Seq<Seq<char>>,
}

impl View for CommandLine {
    type V = CommandLineView;

    open spec fn view(&self) -> CommandLineView {
        CommandLineView { program: self.program@, args: text::texts(self.args@) }
    }
}

/// What to run, one after the other, to make kanshi read its configuration
/// again: the running kanshi is ended, and a new one started.
pub fn reload_kanshi(paths: &KanshiPaths) -> (commands: (CommandLine, CommandLine))
    ensures
        commands.0@ == (CommandLineView { program: "killall"@, args: seq!["kanshi"@] }),
        commands.1@ == (CommandLineView {
            program: "kanshi"@,
            args: seq!["-c"@, paths@.config],
        }),
{
    let mut kill_args: Vec<String> = Vec::new();
    kill_args.push("kanshi".to_owned());
    let mut start_args: Vec<String> = Vec::new();
    start_args.push("-c".to_owned());
    start_args.push(paths.config.clone());
    assert(text::texts(kill_args@) =~= seq!["kanshi"@]);
    assert(text::texts(start_args@) =~= seq!["-c"@, paths@.config]);
    (
        CommandLine { program: "killall".to_owned(), args: kill_args },
        CommandLine { program: "kanshi".to_owned(), args: start_args },
    )
}

impl KanshiPaths {
    /// The file of the profile of this name.
    pub fn profile_path(&self, profile_name: &str) -> (path: String)
        ensures
            path@ == joined_path(self@.profiles, profile_name@),
    {
        join_path(self.profiles.as_str(), profile_name)
    }
}

/// Whether a profile has to be written, given what its file holds, if it can be
/// read.
pub fn write_kanshi_profile_if_changed(
    existing_profile: &Option<String>,
    profile_text: &str,
) -> (write: bool)
    ensures
        write == (text::option_text(*existing_profile) != Some(profile_text@)),
{
    match existing_profile {
        Some(existing) => !text::text_eq(existing.as_str(), profile_text),
        None => true,
    }
}

/// A profile's file lies in the directory of the profiles, whatever the name,
/// unless the name is an absolute path.
pub proof fn profiles_stay_in_their_directory(base: Seq<char>, name: Seq<char>)
    requires
        name.len() == 0 || name[0] != '/',
    ensures
        base.is_prefix_of(joined_path(base, name)),
        name.is_suffix_of(joined_path(base, name)),
{
    let path = joined_path(base, name);
    assert(path.subrange(0, base.len() as int) =~= base);
    assert(path.subrange(path.len() - name.len(), path.len() as int) =~= name);
}

} // verus!
