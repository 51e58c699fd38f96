//! The decisions and words of `innu uninstall`: whether Innu came from a
//! package manager (then only guidance is printed), what it lists before
//! asking, which answer confirms, and what it reports once the files are
//! handled. Finding, reading and removing the files is left to the caller.
use vstd::prelude::*;

use crate::text::{chars_of, has_prefix, join2, same_text, string_from_chars, strip_prefix_chars, trim_chars, trimmed};

verus! {

/// The contents of each line.
pub open spec fn line_texts(lines: Seq<String>) -> Seq<Seq<char>> {
    lines.map_values(|s: String| s@)
}

/// One bullet line per path, in order.
pub open spec fn bullets(paths: Seq<String>) -> Seq<Seq<char>> {
    paths.map_values(|p: String| "- "@ + p@)
}

/// The lines printed before asking: a heading, a blank line, the paths that
/// will be removed, and a blank line.
pub open spec fn plan_text(paths: Seq<String>) -> Seq<Seq<char>> {
    seq!["This will remove the following Innu files if present:"@, Seq::<char>::empty()] + bullets(paths)
        + seq![Seq::<char>::empty()]
}

/// The lines printed afterwards: the removed paths, or a note that none was
/// found, then the paths that were already absent, if any.
pub open spec fn report_text(removed: Seq<String>, missing: Seq<String>) -> Seq<Seq<char>> {
    let first = if removed.len() == 0 {
        seq!["No installed Innu files were found."@]
    } else {
        seq![Seq::<char>::empty(), "Removed:"@] + bullets(removed)
    };
    let second = if missing.len() == 0 {
        Seq::<Seq<char>>::empty()
    } else {
        seq![Seq::<char>::empty(), "Already absent:"@] + bullets(missing)
    };
    first + second
}

fn push_line(lines: &mut Vec<String>, line: String)
    ensures
        line_texts(final(lines)@) == line_texts(old(lines)@).push(line@),
{
    let ghost before = lines@;
    lines.push(line);
    assert(line_texts(lines@) =~= line_texts(before).push(line@));
}

fn push_bullets(lines: &mut Vec<String>, paths: &Vec<String>)
    ensures
        line_texts(final(lines)@) == line_texts(old(lines)@) + bullets(paths@),
{
    let ghost start = line_texts(lines@);
    for i in 0..paths.len()
        invariant
            line_texts(lines@) == start + bullets(paths@.take(i as int)),
    {
        push_line(lines, join2("- ", paths[i].as_str()));
        assert(bullets(paths@.take(i + 1)) =~= bullets(paths@.take(i as int)).push("- "@ + paths@[i as int]@));
        assert(start + bullets(paths@.take(i + 1)) =~= (start + bullets(paths@.take(i as int))).push("- "@ + paths@[i as int]@));
    }
    assert(paths@.take(paths.len() as int) =~= paths@);
}

/// The lines listing what `innu uninstall` is about to remove.
pub fn uninstall_plan(paths: &Vec<String>) -> (lines: Vec<String>)
    ensures
        line_texts(lines@) == plan_text(paths@),
{
    let mut lines: Vec<String> = Vec::new();
    push_line(&mut lines, "This will remove the following Innu files if present:".to_owned());
    push_line(&mut lines, String::new());
    push_bullets(&mut lines, paths);
    push_line(&mut lines, String::new());
    proof {
        assert(line_texts(lines@) =~= plan_text(paths@));
    }
    lines
}

/// Whether the answer to the prompt confirms: `uninstall`, with any white
/// space around it.
pub fn confirms_uninstall(answer: &str) -> (r: bool)
    ensures
        r == (trimmed(answer@) == "uninstall"@),
{
    let chars = chars_of(answer);
    let t = trim_chars(&chars);
    let s = string_from_chars(&t);
    same_text(s.as_str(), "uninstall")
}

/// The lines reporting which paths were removed and which were already absent.
pub fn uninstall_report(removed: &Vec<String>, missing: &Vec<String>) -> (lines: Vec<String>)
    ensures
        line_texts(lines@) == report_text(removed@, missing@),
{
    let mut lines: Vec<String> = Vec::new();
    if removed.len() == 0 {
        push_line(&mut lines, "No installed Innu files were found.".to_owned());
    } else {
        push_line(&mut lines, String::new());
        push_line(&mut lines, "Removed:".to_owned());
        push_bullets(&mut lines, removed);
    }
    if missing.len() > 0 {
        push_line(&mut lines, String::new());
        push_line(&mut lines, "Already absent:".to_owned());
        push_bullets(&mut lines, missing);
    }
    proof {
        assert(line_texts(lines@) =~= report_text(removed@, missing@));
    }
    lines
}

/// How the running copy of Innu was installed.
#[derive(Debug, Clone, Copy, PartialEq, Eq, Structural)]
pub enum InstallKind {
    /// Installed for this user (by `install.sh` or by hand): `innu uninstall`
    /// removes it.
    UserLocal,
    /// Installed by the system package manager (`innu-bin` or `innu-git`):
    /// `innu uninstall` only says how to remove it.
    PackageManaged,
}

/// An executable under `/usr/`, other than under `/usr/local/`, was installed
/// by the system package manager.
pub open spec fn install_kind_of(executable: Seq<char>) -> InstallKind {
    if has_prefix(executable, "/usr/"@) && !has_prefix(executable, "/usr/local/"@) {
        InstallKind::PackageManaged
    } else {
        InstallKind::UserLocal
    }
}

/// How Innu was installed, from the path of the running executable.
pub fn install_kind(executable: &str) -> (r: InstallKind)
    ensures
        r == install_kind_of(executable@),
{
    let chars = chars_of(executable);
    let system = strip_prefix_chars(&chars, "/usr/").is_some();
    let local = strip_prefix_chars(&chars, "/usr/local/").is_some();
    if system && !local {
        InstallKind::PackageManaged
    } else {
        InstallKind::UserLocal
    }
}

/// The lines printed instead of removing anything when a package manager
/// installed Innu: the removal command for each package, then the user data
/// that may be removed by hand.
pub open spec fn guidance_text(user_data: Seq<String>) -> Seq<Seq<char>> {
    seq![
        "Innu was installed with a package manager. Remove it with the command for your package:"@,
        Seq::<char>::empty(),
        "- innu-bin: sudo pacman -Rns innu-bin"@,
        "- innu-git: sudo pacman -Rns innu-git"@,
        Seq::<char>::empty(),
        "Optionally remove your user data as well:"@,
    ] + bullets(user_data)
}

/// The removal guidance for a package-managed install, with the user-data
/// paths that are left to remove by hand.
pub fn package_removal_guidance(user_data: &Vec<String>) -> (lines: Vec<String>)
    ensures
        line_texts(lines@) == guidance_text(user_data@),
{
    let mut lines: Vec<String> = Vec::new();
    push_line(&mut lines, "Innu was installed with a package manager. Remove it with the command for your package:".to_owned());
    push_line(&mut lines, String::new());
    push_line(&mut lines, "- innu-bin: sudo pacman -Rns innu-bin".to_owned());
    push_line(&mut lines, "- innu-git: sudo pacman -Rns innu-git".to_owned());
    push_line(&mut lines, String::new());
    push_line(&mut lines, "Optionally remove your user data as well:".to_owned());
    push_bullets(&mut lines, user_data);
    proof {
        assert(line_texts(lines@) =~= guidance_text(user_data@));
    }
    lines
}

} // verus!
