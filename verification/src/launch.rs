//! What is started outside the program: a browser window of a given
//! size for the user to approve in, and the synchronisation process.
//! The caller looks at the disk and starts the programs.

use vstd::prelude::*;
use vstd::string::*;
use crate::text::{decimal, decimal_text, owned};

verus! {

/// The width of the browser window where none is asked for.
pub const DEFAULT_WIDTH: u32 = 520;

/// The height of the browser window where none is asked for.
pub const DEFAULT_HEIGHT: u32 = 720;

/// The width to use.
pub open spec fn width_of(width: Option<u32>) -> u32 {
    match width {
        Some(w) => w,
        None => DEFAULT_WIDTH,
    }
}

/// The height to use.
pub open spec fn height_of(height: Option<u32>) -> u32 {
    match height {
        Some(h) => h,
        None => DEFAULT_HEIGHT,
    }
}

/// The arguments that open `url` in a new browser window of the given
/// size.
pub open spec fn window_args_of(url: Seq<char>, width: Option<u32>, height: Option<u32>) -> Seq<Seq<char>> {
    seq![
        "--new-window"@,
        "--window-size="@ + decimal_text(width_of(width) as int) + ","@ + decimal_text(
            height_of(height) as int,
        ),
        url,
    ]
}

/// The arguments that open `url` in a new browser window, 520 by 720
/// where no size is given.
pub fn window_args(url: &str, width: Option<u32>, height: Option<u32>) -> (r: Vec<String>)
    ensures
        r.deep_view() == window_args_of(url@, width, height),
{
    let w = match width {
        Some(w) => w,
        None => DEFAULT_WIDTH,
    };
    let h = match height {
        Some(h) => h,
        None => DEFAULT_HEIGHT,
    };
    let mut size = "--window-size=".to_string();
    size.append(decimal(w as i64).as_str());
    size.append(",");
    size.append(decimal(h as i64).as_str());
    let mut r: Vec<String> = Vec::new();
    r.push("--new-window".to_string());
    r.push(size);
    r.push(owned(url));
    assert(r.deep_view() =~= window_args_of(url@, width, height));
    r
}

/// The browser under a program directory, where the directory is
/// known.
pub open spec fn under(base: Option<Seq<char>>, program: Seq<char>) -> Seq<Seq<char>> {
    match base {
        Some(b) => seq![b + program],
        None => Seq::empty(),
    }
}

/// The browsers to look for, in order of preference: Edge before
/// Chrome, and for each the 32-bit program directory before the other.
pub open spec fn browsers_of(program_files_x86: Option<Seq<char>>, program_files: Option<Seq<char>>) -> Seq<
    Seq<char>,
> {
    under(program_files_x86, "\\Microsoft\\Edge\\Application\\msedge.exe"@) + under(
        program_files,
        "\\Microsoft\\Edge\\Application\\msedge.exe"@,
    ) + under(program_files_x86, "\\Google\\Chrome\\Application\\chrome.exe"@) + under(
        program_files,
        "\\Google\\Chrome\\Application\\chrome.exe"@,
    )
}

fn push_under(list: &mut Vec<String>, base: Option<&str>, program: &str)
    ensures
        final(list).deep_view() == old(list).deep_view() + under(base.deep_view(), program@),
{
    let ghost before = list.deep_view();
    match base {
        Some(b) => {
            let mut path = owned(b);
            path.append(program);
            list.push(path);
            assert(list.deep_view() =~= before + under(base.deep_view(), program@));
        },
        None => {
            assert(list.deep_view() =~= before + under(base.deep_view(), program@));
        },
    }
}

/// The paths of the browsers to look for, given the two program
/// directories of the environment, each `None` where it is unset.
pub fn browser_candidates(program_files_x86: Option<&str>, program_files: Option<&str>) -> (r: Vec<
    String,
>)
    ensures
        r.deep_view() == browsers_of(program_files_x86.deep_view(), program_files.deep_view()),
{
    let mut r: Vec<String> = Vec::new();
    assert(r.deep_view() =~= Seq::<Seq<char>>::empty());
    push_under(&mut r, program_files_x86, "\\Microsoft\\Edge\\Application\\msedge.exe");
    push_under(&mut r, program_files, "\\Microsoft\\Edge\\Application\\msedge.exe");
    push_under(&mut r, program_files_x86, "\\Google\\Chrome\\Application\\chrome.exe");
    push_under(&mut r, program_files, "\\Google\\Chrome\\Application\\chrome.exe");
    assert(r.deep_view() =~= browsers_of(program_files_x86.deep_view(), program_files.deep_view()));
    r
}

/// The first position at or after `from` that is marked present.
pub open spec fn first_marked(present: Seq<bool>, from: int) -> Option<int>
    decreases present.len() - from,
{
    if from < 0 || from >= present.len() {
        None
    } else if present[from] {
        Some(from)
    } else {
        first_marked(present, from + 1)
    }
}

/// Which browser to start: the first candidate that is installed.
/// `None` means that the address goes to the system's own opener.
pub fn choose_browser(installed: &Vec<bool>) -> (r: Option<usize>)
    ensures
        match r {
            Some(i) => first_marked(installed@, 0) == Some(i as int),
            None => first_marked(installed@, 0) is None,
        },
{
    let mut i: usize = 0;
    while i < installed.len()
        invariant
            i <= installed.len(),
            first_marked(installed@, 0) == first_marked(installed@, i as int),
        decreases installed.len() - i,
    {
        if installed[i] {
            return Some(i);
        }
        i += 1;
    }
    None
}

/// The program that synchronises, and its arguments: the script and the
/// one directive, nothing else. The process reads the credential
/// document on its own, so the document is loaded and saved before the
/// process is started.
pub fn sync_command() -> (r: (String, Vec<String>))
    ensures
        r.0@ == "python"@,
        r.1.deep_view() == seq!["resources/python/plex_simkl_watchlist_sync.py"@, "--sync"@],
{
    let mut args: Vec<String> = Vec::new();
    args.push("resources/python/plex_simkl_watchlist_sync.py".to_string());
    args.push("--sync".to_string());
    assert(args.deep_view() =~= seq![
        "resources/python/plex_simkl_watchlist_sync.py"@,
        "--sync"@,
    ]);
    ("python".to_string(), args)
}

/// How an exit code reads in a failure notice.
pub open spec fn code_text(code: Option<i32>) -> Seq<char> {
    match code {
        Some(c) => "Some("@ + decimal_text(c as int) + ")"@,
        None => "None"@,
    }
}

/// What the end of the synchronisation process means: success where it
/// reported success, and otherwise a notice that names its exit code,
/// or `None` where a signal ended it.
pub fn sync_result(success: bool, code: Option<i32>) -> (r: Result<(), String>)
    ensures
        match r {
            Ok(_) => success,
            Err(notice) => !success && notice@ == "Sync script failed with "@ + code_text(code),
        },
{
    if success {
        return Ok(());
    }
    let mut notice = "Sync script failed with ".to_string();
    match code {
        Some(c) => {
            notice.append("Some(");
            notice.append(decimal(c as i64).as_str());
            notice.append(")");
        },
        None => {
            notice.append("None");
        },
    }
    assert(notice@ =~= "Sync script failed with "@ + code_text(code));
    Err(notice)
}

} // verus!
