//! The dispatch core of the shell: the working-directory display value, the
//! command table, and the decision taken for one line of input.
use crate::listing::{replace_backslashes, slashify};
use crate::text::{chars_to_string, spec_tokens, str_to_chars, tokenize_chars, vec_eq};
use vstd::prelude::*;
use vstd::string::StringExecFns;

verus! {

/// The working directory, held as its display text.
pub struct WorkDir {
    text: String,
}

impl View for WorkDir {
    type V = Seq<char>;

    closed spec fn view(&self) -> Seq<char> {
        self.text@
    }
}

impl WorkDir {
    /// A working directory whose display text is `text`.
    pub fn new(text: String) -> (d: WorkDir)
        ensures
            d@ == text@,
    {
        WorkDir { text }
    }
}

/// The display string of the working directory.
pub fn parse_cwd(cwd: &WorkDir) -> (r: String)
    ensures
        r@ == cwd@,
{
    cwd.text.clone()
}

/// The prompt printed before each command is read: the working directory's
/// display string with backslashes turned into forward slashes, then `>_`.
pub fn render_prompt(cwd: &WorkDir) -> (r: String)
    ensures
        r@ == slashify(cwd@) + ">_"@,
{
    let text = parse_cwd(cwd);
    let cs = str_to_chars(text.as_str());
    let normalized = replace_backslashes(&cs);
    let mut r = chars_to_string(&normalized);
    r.append(">_");
    r
}

/// What the shell loop does with one line of input.
#[derive(Debug, PartialEq, Eq)]
pub enum Action {
    /// `exit`: end the session.
    Exit,
    /// `help`: print the command table.
    Help,
    /// `cd`: move to the directory `target`.
    ChangeDir { target: String },
    /// `ls`: list the working directory.
    ListDir,
    /// `newdir`: create the directory `path`.
    MakeDir { path: String },
    /// `newfile`: create the file `path`.
    MakeFile { path: String },
    /// `openfile`: print the contents of the file `path`.
    OpenFile { path: String },
    /// `searchfile` with both arguments: search the file `path` for `term`.
    Search { path: String, term: String },
    /// `searchfile` with a path but no term: print the usage hint and touch
    /// no file.
    SearchUsage,
    /// A built-in that needs an argument got none: abort, as reading the
    /// missing token does.
    MissingArg,
    /// Anything else: run `program` with `args` as an external process.
    Spawn { program: String, args: Vec<String> },
}

/// The view of an optional string.
pub open spec fn opt_view(s: Option<&str>) -> Option<Seq<char>> {
    match s {
        Some(t) => Some(t@),
        None => None,
    }
}

/// Where `cd` goes: with no argument the root, with `-` the home directory
/// (or the root when there is none), else the argument itself.
pub open spec fn spec_cd_target(arg: Option<Seq<char>>, home: Option<Seq<char>>) -> Seq<char> {
    match arg {
        None => "/"@,
        Some(a) => if a == "-"@ {
            match home {
                Some(h) => h,
                None => "/"@,
            }
        } else {
            a
        },
    }
}

/// The directory that `cd` with argument `arg` moves to, given the home
/// directory `home`.
pub fn cd_target(arg: Option<&str>, home: Option<&str>) -> (r: String)
    ensures
        r@ == spec_cd_target(opt_view(arg), opt_view(home)),
{
    match arg {
        None => String::from_str("/"),
        Some(a) => {
            let ac = str_to_chars(a);
            let dash = str_to_chars("-");
            if vec_eq(&ac, &dash) {
                match home {
                    Some(h) => String::from_str(h),
                    None => String::from_str("/"),
                }
            } else {
                String::from_str(a)
            }
        },
    }
}

/// The shell's dispatch table: whether `r` is the decision the shell takes
/// for a line whose tokens are `toks`, given the home directory `home`.
pub open spec fn action_ok(r: Action, toks: Seq<Seq<char>>, home: Option<Seq<char>>) -> bool {
    if toks.len() == 0 {
        r matches Action::Spawn { program, args } && program@ == Seq::<char>::empty()
            && args.deep_view() == Seq::<Seq<char>>::empty()
    } else if toks[0] == "exit"@ {
        r == Action::Exit
    } else if toks[0] == "help"@ {
        r == Action::Help
    } else if toks[0] == "cd"@ {
        r matches Action::ChangeDir { target } && target@ == spec_cd_target(
            if toks.len() >= 2 {
                Some(toks[1])
            } else {
                None
            },
            home,
        )
    } else if toks[0] == "ls"@ {
        r == Action::ListDir
    } else if toks[0] == "newdir"@ {
        if toks.len() >= 2 {
            r matches Action::MakeDir { path } && path@ == toks[1]
        } else {
            r == Action::MissingArg
        }
    } else if toks[0] == "newfile"@ {
        if toks.len() >= 2 {
            r matches Action::MakeFile { path } && path@ == toks[1]
        } else {
            r == Action::MissingArg
        }
    } else if toks[0] == "openfile"@ {
        if toks.len() >= 2 {
            r matches Action::OpenFile { path } && path@ == toks[1]
        } else {
            r == Action::MissingArg
        }
    } else if toks[0] == "searchfile"@ {
        if toks.len() >= 3 {
            r matches Action::Search { path, term } && path@ == toks[1] && term@ == toks[2]
        } else if toks.len() == 2 {
            r == Action::SearchUsage
        } else {
            r == Action::MissingArg
        }
    } else {
        r matches Action::Spawn { program, args } && program@ == toks[0] && args.deep_view()
            == toks.drop_first()
    }
}

/// The decision the shell takes for one line of input: dispatch on the first
/// white-space-separated token, as the table in `action_ok` says.
#[verifier::loop_isolation(false)]
pub fn interpret_line(line: &str, home: Option<&str>) -> (r: Action)
    ensures
        action_ok(r, spec_tokens(line@), opt_view(home)),
{
    let cs = str_to_chars(line);
    let toks = tokenize_chars(&cs);
    let ghost st = spec_tokens(line@);
    if toks.len() == 0 {
        let args: Vec<String> = Vec::new();
        proof {
            assert(args.deep_view() =~~= Seq::<Seq<char>>::empty());
        }
        return Action::Spawn { program: String::new(), args };
    }
    proof {
        assert(st[0] == toks@[0].deep_view());
        assert(toks@[0].deep_view() =~= toks@[0]@);
    }
    let cmd = &toks[0];
    if vec_eq(cmd, &str_to_chars("exit")) {
        return Action::Exit;
    }
    if vec_eq(cmd, &str_to_chars("help")) {
        return Action::Help;
    }
    if vec_eq(cmd, &str_to_chars("cd")) {
        if toks.len() >= 2 {
            proof {
                assert(st[1] == toks@[1].deep_view());
                assert(toks@[1].deep_view() =~= toks@[1]@);
            }
            let arg = chars_to_string(&toks[1]);
            let target = cd_target(Some(arg.as_str()), home);
            return Action::ChangeDir { target };
        }
        let target = cd_target(None, home);
        return Action::ChangeDir { target };
    }
    if vec_eq(cmd, &str_to_chars("ls")) {
        return Action::ListDir;
    }
    proof {
        if toks@.len() >= 2 {
            assert(st[1] == toks@[1].deep_view());
            assert(toks@[1].deep_view() =~= toks@[1]@);
        }
        if toks@.len() >= 3 {
            assert(st[2] == toks@[2].deep_view());
            assert(toks@[2].deep_view() =~= toks@[2]@);
        }
    }
    if vec_eq(cmd, &str_to_chars("newdir")) {
        if toks.len() >= 2 {
            return Action::MakeDir { path: chars_to_string(&toks[1]) };
        }
        return Action::MissingArg;
    }
    if vec_eq(cmd, &str_to_chars("newfile")) {
        if toks.len() >= 2 {
            return Action::MakeFile { path: chars_to_string(&toks[1]) };
        }
        return Action::MissingArg;
    }
    if vec_eq(cmd, &str_to_chars("openfile")) {
        if toks.len() >= 2 {
            return Action::OpenFile { path: chars_to_string(&toks[1]) };
        }
        return Action::MissingArg;
    }
    if vec_eq(cmd, &str_to_chars("searchfile")) {
        if toks.len() >= 3 {
            return Action::Search {
                path: chars_to_string(&toks[1]),
                term: chars_to_string(&toks[2]),
            };
        }
        if toks.len() == 2 {
            return Action::SearchUsage;
        }
        return Action::MissingArg;
    }
    let program = chars_to_string(&toks[0]);
    let mut args: Vec<String> = Vec::new();
    let mut i: usize = 1;
    proof {
        assert(args.deep_view() =~~= toks.deep_view().subrange(1, 1));
    }
    while i < toks.len()
        invariant
            1 <= i <= toks@.len(),
            args.deep_view() == toks.deep_view().subrange(1, i as int),
        decreases toks@.len() - i,
    {
        let a = chars_to_string(&toks[i]);
        proof {
            assert(st[i as int] == toks@[i as int].deep_view());
            assert(toks@[i as int].deep_view() =~= toks@[i as int]@);
        }
        args.push(a);
        i = i + 1;
        proof {
            assert(args.deep_view() =~~= toks.deep_view().subrange(1, i as int));
        }
    }
    proof {
        assert(toks.deep_view().subrange(1, toks.deep_view().len() as int) =~~= toks.deep_view().drop_first());
    }
    Action::Spawn { program, args }
}

/// The lines of the command table that `help` prints, the last line blank.
pub fn help_lines() -> (r: Vec<String>)
    ensures
        r@.len() == 11,
        r@[0]@ == "    command  |  action  "@,
        r@[1]@ == "----------------------------------------------"@,
        r@[2]@ == "- cd         |    navigate to a directory, use ../ to move up"@,
        r@[3]@ == "- ls         |    list files & directories in current location"@,
        r@[4]@ == "- exit       |    terminate the interface"@,
        r@[5]@ == "- help       |    print the terminal command guide"@,
        r@[6]@ == "- newdir     |    create a new directory"@,
        r@[7]@ == "- newfile    |    create a new file of specified ext. type"@,
        r@[8]@ == "- openfile   |    open a text based file and print the content to the terminal"@,
        r@[9]@
            == "- searchfile |    search a text based file and print highlighted content to the terminal if found"@,
        r@[10]@ == ""@,
{
    let mut r: Vec<String> = Vec::new();
    r.push(String::from_str("    command  |  action  "));
    r.push(String::from_str("----------------------------------------------"));
    r.push(String::from_str("- cd         |    navigate to a directory, use ../ to move up"));
    r.push(String::from_str("- ls         |    list files & directories in current location"));
    r.push(String::from_str("- exit       |    terminate the interface"));
    r.push(String::from_str("- help       |    print the terminal command guide"));
    r.push(String::from_str("- newdir     |    create a new directory"));
    r.push(String::from_str("- newfile    |    create a new file of specified ext. type"));
    r.push(String::from_str("- openfile   |    open a text based file and print the content to the terminal"));
    r.push(
        String::from_str(
            "- searchfile |    search a text based file and print highlighted content to the terminal if found",
        ),
    );
    r.push(String::from_str(""));
    r
}

} // verus!
