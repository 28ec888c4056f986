use terminal::shell::{
    cd_target, help_lines, interpret_line, parse_cwd, render_prompt, Action, WorkDir,
};

#[test]
fn exit_on_first_token() {
    assert_eq!(interpret_line("exit", None), Action::Exit);
    assert_eq!(interpret_line("exit now really", None), Action::Exit);
    assert_eq!(interpret_line("   exit\t--force", None), Action::Exit);
}

#[test]
fn help_and_ls() {
    assert_eq!(interpret_line("help", None), Action::Help);
    assert_eq!(interpret_line("ls", None), Action::ListDir);
    assert_eq!(interpret_line("ls extra args", None), Action::ListDir);
}

#[test]
fn cd_dispatch() {
    assert_eq!(
        interpret_line("cd /tmp", None),
        Action::ChangeDir { target: "/tmp".to_string() }
    );
    assert_eq!(interpret_line("cd", None), Action::ChangeDir { target: "/".to_string() });
    assert_eq!(
        interpret_line("cd -", Some("/home/me")),
        Action::ChangeDir { target: "/home/me".to_string() }
    );
    assert_eq!(interpret_line("cd -", None), Action::ChangeDir { target: "/".to_string() });
}

#[test]
fn cd_target_defaults() {
    assert_eq!(cd_target(None, Some("/home/me")), "/");
    assert_eq!(cd_target(Some("-"), Some("/home/me")), "/home/me");
    assert_eq!(cd_target(Some("-"), None), "/");
    assert_eq!(cd_target(Some("projects"), Some("/home/me")), "projects");
}

#[test]
fn file_commands() {
    assert_eq!(
        interpret_line("newdir d", None),
        Action::MakeDir { path: "d".to_string() }
    );
    assert_eq!(
        interpret_line("newfile f.txt", None),
        Action::MakeFile { path: "f.txt".to_string() }
    );
    assert_eq!(
        interpret_line("openfile f.txt", None),
        Action::OpenFile { path: "f.txt".to_string() }
    );
    assert_eq!(interpret_line("newdir", None), Action::MissingArg);
    assert_eq!(interpret_line("newfile", None), Action::MissingArg);
    assert_eq!(interpret_line("openfile", None), Action::MissingArg);
}

#[test]
fn searchfile_dispatch() {
    assert_eq!(
        interpret_line("searchfile notes.txt bee", None),
        Action::Search { path: "notes.txt".to_string(), term: "bee".to_string() }
    );
    assert_eq!(interpret_line("searchfile notes.txt", None), Action::SearchUsage);
    assert_eq!(interpret_line("searchfile", None), Action::MissingArg);
}

#[test]
fn unknown_command_spawns() {
    assert_eq!(
        interpret_line("echo hi", None),
        Action::Spawn { program: "echo".to_string(), args: vec!["hi".to_string()] }
    );
    assert_eq!(
        interpret_line("", None),
        Action::Spawn { program: String::new(), args: Vec::new() }
    );
    assert_eq!(
        interpret_line(" \t ", None),
        Action::Spawn { program: String::new(), args: Vec::new() }
    );
}

#[test]
fn prompt_and_cwd() {
    let wd = WorkDir::new("C:\\Users\\me".to_string());
    assert_eq!(parse_cwd(&wd), "C:\\Users\\me");
    assert_eq!(render_prompt(&wd), "C:/Users/me>_");
    let plain = WorkDir::new("/srv".to_string());
    assert_eq!(render_prompt(&plain), "/srv>_");
}

#[test]
fn help_table() {
    let lines = help_lines();
    assert_eq!(lines.len(), 11);
    assert_eq!(lines[0], "    command  |  action  ");
    assert_eq!(lines[1], "----------------------------------------------");
    assert_eq!(lines[2], "- cd         |    navigate to a directory, use ../ to move up");
    assert_eq!(lines[3], "- ls         |    list files & directories in current location");
    assert_eq!(lines[4], "- exit       |    terminate the interface");
    assert_eq!(lines[5], "- help       |    print the terminal command guide");
    assert_eq!(lines[6], "- newdir     |    create a new directory");
    assert_eq!(lines[7], "- newfile    |    create a new file of specified ext. type");
    assert_eq!(
        lines[8],
        "- openfile   |    open a text based file and print the content to the terminal"
    );
    assert_eq!(
        lines[9],
        "- searchfile |    search a text based file and print highlighted content to the terminal if found"
    );
    assert_eq!(lines[10], "");
}
