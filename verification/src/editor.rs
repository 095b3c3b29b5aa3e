//! How a configuration file is opened in the user's editor: terminal
//! editors run in a new terminal window, others are started directly.
use vstd::prelude::*;
use crate::text::{concat_str, copy_str, str_eq, trim, trim_str};

verus! {

/// What `shlex::split` gives for a command line: its words after shell
/// quoting rules, or `None` for bad quoting.
pub uninterp spec fn shell_words(s: Seq<char>) -> Option<Seq<Seq<char>>>;

/// What `Path::file_name` gives: the last component of a path, if it is a
/// normal one.
pub uninterp spec fn path_file_name(p: Seq<char>) -> Option<Seq<char>>;

/// Calls `shlex::split`; the result is a function of the string.
#[verifier::external_body]
fn shlex_split(s: &str) -> (res: Option<Vec<String>>)
    ensures
        res is Some <==> shell_words(s@) is Some,
        res matches Some(v) ==> v@.map_values(|w: String| w@) == shell_words(s@)->Some_0,
{
    shlex::split(s)
}

/// Calls `Path::file_name`; the result is a function of the path.
#[verifier::external_body]
pub(crate) fn file_name(p: &str) -> (res: Option<String>)
    ensures
        res is Some <==> path_file_name(p@) is Some,
        res matches Some(n) ==> n@ == path_file_name(p@)->Some_0,
{
    std::path::Path::new(p).file_name().map(|n| n.to_string_lossy().into_owned())
}

/// A program and its arguments.
pub struct EditorCommand {
    pub program: String,
    pub args: Vec<String>,
}

/// A rejected editor or terminal setting.
pub struct CommandError {
    pub message: String,
}

/// The name a program is run by: the last path component, or the whole
/// string.
pub open spec fn exe_name(program: Seq<char>) -> Seq<char> {
    match path_file_name(program) {
        Some(n) => n,
        None => program,
    }
}

/// Editors that run inside a terminal.
pub open spec fn terminal_editor(name: Seq<char>) -> bool {
    name == "vi"@ || name == "vim"@ || name == "nvim"@ || name == "nano"@ || name == "micro"@
        || name == "hx"@ || name == "helix"@ || name == "kak"@ || name == "kakoune"@
}

/// The words of a setting, or why it is refused.
pub open spec fn setting_words(s: Seq<char>, variable: Seq<char>) -> Result<Seq<Seq<char>>, Seq<char>> {
    match shell_words(s) {
        None => Err(variable + " contains invalid quoting"@),
        Some(w) => if w.len() == 0 {
            Err(variable + " is empty"@)
        } else {
            Ok(w)
        },
    }
}

/// The command that opens `path`: the program and arguments of the editor
/// setting; for a terminal editor, run through the terminal setting
/// (default `xdg-terminal-exec`, given `--` before the editor, other
/// terminals `-e`).
pub open spec fn editor_command(path: Seq<char>, editor: Seq<char>, terminal: Option<Seq<char>>) -> Result<
    (Seq<char>, Seq<Seq<char>>),
    Seq<char>,
> {
    match setting_words(editor, "EDITOR/VISUAL"@) {
        Err(m) => Err(m),
        Ok(ew) => if terminal_editor(exe_name(ew[0])) {
            let t = match terminal {
                Some(t) => t,
                None => "xdg-terminal-exec"@,
            };
            match setting_words(t, "TERMINAL"@) {
                Err(m) => Err(m),
                Ok(tw) => {
                    let flag = if exe_name(tw[0]) == "xdg-terminal-exec"@ {
                        "--"@
                    } else {
                        "-e"@
                    };
                    Ok((tw[0], tw.drop_first().push(flag) + ew + seq![path]))
                },
            }
        } else {
            Ok((ew[0], ew.drop_first().push(path)))
        },
    }
}

/// The name a program is run by.
pub fn executable_name(program: &str) -> (res: String)
    ensures
        res@ == exe_name(program@),
{
    match file_name(program) {
        Some(n) => n,
        None => copy_str(program),
    }
}

/// Whether `program` is an editor that runs inside a terminal.
pub fn is_terminal_editor(program: &str) -> (res: bool)
    ensures
        res == terminal_editor(exe_name(program@)),
{
    let n = executable_name(program);
    let s = n.as_str();
    str_eq(s, "vi") || str_eq(s, "vim") || str_eq(s, "nvim") || str_eq(s, "nano") || str_eq(s, "micro")
        || str_eq(s, "hx") || str_eq(s, "helix") || str_eq(s, "kak") || str_eq(s, "kakoune")
}

fn split_command(command: &str, variable: &str) -> (res: Result<Vec<String>, CommandError>)
    ensures
        res matches Ok(v) ==> setting_words(command@, variable@) == Ok::<Seq<Seq<char>>, Seq<char>>(
            v@.map_values(|w: String| w@),
        ),
        res matches Err(e) ==> setting_words(command@, variable@) == Err::<Seq<Seq<char>>, Seq<char>>(
            e.message@,
        ),
{
    match shlex_split(command) {
        None => Err(CommandError { message: concat_str(variable, " contains invalid quoting") }),
        Some(parts) => {
            if parts.len() == 0 {
                Err(CommandError { message: concat_str(variable, " is empty") })
            } else {
                Ok(parts)
            }
        },
    }
}

fn rest_of(v: &Vec<String>) -> (res: Vec<String>)
    requires
        v.len() > 0,
    ensures
        res@.map_values(|w: String| w@) == v@.map_values(|w: String| w@).drop_first(),
{
    let mut res: Vec<String> = Vec::new();
    let mut i: usize = 1;
    while i < v.len()
        invariant
            1 <= i <= v.len(),
            res.len() == i - 1,
            forall|j: int| 0 <= j < res.len() ==> #[trigger] res@[j]@ == v@[j + 1]@,
        decreases v.len() - i,
    {
        res.push(copy_str(v[i].as_str()));
        i = i + 1;
    }
    assert(res@.map_values(|w: String| w@) =~= v@.map_values(|w: String| w@).drop_first());
    res
}

/// The command that opens `path` in `editor` (see `editor_command`).
pub fn build_editor_command(path: &str, editor: &str, terminal: Option<&str>) -> (res: Result<
    EditorCommand,
    CommandError,
>)
    ensures
        res matches Ok(c) ==> editor_command(
            path@,
            editor@,
            match terminal {
                Some(t) => Some(t@),
                None => None,
            },
        ) == Ok::<(Seq<char>, Seq<Seq<char>>), Seq<char>>(
            (c.program@, c.args@.map_values(|w: String| w@)),
        ),
        res matches Err(e) ==> editor_command(
            path@,
            editor@,
            match terminal {
                Some(t) => Some(t@),
                None => None,
            },
        ) == Err::<(Seq<char>, Seq<Seq<char>>), Seq<char>>(e.message@),
{
    proof {
        reveal_strlit("EDITOR/VISUAL");
        reveal_strlit("TERMINAL");
        reveal_strlit("xdg-terminal-exec");
    }
    let editor_parts = match split_command(editor, "EDITOR/VISUAL") {
        Ok(p) => p,
        Err(e) => {
            return Err(e);
        },
    };
    let ghost ew = editor_parts@.map_values(|w: String| w@);
    let editor_program = copy_str(editor_parts[0].as_str());
    assert(editor_program@ == ew[0]);
    let editor_args = rest_of(&editor_parts);
    if is_terminal_editor(editor_program.as_str()) {
        let t = match terminal {
            Some(t) => t,
            None => "xdg-terminal-exec",
        };
        let terminal_parts = match split_command(t, "TERMINAL") {
            Ok(p) => p,
            Err(e) => {
                return Err(e);
            },
        };
        let ghost tw = terminal_parts@.map_values(|w: String| w@);
        let terminal_program = copy_str(terminal_parts[0].as_str());
        assert(terminal_program@ == tw[0]);
        let mut args = rest_of(&terminal_parts);
        let uses_xdg = str_eq(executable_name(terminal_program.as_str()).as_str(), "xdg-terminal-exec");
        if uses_xdg {
            args.push(String::from_str("--"));
        } else {
            args.push(String::from_str("-e"));
        }
        let ghost mid = args@;
        assert(editor_args@.map_values(|w: String| w@) =~= ew.drop_first());
        assert(ew.len() == editor_parts@.len());
        assert(editor_args@.map_values(|w: String| w@).len() == editor_args@.len());
        assert(editor_args@.len() + 1 == ew.len());
        args.push(editor_program);
        let mut i: usize = 0;
        while i < editor_args.len()
            invariant
                i <= editor_args.len(),
                args@.len() == mid.len() + 1 + i,
                forall|j: int| 0 <= j < mid.len() ==> #[trigger] args@[j] == mid[j],
                args@[mid.len() as int]@ == ew[0],
                forall|j: int| 0 <= j < i ==> #[trigger] args@[mid.len() + 1 + j]@ == editor_args@[j]@,
            decreases editor_args.len() - i,
        {
            args.push(copy_str(editor_args[i].as_str()));
            i = i + 1;
        }
        let ghost before_path = args@;
        args.push(copy_str(path));
        let ghost expected = tw.drop_first().push(
            if exe_name(tw[0]) == "xdg-terminal-exec"@ {
                "--"@
            } else {
                "-e"@
            },
        ) + ew + seq![path@];
        proof {
            reveal_strlit("--");
            reveal_strlit("-e");
            assert(editor_args@.map_values(|w: String| w@) =~= ew.drop_first());
            let av = args@.map_values(|w: String| w@);
            assert forall|j: int| 0 <= j < expected.len() implies #[trigger] av[j] == expected[j] by {
                if j < mid.len() {
                    assert(args@[j] == mid[j]);
                } else if j == mid.len() {
                } else if j < mid.len() + ew.len() {
                    let k = j - mid.len() - 1;
                    assert(before_path[mid.len() + 1 + k]@ == editor_args@[k]@);
                    assert(editor_args@.map_values(|w: String| w@)[k] == ew[k + 1]);
                }
            }
            assert(av =~= expected);
        }
        Ok(EditorCommand { program: terminal_program, args })
    } else {
        let mut args = editor_args;
        let ghost before = args@;
        args.push(copy_str(path));
        assert(args@.map_values(|w: String| w@) =~= ew.drop_first().push(path@)) by {
            assert(before.map_values(|w: String| w@) =~= ew.drop_first());
        }
        Ok(EditorCommand { program: editor_program, args })
    }
}

/// The editor setting: `VISUAL` when set to something other than white
/// space, else `EDITOR` likewise, else none.
pub fn choose_editor(visual: Option<&str>, editor: Option<&str>) -> (res: Option<String>)
    ensures
        (visual matches Some(v) && trim(v@).len() > 0) ==> (res matches Some(r) && r@ == visual->Some_0@),
        !(visual matches Some(v) && trim(v@).len() > 0) && (editor matches Some(e) && trim(e@).len() > 0)
            ==> (res matches Some(r) && r@ == editor->Some_0@),
        !(visual matches Some(v) && trim(v@).len() > 0) && !(editor matches Some(e) && trim(e@).len()
            > 0) ==> res is None,
{
    match visual {
        Some(v) => {
            if trim_str(v).unicode_len() > 0 {
                return Some(copy_str(v));
            }
        },
        None => {},
    }
    match editor {
        Some(e) => {
            if trim_str(e).unicode_len() > 0 {
                return Some(copy_str(e));
            }
        },
        None => {},
    }
    None
}

/// The terminal setting, when set to something other than white space.
pub fn choose_terminal(terminal: Option<&str>) -> (res: Option<String>)
    ensures
        (terminal matches Some(t) && trim(t@).len() > 0) ==> (res matches Some(r) && r@ == terminal->Some_0@),
        !(terminal matches Some(t) && trim(t@).len() > 0) ==> res is None,
{
    match terminal {
        Some(t) => {
            if trim_str(t).unicode_len() > 0 {
                return Some(copy_str(t));
            }
        },
        None => {},
    }
    None
}

} // verus!
