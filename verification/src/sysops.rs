//! Data types for OS-level collaborators — applications, shell commands,
//! file-system operations, processes — and the pure parsing that turns
//! their raw text output into records.

use vstd::prelude::*;
use vstd::string::*;
use crate::text::{
    to_chars, chars_to_string, chars_start_with, chars_contain_ci, contains_ci, is_prefix, lines,
    split_lines, words, split_ws, views_of, all_digits, dec_value, parse_u64,
};
use crate::value::{Param, ParamValue};

verus! {

/// An installed application.
pub struct AppInfo {
    pub name: String,
    pub path: String,
    pub icon: Option<String>,
    pub description: Option<String>,
}

/// What a finished shell command produced.
pub struct CommandResult {
    pub stdout: String,
    pub stderr: String,
    pub exit_code: i32,
    pub success: bool,
}

/// The kind of a generic file-system operation.
#[derive(PartialEq, Eq, Structural, Clone, Copy, Debug)]
pub enum FileOperationType {
    Copy,
    Move,
    Delete,
    CreateDirectory,
    Rename,
}

/// One generic file-system operation.
pub struct FileSystemOperation {
    pub operation_type: FileOperationType,
    pub source: String,
    pub destination: Option<String>,
    pub recursive: bool,
}

/// One running process. The CPU column is kept as the raw text of the
/// process listing; it is display-only and never computed with.
pub struct ProcessInfo {
    pub pid: u32,
    pub name: String,
    pub memory_usage: Option<u64>,
    pub cpu_usage: Option<String>,
}

/// A command that the terminal runner refuses outright, by
/// case-insensitive substring match against its own fixed denylist.
pub open spec fn blocked_command(cmd: Seq<char>) -> bool {
    ||| contains_ci(cmd, "rm -rf /"@)
    ||| contains_ci(cmd, "format"@)
    ||| contains_ci(cmd, "del /f"@)
    ||| contains_ci(cmd, "deltree"@)
    ||| contains_ci(cmd, "dd if=/dev/zero"@)
    ||| contains_ci(cmd, "mkfs"@)
    ||| contains_ci(cmd, "fdisk"@)
}

/// Tests a command against the terminal runner's denylist.
pub fn command_blocked(command: &str) -> (r: bool)
    ensures
        r == blocked_command(command@),
{
    let text = to_chars(command);
    chars_contain_ci(&text, &to_chars("rm -rf /")) || chars_contain_ci(&text, &to_chars("format"))
        || chars_contain_ci(&text, &to_chars("del /f")) || chars_contain_ci(
        &text,
        &to_chars("deltree"),
    ) || chars_contain_ci(&text, &to_chars("dd if=/dev/zero")) || chars_contain_ci(
        &text,
        &to_chars("mkfs"),
    ) || chars_contain_ci(&text, &to_chars("fdisk"))
}

/// The value of a command's outcome, as the dispatcher records it.
pub fn command_result_value(r: &CommandResult) -> (v: ParamValue)
    ensures
        v matches ParamValue::Obj(fields) && {
            &&& fields@.len() == 4
            &&& fields@[0].name@ == "stdout"@
            &&& fields@[0].value matches ParamValue::Str(s) && s@ == r.stdout@
            &&& fields@[1].name@ == "stderr"@
            &&& fields@[1].value matches ParamValue::Str(s) && s@ == r.stderr@
            &&& fields@[2].name@ == "exit_code"@
            &&& fields@[2].value == ParamValue::Int(r.exit_code as i64)
            &&& fields@[3].name@ == "success"@
            &&& fields@[3].value == ParamValue::Bool(r.success)
        },
{
    let mut fields: Vec<Param> = Vec::new();
    fields.push(
        Param { name: String::from_str("stdout"), value: ParamValue::Str(r.stdout.clone()) },
    );
    fields.push(
        Param { name: String::from_str("stderr"), value: ParamValue::Str(r.stderr.clone()) },
    );
    fields.push(
        Param {
            name: String::from_str("exit_code"),
            value: ParamValue::Int(r.exit_code as i64),
        },
    );
    fields.push(
        Param { name: String::from_str("success"), value: ParamValue::Bool(r.success) },
    );
    ParamValue::Obj(fields)
}

/// The field a desktop entry sets under the given prefix: the remainder
/// of the last line that starts with it.
pub open spec fn spec_desktop_field(ls: Seq<Seq<char>>, prefix: Seq<char>) -> Option<Seq<char>>
    decreases ls.len(),
{
    if ls.len() == 0 {
        None
    } else if is_prefix(prefix, ls.last()) {
        Some(ls.last().skip(prefix.len() as int))
    } else {
        spec_desktop_field(ls.drop_last(), prefix)
    }
}

/// What a desktop entry describes: its name and the first
/// whitespace-separated token of its exec line; nothing when either is
/// absent or empty.
pub open spec fn spec_desktop_app(content: Seq<char>) -> Option<(Seq<char>, Seq<char>)> {
    let name = spec_desktop_field(lines(content), "Name="@);
    let exec_field = spec_desktop_field(lines(content), "Exec="@);
    let token = match exec_field {
        Some(e) => if words(e).len() > 0 {
            words(e)[0]
        } else {
            Seq::empty()
        },
        None => Seq::<char>::empty(),
    };
    match name {
        Some(n) => if n.len() > 0 && token.len() > 0 {
            Some((n, token))
        } else {
            None
        },
        None => None,
    }
}

fn desktop_field(ls: &Vec<String>, prefix: &str) -> (r: Option<String>)
    ensures
        match r {
            Some(s) => spec_desktop_field(views_of(ls@), prefix@) == Some(s@),
            None => spec_desktop_field(views_of(ls@), prefix@) is None,
        },
{
    let pre = to_chars(prefix);
    let n = ls.len();
    let mut found: Option<String> = None;
    let mut i: usize = 0;
    proof {
        assert(views_of(ls@).take(0) =~= Seq::<Seq<char>>::empty());
    }
    while i < n
        invariant
            n == ls@.len(),
            i <= n,
            pre@ == prefix@,
            match found {
                Some(s) => spec_desktop_field(views_of(ls@).take(i as int), prefix@) == Some(s@),
                None => spec_desktop_field(views_of(ls@).take(i as int), prefix@) is None,
            },
        decreases n - i,
    {
        let lv = to_chars(ls[i].as_str());
        proof {
            assert(views_of(ls@).take(i + 1 as int).drop_last() =~= views_of(ls@).take(i as int));
            assert(views_of(ls@).take(i + 1 as int).last() == ls@[i as int]@);
        }
        if chars_start_with(&lv, &pre) {
            let s = chars_to_string(&lv, pre.len(), lv.len());
            found = Some(s);
        }
        i += 1;
    }
    proof {
        assert(views_of(ls@).take(n as int) =~= views_of(ls@));
    }
    found
}

/// Reads one `.desktop` entry: the application's name (its last `Name=`
/// line) and executable (the first token of its last `Exec=` line);
/// nothing when either is missing or empty.
pub fn parse_desktop_entry(content: &str) -> (r: Option<AppInfo>)
    ensures
        match r {
            Some(app) => {
                &&& spec_desktop_app(content@) == Some((app.name@, app.path@))
                &&& app.icon is None
                &&& app.description is None
            },
            None => spec_desktop_app(content@) is None,
        },
{
    let v = to_chars(content);
    let ls = split_lines(&v);
    let name = desktop_field(&ls, "Name=");
    let exec_field = desktop_field(&ls, "Exec=");
    let token: Option<String> = match exec_field {
        Some(e) => {
            let ev = to_chars(e.as_str());
            let ws = split_ws(&ev);
            if ws.len() > 0 {
                let mut ws = ws;
                let t = ws.remove(0);
                proof {
                    assert(t@ == words(e@)[0]);
                }
                Some(t)
            } else {
                None
            }
        },
        None => None,
    };
    match (name, token) {
        (Some(n), Some(t)) => {
            if n.as_str().unicode_len() > 0 && t.as_str().unicode_len() > 0 {
                Some(AppInfo { name: n, path: t, icon: None, description: None })
            } else {
                None
            }
        },
        _ => None,
    }
}

/// The view of one parsed process entry.
pub open spec fn process_view(p: ProcessInfo) -> (int, Seq<char>, Option<int>, Option<Seq<char>>) {
    (
        p.pid as int,
        p.name@,
        match p.memory_usage {
            Some(m) => Some(m as int),
            None => None,
        },
        match p.cpu_usage {
            Some(c) => Some(c@),
            None => None,
        },
    )
}

/// The views of a process list.
pub open spec fn process_views(ps: Seq<ProcessInfo>) -> Seq<
    (int, Seq<char>, Option<int>, Option<Seq<char>>),
> {
    ps.map_values(|p: ProcessInfo| process_view(p))
}

/// What one process-listing line contributes: with at least eleven
/// columns and a process id that fits, the id, the command name, the
/// memory column where it parses, and the raw CPU column; otherwise
/// nothing.
pub open spec fn spec_ps_line(line: Seq<char>) -> Option<
    (int, Seq<char>, Option<int>, Option<Seq<char>>),
> {
    let ws = words(line);
    if ws.len() >= 11 {
        let pid = ws[1];
        if pid.len() > 0 && all_digits(pid) && dec_value(pid) <= u32::MAX {
            let mem = ws[5];
            let mem_val = if mem.len() > 0 && all_digits(mem) && dec_value(mem) <= u64::MAX {
                Some(dec_value(mem))
            } else {
                None
            };
            Some((dec_value(pid), ws[10], mem_val, Some(ws[2])))
        } else {
            None
        }
    } else {
        None
    }
}

/// What a whole process listing contributes: every line after the
/// header, in order.
pub open spec fn spec_ps_output(ls: Seq<Seq<char>>) -> Seq<
    (int, Seq<char>, Option<int>, Option<Seq<char>>),
>
    decreases ls.len(),
{
    if ls.len() <= 1 {
        Seq::empty()
    } else {
        spec_ps_output(ls.drop_last()) + (match spec_ps_line(ls.last()) {
            Some(e) => seq![e],
            None => Seq::empty(),
        })
    }
}

/// Parses the text a Unix process listing printed: one record per data
/// line that carries a usable process id; the header line is skipped.
pub fn parse_ps_output(stdout: &str) -> (r: Vec<ProcessInfo>)
    ensures
        process_views(r@) == spec_ps_output(lines(stdout@)),
{
    let v = to_chars(stdout);
    let ls = split_lines(&v);
    let n = ls.len();
    let mut out: Vec<ProcessInfo> = Vec::new();
    let mut i: usize = 1;
    proof {
        assert(process_views(out@) =~= Seq::<
            (int, Seq<char>, Option<int>, Option<Seq<char>>),
        >::empty());
        if n >= 1 {
            assert(spec_ps_output(views_of(ls@).take(1)) =~= Seq::<
                (int, Seq<char>, Option<int>, Option<Seq<char>>),
            >::empty());
        } else {
            assert(spec_ps_output(views_of(ls@).take(0)) =~= Seq::<
                (int, Seq<char>, Option<int>, Option<Seq<char>>),
            >::empty());
        }
    }
    if n <= 1 {
        proof {
            assert(views_of(ls@).take(n as int) =~= views_of(ls@));
            assert(spec_ps_output(views_of(ls@)) =~= Seq::<
                (int, Seq<char>, Option<int>, Option<Seq<char>>),
            >::empty());
        }
        return out;
    }
    while i < n
        invariant
            1 <= i <= n,
            n == ls@.len(),
            views_of(ls@) == lines(stdout@),
            process_views(out@) == spec_ps_output(views_of(ls@).take(i as int)),
        decreases n - i,
    {
        proof {
            assert(views_of(ls@).take(i + 1 as int).drop_last() =~= views_of(ls@).take(i as int));
            assert(views_of(ls@).take(i + 1 as int).last() == ls@[i as int]@);
        }
        let lv = to_chars(ls[i].as_str());
        let ws = split_ws(&lv);
        if ws.len() >= 11 {
            let pid_chars = to_chars(ws[1].as_str());
            proof {
                assert(ws@[1]@ == words(ls@[i as int]@)[1]);
            }
            match parse_u64(&pid_chars) {
                Some(pid64) => {
                    if pid64 <= 0xffff_ffffu64 {
                        let mem_chars = to_chars(ws[5].as_str());
                        let memory_usage = parse_u64(&mem_chars);
                        let entry = ProcessInfo {
                            pid: pid64 as u32,
                            name: ws[10].clone(),
                            memory_usage,
                            cpu_usage: Some(ws[2].clone()),
                        };
                        proof {
                            assert(process_views(out@.push(entry)) =~= process_views(out@).push(
                                process_view(entry),
                            ));
                            assert(spec_ps_line(ls@[i as int]@) == Some(process_view(entry)));
                        }
                        out.push(entry);
                        proof {
                            assert(process_views(out@) =~= spec_ps_output(
                                views_of(ls@).take(i + 1 as int),
                            ));
                        }
                    } else {
                        proof {
                            assert(spec_ps_line(ls@[i as int]@) is None);
                            assert(process_views(out@) =~= spec_ps_output(
                                views_of(ls@).take(i + 1 as int),
                            ));
                        }
                    }
                },
                None => {
                    proof {
                        assert(spec_ps_line(ls@[i as int]@) is None);
                        assert(process_views(out@) =~= spec_ps_output(
                            views_of(ls@).take(i + 1 as int),
                        ));
                    }
                },
            }
        } else {
            proof {
                assert(spec_ps_line(ls@[i as int]@) is None);
                assert(process_views(out@) =~= spec_ps_output(views_of(ls@).take(i + 1 as int)));
            }
        }
        i += 1;
    }
    proof {
        assert(views_of(ls@).take(n as int) =~= views_of(ls@));
    }
    out
}

} // verus!
