use chatme_core::capabilities::get_capabilities;
use chatme_core::models::{build_context_window, Message, MessageRole};
use chatme_core::search::{
    apply_result_cap, assemble_directory_contents, contains_nul, is_binary_extension,
    search_in_content, FileInfo,
};
use chatme_core::sysops::{
    command_blocked, command_result_value, parse_desktop_entry, parse_ps_output, CommandResult,
};
use chatme_core::text::{i64_to_dec, u64_to_dec};
use chatme_core::value::{value_to_json, Param, ParamValue};

#[test]
fn decimal_rendering_is_exact() {
    assert_eq!(u64_to_dec(0), "0");
    assert_eq!(u64_to_dec(7), "7");
    assert_eq!(u64_to_dec(120450), "120450");
    assert_eq!(u64_to_dec(u64::MAX), "18446744073709551615");
    assert_eq!(i64_to_dec(-42), "-42");
    assert_eq!(i64_to_dec(i64::MIN), "-9223372036854775808");
    assert_eq!(i64_to_dec(i64::MAX), "9223372036854775807");
}

#[test]
fn json_rendering_escapes_what_it_must() {
    let v = ParamValue::Str("a\"b\\c\nd\te\u{1}".to_string());
    assert_eq!(value_to_json(&v), "\"a\\\"b\\\\c\\nd\\te\\u0001\"");
    let list = ParamValue::List(vec![
        ParamValue::Null,
        ParamValue::Bool(true),
        ParamValue::Int(-5),
        ParamValue::Str("x".to_string()),
    ]);
    assert_eq!(value_to_json(&list), "[null,true,-5,\"x\"]");
    let obj = ParamValue::Obj(vec![
        Param { name: "k".to_string(), value: ParamValue::Int(1) },
        Param { name: "l".to_string(), value: ParamValue::List(vec![]) },
    ]);
    assert_eq!(value_to_json(&obj), "{\"k\":1,\"l\":[]}");
}

#[test]
fn search_finds_spans_line_by_line() {
    let content = "fn main() {}\nlet x = 1;\nfn helper() { fn_inner(); }\n";
    let results = search_in_content("/src/lib.rs", content, "fn", true).unwrap();
    assert_eq!(results.len(), 3);
    assert_eq!(results[0].line_number, 1);
    assert_eq!(results[0].match_start, 0);
    assert_eq!(results[0].match_end, 2);
    assert_eq!(results[0].line_content, "fn main() {}");
    assert_eq!(results[0].file_path, "/src/lib.rs");
    assert_eq!(results[1].line_number, 3);
    assert_eq!(results[2].line_number, 3);
    assert_eq!(results[2].match_start, 14);
}

#[test]
fn search_is_case_insensitive_by_default() {
    let content = "NOTE one\nnote two\n";
    let results = search_in_content("f", content, "note", false).unwrap();
    assert_eq!(results.len(), 2);
    let strict = search_in_content("f", content, "note", true).unwrap();
    assert_eq!(strict.len(), 1);
    assert_eq!(strict[0].line_number, 2);
}

#[test]
fn invalid_pattern_is_reported() {
    let e = search_in_content("f", "anything", "[unclosed", false).unwrap_err();
    assert_eq!(e, "Invalid regex pattern");
}

#[test]
fn result_cap_truncates() {
    let content = "x\nx\nx\nx\n";
    let mut results = search_in_content("f", content, "x", false).unwrap();
    assert_eq!(results.len(), 4);
    apply_result_cap(&mut results, Some(2));
    assert_eq!(results.len(), 2);
    apply_result_cap(&mut results, None);
    assert_eq!(results.len(), 2);
}

fn entry(name: &str, is_directory: bool) -> FileInfo {
    FileInfo {
        name: name.to_string(),
        path: format!("/d/{name}"),
        is_directory,
        size: if is_directory { None } else { Some(1) },
        modified: None,
        file_type: None,
    }
}

#[test]
fn directory_contents_are_parted_and_sorted() {
    let listing = vec![
        entry("zeta.txt", false),
        entry("lib", true),
        entry("alpha.txt", false),
        entry("bin", true),
        entry("midway.txt", false),
    ];
    let r = assemble_directory_contents(listing);
    assert_eq!(r.total_files, 3);
    assert_eq!(r.total_directories, 2);
    let names: Vec<&str> = r.files.iter().map(|f| f.name.as_str()).collect();
    assert_eq!(names, ["alpha.txt", "midway.txt", "zeta.txt"]);
    let dirs: Vec<&str> = r.directories.iter().map(|f| f.name.as_str()).collect();
    assert_eq!(dirs, ["bin", "lib"]);
}

#[test]
fn binary_files_are_recognized() {
    assert!(is_binary_extension("exe"));
    assert!(is_binary_extension("PNG"));
    assert!(is_binary_extension("SqLiTe3"));
    assert!(!is_binary_extension("rs"));
    assert!(!is_binary_extension(""));
    assert!(contains_nul(&vec![104, 105, 0, 33]));
    assert!(!contains_nul(&vec![104, 105, 33]));
}

#[test]
fn terminal_denylist_blocks_destructive_commands() {
    assert!(command_blocked("rm -rf / --no-preserve-root"));
    assert!(command_blocked("MKFS.ext4 /dev/sda1"));
    assert!(command_blocked("dd if=/dev/zero of=/dev/sda"));
    assert!(!command_blocked("cargo build"));
    assert!(!command_blocked("rm -r ./target"));
}

#[test]
fn command_result_value_holds_all_four_fields() {
    let r = CommandResult {
        stdout: "out".to_string(),
        stderr: "err".to_string(),
        exit_code: 2,
        success: false,
    };
    assert_eq!(
        value_to_json(&command_result_value(&r)),
        "{\"stdout\":\"out\",\"stderr\":\"err\",\"exit_code\":2,\"success\":false}"
    );
}

#[test]
fn desktop_entries_yield_name_and_executable() {
    let content = "[Desktop Entry]\nName=Text Editor\nExec=/usr/bin/editor --new-window %U\nIcon=editor\n";
    let app = parse_desktop_entry(content).unwrap();
    assert_eq!(app.name, "Text Editor");
    assert_eq!(app.path, "/usr/bin/editor");
    assert!(app.icon.is_none());

    assert!(parse_desktop_entry("[Desktop Entry]\nExec=/usr/bin/editor\n").is_none());
    assert!(parse_desktop_entry("[Desktop Entry]\nName=Editor\n").is_none());
    assert!(parse_desktop_entry("[Desktop Entry]\nName=Editor\nExec=\n").is_none());
}

#[test]
fn process_listing_is_parsed_line_by_line() {
    let stdout = "USER PID %CPU %MEM VSZ RSS TTY STAT START TIME COMMAND\n\
                  root 1 0.0 0.1 16000 8000 ? Ss 10:00 0:01 /sbin/init\n\
                  me 4321 2.5 1.0 50000 20480 pts/0 S+ 10:05 0:00 vim notes.txt\n\
                  short line\n";
    let ps = parse_ps_output(stdout);
    assert_eq!(ps.len(), 2);
    assert_eq!(ps[0].pid, 1);
    assert_eq!(ps[0].name, "/sbin/init");
    assert_eq!(ps[0].memory_usage, Some(8000));
    assert_eq!(ps[0].cpu_usage.as_deref(), Some("0.0"));
    assert_eq!(ps[1].pid, 4321);
    assert_eq!(ps[1].name, "vim");
    assert_eq!(ps[1].memory_usage, Some(20480));
}

#[test]
fn capability_catalog_lists_the_six_actions() {
    let caps = get_capabilities();
    let names: Vec<&str> = caps.iter().map(|c| c.name.as_str()).collect();
    assert_eq!(
        names,
        ["list_directory", "read_file", "write_file", "search_files", "open_file",
            "change_directory"]
    );
    assert_eq!(caps[3].parameters.len(), 6);
    assert!(caps[3].parameters[0].required);
    assert!(!caps[3].parameters[1].required);
    match &caps[0].parameters[0].default_value {
        Some(ParamValue::Str(s)) => assert_eq!(s, "."),
        _ => panic!("list_directory's path must default to the current directory"),
    }
    match &caps[3].parameters[5].default_value {
        Some(ParamValue::Int(n)) => assert_eq!(*n, 100),
        _ => panic!("max_results must default to a number"),
    }
}

#[test]
fn context_window_keeps_the_last_ten_messages() {
    let mut ms = Vec::new();
    for k in 0..13 {
        ms.push(Message {
            id: format!("m{k}"),
            chat_id: "c".to_string(),
            content: format!("text {k}"),
            role: if k % 2 == 0 { MessageRole::User } else { MessageRole::Assistant },
            created_at: String::new(),
        });
    }
    let w = build_context_window(&ms);
    assert_eq!(w.len(), 10);
    assert_eq!(w[0].content, "text 3");
    assert_eq!(w[0].role, "assistant");
    assert_eq!(w[9].content, "text 12");
    assert_eq!(w[9].role, "user");

    let mut few = Vec::new();
    few.push(Message {
        id: "m".to_string(),
        chat_id: "c".to_string(),
        content: "only".to_string(),
        role: MessageRole::User,
        created_at: String::new(),
    });
    let short = build_context_window(&few);
    assert_eq!(short.len(), 1);
    assert_eq!(short[0].role, "user");
    assert_eq!(short[0].content, "only");
}
