use link_config::query::{interpret_tool_output, parse_tool_stdout, tokenize, ToolOutput};
use link_config::state::QueryError;

#[test]
fn tokenize_splits_on_spaces() {
    let toks = tokenize("-lfoo  -L/opt/lib bar ");
    assert_eq!(toks, vec!["-lfoo".to_string(), "-L/opt/lib".to_string(), "bar".to_string()]);
}

#[test]
fn tokenize_splits_on_any_whitespace() {
    let toks = tokenize("-la\n-lb\t-lc\r-ld");
    assert_eq!(
        toks,
        vec!["-la".to_string(), "-lb".to_string(), "-lc".to_string(), "-ld".to_string()],
    );
}

#[test]
fn tokenize_empty_and_blank() {
    assert!(tokenize("").is_empty());
    assert!(tokenize("   ").is_empty());
    assert!(tokenize(" \n\t\r").is_empty());
}

#[test]
fn trailing_newline_stays_out_of_the_last_token() {
    let (libs, locs) = parse_tool_stdout("-L/a -lfoo\n");
    assert_eq!(libs, vec!["foo".to_string()]);
    assert_eq!(locs, vec!["/a".to_string()]);
}

#[test]
fn stdout_parsing_collects_flags_in_order() {
    let (libs, locs) = parse_tool_stdout("-L/a -lfoo -pthread -lbar -L/b junk");
    assert_eq!(libs, vec!["foo".to_string(), "bar".to_string()]);
    assert_eq!(locs, vec!["/a".to_string(), "/b".to_string()]);
}

#[test]
fn stdout_parsing_keeps_duplicate_locations() {
    let (libs, locs) = parse_tool_stdout("-L/a -L/a -lx");
    assert_eq!(libs, vec!["x".to_string()]);
    assert_eq!(locs, vec!["/a".to_string(), "/a".to_string()]);
}

#[test]
fn stdout_parsing_of_empty_output() {
    let (libs, locs) = parse_tool_stdout("");
    assert!(libs.is_empty());
    assert!(locs.is_empty());
}

#[test]
fn bare_markers_give_empty_names() {
    let (libs, locs) = parse_tool_stdout("-l -L");
    assert_eq!(libs, vec!["".to_string()]);
    assert_eq!(locs, vec!["".to_string()]);
}

#[test]
fn successful_run_is_parsed() {
    let out = ToolOutput {
        success: true,
        status: 0,
        stdout: "-lz -L/usr/lib".to_string(),
        stderr: String::new(),
    };
    let (libs, locs) = interpret_tool_output(out).unwrap();
    assert_eq!(libs, vec!["z".to_string()]);
    assert_eq!(locs, vec!["/usr/lib".to_string()]);
}

#[test]
fn failed_run_carries_both_streams_verbatim() {
    let out = ToolOutput {
        success: false,
        status: 1,
        stdout: "partial -lz".to_string(),
        stderr: "Package foo was not found".to_string(),
    };
    match interpret_tool_output(out) {
        Ok(_) => panic!("a non-zero exit must not produce a library list"),
        Err(QueryError::ToolExit { status, stdout, stderr }) => {
            assert_eq!(status, 1);
            assert_eq!(stdout, "partial -lz".to_string());
            assert_eq!(stderr, "Package foo was not found".to_string());
        }
        Err(QueryError::ToolLaunch { .. }) => panic!("wrong error kind"),
    }
}
