use chitchat_core::snapshot::parse_ps_output;
use chitchat_core::snapshot::parse_tasklist_output;

#[test]
fn tasklist_lines_yield_the_first_csv_field_lower_cased() {
    let text = "\"HaloInfinite.exe\",\"1234\",\"Console\",\"1\",\"100 K\"\r\n\
                \"SVCHOST.EXE\",\"99\",\"Services\",\"0\",\"10 K\"\r\n";
    assert_eq!(
        parse_tasklist_output(text),
        vec!["haloinfinite.exe".to_string(), "svchost.exe".to_string()]
    );
}

#[test]
fn tasklist_blank_lines_are_skipped() {
    let text = "\r\n\"Explorer.EXE\",\"1\"\r\n\r\n   \r\n\"cs2.exe\",\"2\"\r\n";
    assert_eq!(parse_tasklist_output(text), vec!["explorer.exe".to_string(), "cs2.exe".to_string()]);
}

#[test]
fn tasklist_unquoted_line_is_taken_whole() {
    let text = "plain line without quotes\n";
    assert_eq!(parse_tasklist_output(text), vec!["plain line without quotes".to_string()]);
}

#[test]
fn tasklist_without_trailing_newline_still_parses() {
    let text = "\"Wow.exe\",\"7\"";
    assert_eq!(parse_tasklist_output(text), vec!["wow.exe".to_string()]);
}

#[test]
fn tasklist_empty_text_yields_empty_snapshot() {
    assert_eq!(parse_tasklist_output(""), Vec::<String>::new());
}

#[test]
fn ps_lines_are_trimmed_lower_cased_and_filtered() {
    let text = " Steam \n\n   \nbash\nCS2.exe\n";
    assert_eq!(
        parse_ps_output(text),
        vec!["steam".to_string(), "bash".to_string(), "cs2.exe".to_string()]
    );
}

#[test]
fn ps_empty_text_yields_empty_snapshot() {
    assert_eq!(parse_ps_output(""), Vec::<String>::new());
}
