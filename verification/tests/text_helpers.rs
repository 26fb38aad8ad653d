//! Paths, editor commands and the small text helpers.

use sshub::app::editor_command::{
    local_editor_argv, local_editor_command, parse_editor_command, EditorCommandError,
};
use sshub::app::util::{
    append_host_notice, copy_secret_notice, optional_field, optional_path, os_icon_from_index,
    os_icon_index_from_option, os_icon_option, parse_tags, tab_from_x, theme_startup_notice,
    ThemeDiagnostic, OS_ICON_COUNT,
};
use sshub::paths::{
    contract_home, contract_prefix, directory_above, file_name, join, lies_in, path_eq, path_steps,
    shellexpand_home, themes_dir,
};

#[test]
fn parses_editor_arguments_and_quotes() {
    assert_eq!(
        parse_editor_command("code --wait 'profile one'").unwrap(),
        vec!["code", "--wait", "profile one"]
    );
}

#[test]
fn keeps_the_file_path_as_one_argument() {
    let argv = local_editor_argv("nvim -f", "/tmp/a file.toml").unwrap();
    assert_eq!(argv, vec!["nvim", "-f", "/tmp/a file.toml"]);
}

#[test]
fn rejects_unfinished_editor_quotes() {
    assert!(parse_editor_command("nvim '").is_err());
}

#[test]
fn contract_prefix_collapses_only_paths_under_that_home() {
    let home = "/home/someone";
    assert_eq!(contract_prefix(home, home), "~");
    assert_eq!(contract_prefix(&join(home, "work/notes.md"), home), "~/work/notes.md");
    // Sharing a prefix is not being under it.
    let sibling = "/home/someone-else/x";
    assert_eq!(contract_prefix(sibling, home), "/home/someone-else/x");
    // Anything outside home is left alone, remote-looking paths included.
    assert_eq!(contract_prefix("/srv/www", home), "/srv/www");
}

#[test]
fn editor_commands_follow_their_quotes() {
    assert_eq!(
        parse_editor_command(r#"emacs "a \"b\" c" d\ e ''"#).unwrap(),
        vec!["emacs", "a \"b\" c", "d e", ""]
    );
    assert_eq!(parse_editor_command("   \t "), Err(EditorCommandError::Empty));
    assert_eq!(parse_editor_command("vi \\"), Err(EditorCommandError::Unfinished));
    assert_eq!(parse_editor_command("vi \"a"), Err(EditorCommandError::Unfinished));
    assert_eq!(EditorCommandError::Empty.message(), "editor command is empty");
    assert_eq!(
        EditorCommandError::Unfinished.message(),
        "editor command has an unfinished quote or escape"
    );
}

#[test]
fn the_editor_comes_from_the_first_variable_that_names_one() {
    let named = |s: &str| Some(s.to_string());
    assert_eq!(local_editor_command(named("code"), named("nano")), "code");
    assert_eq!(local_editor_command(named("  "), named("nano")), "nano");
    assert_eq!(local_editor_command(None, None), "nano");
}

#[test]
fn home_is_expanded_and_contracted() {
    let home = Some("/home/me");
    assert_eq!(shellexpand_home("~", home), "/home/me");
    assert_eq!(shellexpand_home("~/a/b", home), "/home/me/a/b");
    assert_eq!(shellexpand_home("~you/a", home), "~you/a");
    assert_eq!(shellexpand_home("~/a", None), "~/a");
    assert_eq!(contract_home("/home/me/a/b/", home), "~/a/b");
    assert_eq!(contract_home("/home/me/", home), "~");
    assert_eq!(contract_home("/home/me/a", Some("")), "/home/me/a");
    assert_eq!(contract_home("/home/me/a", None), "/home/me/a");
    for path in ["/home/me/x", "/home//me/./x/y", "/home/me", "/srv/www"] {
        let back = shellexpand_home(&contract_home(path, home), home);
        assert!(path_eq(&back, path), "{path} came back as {back}");
    }
}

#[test]
fn paths_are_walked_step_by_step() {
    assert_eq!(path_steps("/a//b/./c/"), vec!["/", "a", "b", "c"]);
    assert_eq!(path_steps("./a"), vec![".", "a"]);
    assert_eq!(join("/srv", "a"), "/srv/a");
    assert_eq!(join("/", "a"), "/a");
    assert_eq!(join("/srv", "/etc"), "/etc");
    assert_eq!(file_name("/srv/a.txt"), Some("a.txt".to_string()));
    assert_eq!(file_name("/srv/.."), None);
    assert_eq!(file_name("/"), None);
    assert!(lies_in("/srv", "/srv/a"));
    assert!(!lies_in("/srv", "/srv/a/b"));
    assert_eq!(directory_above("/srv/a"), Some("/srv".to_string()));
    assert_eq!(directory_above("/"), None);
}

#[test]
fn fields_are_trimmed_and_blank_ones_dropped() {
    assert_eq!(optional_field("  a b "), Some("a b".to_string()));
    assert_eq!(optional_field(" \t"), None);
    assert_eq!(optional_path(" /x "), Some("/x".to_string()));
    assert_eq!(parse_tags(" web, , prod ,db"), vec!["web", "prod", "db"]);
    assert!(parse_tags("").is_empty());
}

#[test]
fn icons_are_found_by_name_and_by_position() {
    assert_eq!(os_icon_from_index(0), None);
    assert_eq!(os_icon_from_index(OS_ICON_COUNT), None);
    for i in 1..OS_ICON_COUNT {
        let icon = os_icon_from_index(i);
        assert_eq!(icon.as_deref(), Some(os_icon_option(i)));
        assert_eq!(os_icon_index_from_option(&icon), i);
    }
    assert_eq!(os_icon_index_from_option(&Some("plan9".to_string())), 0);
    assert_eq!(os_icon_index_from_option(&None), 0);
}

#[test]
fn copy_notices_name_the_kind_of_secret_only() {
    assert_eq!(copy_secret_notice("", "password", Ok(())), "no password stored for this entry");
    assert_eq!(
        copy_secret_notice("hunter2", "passphrase", Ok(())),
        "passphrase copied to the clipboard"
    );
    assert_eq!(
        copy_secret_notice("hunter2", "password", Err("broken pipe".into())),
        "could not copy the password: broken pipe"
    );
}

#[test]
fn tabs_are_hit_by_column() {
    assert_eq!(tab_from_x(0), None);
    assert_eq!(tab_from_x(1), Some(0));
    assert_eq!(tab_from_x(12), Some(0));
    assert_eq!(tab_from_x(13), Some(1));
    assert_eq!(tab_from_x(24), Some(2));
    assert_eq!(tab_from_x(38), Some(3));
    assert_eq!(tab_from_x(66), Some(4));
    assert_eq!(tab_from_x(67), None);
}

#[test]
fn notices_are_appended_once() {
    let mut notice = None;
    append_host_notice(&mut notice, "one".into());
    append_host_notice(&mut notice, "two".into());
    append_host_notice(&mut notice, "two".into());
    assert_eq!(notice.as_deref(), Some("one | two"));
    let mut notice = Some(String::new());
    append_host_notice(&mut notice, "one".into());
    assert_eq!(notice.as_deref(), Some("one"));
}

#[test]
fn theme_problems_are_summed_up() {
    let diagnostic = |is_error: bool, message: &str| ThemeDiagnostic {
        is_error,
        message: message.to_string(),
    };
    assert_eq!(theme_startup_notice(&vec![], None), None);
    assert_eq!(
        theme_startup_notice(&vec![diagnostic(false, "odd"), diagnostic(true, "bad")], None),
        Some("Theme: bad (+1 more)".to_string())
    );
    assert_eq!(
        theme_startup_notice(&vec![], Some("unreadable")),
        Some("Theme: unreadable".to_string())
    );
}

#[test]
fn a_quote_in_single_quotes_is_closed_escaped_and_opened_again() {
    assert_eq!(
        parse_editor_command("'my '\\''own'\\'' editor' 'a \\ \"b\"' ''").unwrap(),
        vec!["my 'own' editor", "a \\ \"b\"", ""]
    );
}

#[test]
fn themes_lie_beside_the_configuration() {
    assert_eq!(themes_dir("/data/work/config.toml").as_deref(), Ok("/data/work/themes"));
    assert_eq!(themes_dir("/config.toml").as_deref(), Ok("/themes"));
    assert_eq!(themes_dir("config.toml").as_deref(), Ok("themes"));
    assert_eq!(themes_dir("a/./b/").as_deref(), Ok("a/themes"));
    for path in ["", "/", "//"] {
        assert_eq!(themes_dir(path), Err("profile config path has no parent".to_string()));
        assert!(std::path::Path::new(path).parent().is_none());
    }
}
