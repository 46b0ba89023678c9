use clap::{Arg, Command};
use tofa::docs::{help_block_of, render_help_block, replace_block, scaffold_page, HelpArg};

#[test]
fn replace_block_swaps_inner_content() {
    let before = "# tofa add\n\nIntent.\n\n<!-- BEGIN auto:help -->\nold\n<!-- END auto:help -->\n\n## Examples\n\nstuff\n";
    let new = "NEW BLOCK";
    let after = replace_block(before, new);
    assert!(after.contains("Intent."));
    assert!(after.contains("## Examples"));
    assert!(after.contains("stuff"));
    assert!(after.contains("<!-- BEGIN auto:help -->\nNEW BLOCK\n<!-- END auto:help -->"));
    assert!(!after.contains("\nold\n"));
}

#[test]
fn replace_block_inserts_after_h1_when_markers_absent() {
    let before = "# tofa add\n\nSome prose.\n";
    let after = replace_block(before, "INNER");
    assert!(after.contains("# tofa add"));
    assert!(after.contains("<!-- BEGIN auto:help -->"));
    assert!(after.contains("INNER"));
    assert!(after.contains("<!-- END auto:help -->"));
    assert!(after.contains("Some prose."));
}

#[test]
fn replace_block_anchors_end_search_after_begin() {
    // A literal mention of the END marker in prose appears before the real block.
    let before = "# tofa add\n\n<!-- END auto:help --> (mentioned in prose)\n\n<!-- BEGIN auto:help -->\nold\n<!-- END auto:help -->\n\nTrailing.\n";
    let after = replace_block(before, "NEW");
    assert!(after.contains("<!-- BEGIN auto:help -->\nNEW\n<!-- END auto:help -->"));
    assert!(after.contains("(mentioned in prose)"));
    assert!(after.contains("Trailing."));
    assert!(!after.contains("\nold\n"));
}

#[test]
fn replace_block_exact_output_with_markers() {
    let before = "# t\n<!-- BEGIN auto:help -->\nold\n<!-- END auto:help -->\ntail\n";
    assert_eq!(
        replace_block(before, "X"),
        "# t\n<!-- BEGIN auto:help -->\nX\n<!-- END auto:help -->\ntail\n"
    );
}

#[test]
fn replace_block_exact_output_after_heading() {
    assert_eq!(
        replace_block("intro\r\n# Title\nbody", "I"),
        "intro\n# Title\n\n<!-- BEGIN auto:help -->\nI\n<!-- END auto:help -->\nbody\n"
    );
}

#[test]
fn replace_block_appends_when_no_heading() {
    assert_eq!(
        replace_block("plain\n", "I"),
        "plain\n\n<!-- BEGIN auto:help -->\nI\n<!-- END auto:help -->\n"
    );
    assert_eq!(
        replace_block("", "I"),
        "\n<!-- BEGIN auto:help -->\nI\n<!-- END auto:help -->\n"
    );
}

#[test]
fn replace_block_begin_without_end_falls_back_to_insertion() {
    let out = replace_block("# h\n<!-- BEGIN auto:help -->\n", "I");
    assert_eq!(
        out,
        "# h\n\n<!-- BEGIN auto:help -->\nI\n<!-- END auto:help -->\n<!-- BEGIN auto:help -->\n"
    );
}

#[test]
fn regenerating_replaces_previous_block() {
    let page = "# tofa add\n\n<!-- BEGIN auto:help -->\nold\n<!-- END auto:help -->\n\nmore\n";
    let once = replace_block(page, "first");
    let twice = replace_block(&once, "second");
    assert_eq!(twice, replace_block(page, "second"));
    assert_eq!(replace_block(&once, "first"), once);
}


#[test]
fn synopsis_for_command_with_no_args() {
    let cmd = Command::new("rekey");
    let out = render_help_block(&cmd);
    assert!(out.contains("**Synopsis**"));
    assert!(out.contains("tofa rekey"));
    assert!(!out.contains("[FLAGS]"));
}

#[test]
fn flags_table_lists_each_long_arg() {
    let cmd = Command::new("add")
        .arg(
            Arg::new("name")
                .long("name")
                .value_name("NAME")
                .help("Account name"),
        )
        .arg(
            Arg::new("secret")
                .long("secret")
                .value_name("BASE32")
                .help("TOTP secret"),
        );
    let out = render_help_block(&cmd);
    assert!(out.contains("**Flags**"));
    assert!(out.contains("| `--name <NAME>` | Account name |"));
    assert!(out.contains("| `--secret <BASE32>` | TOTP secret |"));
    assert!(out.contains("tofa add [FLAGS]"));
}

#[test]
fn global_args_are_excluded_from_flags_table() {
    let cmd = Command::new("list").arg(
        Arg::new("vault")
            .long("vault")
            .global(true)
            .help("Vault path"),
    );
    let out = render_help_block(&cmd);
    assert!(!out.contains("--vault"));
    assert!(!out.contains("**Flags**"));
}

#[test]
fn help_block_exact_text() {
    let out = render_help_block(&Command::new("rekey"));
    assert_eq!(out, "**Synopsis**\n\n```\ntofa rekey\n```\n");
    let cmd = Command::new("list")
        .arg(Arg::new("codes").long("codes").num_args(0).help("Also display current codes"))
        .arg(Arg::new("id"));
    assert_eq!(
        render_help_block(&cmd),
        "**Synopsis**\n\n```\ntofa list [FLAGS]\n```\n\n**Flags**\n\n| Flag | Description |\n|---|---|\n| `--codes` | Also display current codes |\n"
    );
}

#[test]
fn help_block_from_plain_arguments() {
    let args = vec![
        HelpArg { long: Some("out".to_string()), global: false, value_name: Some("PATH".to_string()), help: None },
        HelpArg { long: None, global: false, value_name: Some("FILE".to_string()), help: Some("positional".to_string()) },
        HelpArg { long: Some("vault".to_string()), global: true, value_name: None, help: Some("Vault".to_string()) },
    ];
    assert_eq!(
        help_block_of("export", &args),
        "**Synopsis**\n\n```\ntofa export [FLAGS]\n```\n\n**Flags**\n\n| Flag | Description |\n|---|---|\n| `--out <PATH>` |  |\n"
    );
}

#[test]
fn scaffolded_page_holds_title_and_block() {
    let page = scaffold_page("add", "BLOCK");
    assert_eq!(page, "# tofa add\n\n<!-- BEGIN auto:help -->\nBLOCK\n<!-- END auto:help -->\n");
    assert_eq!(replace_block(&page, "BLOCK"), page);
}

#[test]
fn first_generation_can_be_redone() {
    let page = "# tofa add\n\nSome prose.\n";
    let once = replace_block(page, "X");
    assert_eq!(replace_block(&once, "Y"), replace_block(page, "Y"));
    assert_eq!(replace_block(&once, "X"), once);
    let bare = "no heading here";
    let once = replace_block(bare, "X");
    assert_eq!(replace_block(&once, "Y"), replace_block(bare, "Y"));
}
