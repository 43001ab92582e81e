use portfolio_terminal::{
    closest_command, guessable_commands, interpret, lookup, normalize, probe_line, push_decimal,
    respond, Catalog, Command, LineContent, OutputPart,
};

fn text_of(line: &LineContent) -> String {
    let mut s = String::new();
    for part in &line.parts {
        match part {
            OutputPart::Text(t)
            | OutputPart::Bold(t)
            | OutputPart::Section(t)
            | OutputPart::Badge(t)
            | OutputPart::CmdName(t) => s.push_str(t),
            OutputPart::Link { text, .. } => s.push_str(text),
        }
    }
    s
}

fn texts(lines: &[LineContent]) -> Vec<String> {
    lines.iter().map(text_of).collect()
}

#[test]
fn near_miss_suggests_ping() {
    let catalog = Catalog::portfolio();
    let reply = interpret(&catalog, "pinn", 0);
    assert_eq!(
        texts(&reply.lines),
        vec![
            "  command not found: pinn".to_string(),
            "  did you mean 'ping'? (dist: 1)".to_string(),
            "  type 'help' for commands".to_string(),
        ]
    );
    assert!(!reply.reset);
    assert!(!reply.probe);
}

#[test]
fn far_input_gets_no_suggestion() {
    let catalog = Catalog::portfolio();
    let reply = interpret(&catalog, "xyzxyz123", 0);
    assert_eq!(
        texts(&reply.lines),
        vec!["  command not found: xyzxyz123".to_string(), "  type 'help' for commands".to_string()]
    );
}

#[test]
fn suggestion_at_distance_two() {
    let catalog = Catalog::portfolio();
    let reply = interpret(&catalog, "projetcs", 0);
    assert_eq!(texts(&reply.lines)[1], "  did you mean 'projects'? (dist: 2)");
}

#[test]
fn tie_goes_to_first_key_in_table_order() {
    assert_eq!(closest_command("el"), (3, 2));
    assert_eq!(guessable_commands()[3], "help");
    let catalog = Catalog::portfolio();
    let reply = interpret(&catalog, "el", 0);
    assert_eq!(texts(&reply.lines)[1], "  did you mean 'help'? (dist: 2)");
}

#[test]
fn not_found_echoes_raw_casing() {
    let catalog = Catalog::portfolio();
    let reply = interpret(&catalog, "PINN", 0);
    assert_eq!(texts(&reply.lines)[0], "  command not found: PINN");
    assert_eq!(texts(&reply.lines)[1], "  did you mean 'ping'? (dist: 1)");
}

#[test]
fn help_aliases_answer_alike() {
    let catalog = Catalog::portfolio();
    let a = texts(&interpret(&catalog, "help", 0).lines);
    let b = texts(&interpret(&catalog, "h", 0).lines);
    let c = texts(&interpret(&catalog, "?", 0).lines);
    assert_eq!(a, b);
    assert_eq!(b, c);
    assert_eq!(a.len(), 12);
    assert_eq!(a, texts(&catalog.help));
}

#[test]
fn lookup_recognizes_aliases() {
    assert_eq!(lookup("help"), Some(Command::Help));
    assert_eq!(lookup("?"), Some(Command::Help));
    assert_eq!(lookup("ls projects"), Some(Command::Projects));
    assert_eq!(lookup("ls"), Some(Command::Listing));
    assert_eq!(lookup("cls"), Some(Command::Clear));
    assert_eq!(lookup("🦀"), Some(Command::Crab));
    assert_eq!(lookup("rm -rf /"), Some(Command::Remove));
    assert_eq!(lookup(""), Some(Command::Blank));
    assert_eq!(lookup("Help"), None);
}

#[test]
fn input_is_lowercased_and_trimmed() {
    assert_eq!(normalize("  HeLP \t"), "help");
    assert_eq!(normalize("SUDO Hire Me"), "sudo hire me");
    assert_eq!(normalize(""), "");
    let catalog = Catalog::portfolio();
    let reply = interpret(&catalog, "  WhoAmI ", 0);
    assert_eq!(texts(&reply.lines), vec!["  vanguard".to_string()]);
}

#[test]
fn clear_asks_for_reset() {
    let catalog = Catalog::portfolio();
    let reply = interpret(&catalog, "clear", 0);
    assert!(reply.reset);
    assert_eq!(reply.lines.len(), 1);
    assert_eq!(reply.lines[0].prefix, "[ok]");
    assert_eq!(text_of(&reply.lines[0]), " cleared.");
    assert!(reply.lines[0].is_boot);
    assert!(interpret(&catalog, "CLS", 0).reset);
}

#[test]
fn ping_asks_for_probe() {
    let catalog = Catalog::portfolio();
    let reply = interpret(&catalog, "ping", 0);
    assert!(reply.probe);
    assert!(!reply.reset);
    assert_eq!(texts(&reply.lines), vec!["  pinging...".to_string()]);
}

#[test]
fn blank_key_has_no_reply() {
    let catalog = Catalog::portfolio();
    let reply = interpret(&catalog, "   ", 0);
    assert!(reply.lines.is_empty());
    assert!(!reply.reset && !reply.probe);
}

#[test]
fn neofetch_reports_uptime() {
    let catalog = Catalog::portfolio();
    let reply = respond(&catalog, "neofetch", "neofetch", 125_000);
    assert_eq!(reply.lines.len(), 7);
    assert_eq!(text_of(&reply.lines[5]), "                   uptime: 2m 5s");
    assert_eq!(text_of(&reply.lines[6]), "");
    let fresh = respond(&catalog, "neofetch", "neofetch", 999);
    assert_eq!(text_of(&fresh.lines[5]), "                   uptime: 0m 0s");
}

#[test]
fn probe_result_lines() {
    assert_eq!(text_of(&probe_line(Some(42))), "  pong. 42ms");
    assert_eq!(text_of(&probe_line(Some(0))), "  pong. 0ms");
    assert_eq!(text_of(&probe_line(None)), "  ping failed: no response");
}

#[test]
fn decimal_rendering() {
    let mut s = String::from("n=");
    push_decimal(&mut s, 0);
    assert_eq!(s, "n=0");
    let mut t = String::new();
    push_decimal(&mut t, 1_234_567_890);
    assert_eq!(t, "1234567890");
    let mut u = String::new();
    push_decimal(&mut u, u64::MAX);
    assert_eq!(u, u64::MAX.to_string());
}

#[test]
fn content_blocks_come_verbatim() {
    let catalog = Catalog::portfolio();
    let projects = interpret(&catalog, "repos", 0);
    assert_eq!(texts(&projects.lines), texts(&catalog.projects));
    assert_eq!(projects.lines.len(), 84);
    let skills = interpret(&catalog, "stack", 0);
    assert_eq!(skills.lines.len(), 25);
    assert_eq!(
        skills.lines[2].parts,
        vec![
            OutputPart::Badge("WASI 0.2".to_string()),
            OutputPart::Badge("Component Model".to_string()),
            OutputPart::Badge("Wasmtime".to_string()),
            OutputPart::Badge("Leptos".to_string()),
        ]
    );
    let contact = interpret(&catalog, "email", 0);
    assert_eq!(contact.lines.len(), 4);
    assert_eq!(
        contact.lines[1].parts,
        vec![
            OutputPart::Text("  Email   ".to_string()),
            OutputPart::Link {
                text: "cm.mongo.web3@gmail.com".to_string(),
                url: "mailto:cm.mongo.web3@gmail.com".to_string(),
            },
        ]
    );
}

#[test]
fn swapped_block_is_printed() {
    let mut catalog = Catalog::portfolio();
    catalog.date = vec![LineContent::text("", "  today", false)];
    let reply = interpret(&catalog, "date", 0);
    assert_eq!(texts(&reply.lines), vec!["  today".to_string()]);
}

#[test]
fn link_line_skips_empty_text() {
    let line = LineContent::with_link(" ", "", "Docs", "https://example.org", "");
    assert_eq!(
        line.parts,
        vec![OutputPart::Link { text: "Docs".to_string(), url: "https://example.org".to_string() }]
    );
    let full = LineContent::with_link("", "see ", "Docs", "u", " now");
    assert_eq!(full.parts.len(), 3);
    let entry = LineContent::help_entry("  ", "ls", "list");
    assert_eq!(
        entry.parts,
        vec![OutputPart::CmdName("ls".to_string()), OutputPart::Text("list".to_string())]
    );
}
