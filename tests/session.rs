use portfolio_terminal::{
    get_boot_sequence, BootEntry, Catalog, LineContent, LineIds, OutputPart, Session, SubmitOutcome,
    TerminalLine,
};

fn text_of(line: &TerminalLine) -> String {
    let mut s = String::new();
    for part in &line.parts {
        match part {
            OutputPart::Text(t)
            | OutputPart::Bold(t)
            | OutputPart::Section(t)
            | OutputPart::Badge(t)
            | OutputPart::CmdName(t) => s.push_str(t),
            OutputPart::Link { text, .. } => s.push_str(text),
        }
    }
    s
}

fn booted() -> Session {
    let mut s = Session::portfolio(1_000);
    s.tick(10_000);
    assert!(s.input_enabled());
    s
}

fn submit(s: &mut Session, text: &str, now: u64) -> SubmitOutcome {
    s.set_input(text.to_string());
    s.submit(now)
}

fn ids_strictly_increase(lines: &[TerminalLine]) -> bool {
    lines.windows(2).all(|w| w[0].id < w[1].id)
}

#[test]
fn boot_delays_are_in_order() {
    let boot = get_boot_sequence();
    assert_eq!(boot.len(), 20);
    assert_eq!(boot[0].delay_ms, 100);
    assert_eq!(boot[19].delay_ms, 3200);
    assert!(boot.windows(2).all(|w| w[0].delay_ms <= w[1].delay_ms));
    assert!(boot[0].line.is_boot);
    assert_eq!(boot[0].line.prefix, "[    0.000]");
}

#[test]
fn boot_delivers_due_lines_in_order() {
    let mut s = Session::portfolio(0);
    assert!(s.history().is_empty());
    assert!(!s.tick(99));
    assert!(s.tick(600));
    assert_eq!(s.history().len(), 3);
    assert_eq!(text_of(&s.history()[2]), " Mounting portfolio filesystem... OK");
    assert!(!s.tick(600));
    assert!(s.tick(1_800));
    assert_eq!(s.history().len(), 8);
    assert!(ids_strictly_increase(s.history()));
}

#[test]
fn input_opens_only_after_last_boot_entry() {
    let mut s = Session::portfolio(0);
    s.tick(2_700);
    assert!(!s.input_enabled());
    s.tick(3_199);
    assert!(!s.input_enabled());
    assert_eq!(s.history().len(), 19);
    s.tick(3_200);
    assert!(s.input_enabled());
    assert_eq!(s.history().len(), 20);
}

#[test]
fn input_closed_during_boot_ignores_submission() {
    let mut s = Session::portfolio(0);
    s.tick(1_000);
    let before = s.history().len();
    assert_eq!(submit(&mut s, "help", 1_000), SubmitOutcome::Ignored);
    assert_eq!(s.history().len(), before);
    assert_eq!(s.current_input(), "help");
}

#[test]
fn empty_boot_opens_input_at_once() {
    let mut s = Session::new(0, Vec::<BootEntry>::new(), Catalog::portfolio());
    assert!(!s.input_enabled());
    s.tick(0);
    assert!(s.input_enabled());
}

#[test]
fn submission_appends_echo_and_reply() {
    let mut s = booted();
    let before = s.history().len();
    assert_eq!(submit(&mut s, "WhoAmI", 5_000), SubmitOutcome::Applied);
    let h = s.history();
    assert_eq!(h.len(), before + 2);
    let echo = &h[before];
    assert!(echo.is_command);
    assert_eq!(echo.prefix, "λ");
    assert_eq!(text_of(echo), " WhoAmI");
    assert_eq!(text_of(&h[before + 1]), "  vanguard");
    assert_eq!(s.current_input(), "");
}

#[test]
fn clear_leaves_one_line() {
    let mut s = booted();
    submit(&mut s, "help", 5_000);
    let highest = s.history().iter().map(|l| l.id).max().unwrap();
    assert_eq!(submit(&mut s, "clear", 6_000), SubmitOutcome::Applied);
    let h = s.history();
    assert_eq!(h.len(), 1);
    assert_eq!(h[0].prefix, "[ok]");
    assert_eq!(text_of(&h[0]), " cleared.");
    assert!(h[0].id > highest);
}

#[test]
fn ids_increase_across_commands() {
    let mut s = booted();
    let mut seen: Vec<u64> = s.history().iter().map(|l| l.id).collect();
    for cmd in ["help", "pinn", "xyzxyz123", "neofetch", "ping", "clear", "about", "clear", "ls"] {
        let last = *seen.iter().max().unwrap();
        let before: Vec<u64> = s.history().iter().map(|l| l.id).collect();
        submit(&mut s, cmd, 9_000);
        for line in s.history() {
            if !before.contains(&line.id) {
                assert!(line.id > last);
            }
        }
        assert!(ids_strictly_increase(s.history()));
        seen.extend(s.history().iter().map(|l| l.id));
    }
}

#[test]
fn repeated_submission_is_not_merged() {
    let mut s = booted();
    let before = s.history().len();
    submit(&mut s, "whoami", 5_000);
    submit(&mut s, "whoami", 5_001);
    let h = s.history();
    assert_eq!(h.len(), before + 4);
    assert_eq!(text_of(&h[before]), " whoami");
    assert_eq!(text_of(&h[before + 2]), " whoami");
    assert!(h[before].id < h[before + 2].id);
}

#[test]
fn empty_draft_is_ignored() {
    let mut s = booted();
    let before = s.history().len();
    assert_eq!(submit(&mut s, "", 5_000), SubmitOutcome::Ignored);
    assert_eq!(s.history().len(), before);
}

#[test]
fn whitespace_draft_echoes_without_reply() {
    let mut s = booted();
    let before = s.history().len();
    assert_eq!(submit(&mut s, "   ", 5_000), SubmitOutcome::Applied);
    assert_eq!(s.history().len(), before + 1);
    assert_eq!(text_of(&s.history()[before]), "    ");
}

#[test]
fn ping_probe_round_trip() {
    let mut s = booted();
    assert_eq!(submit(&mut s, "ping", 5_000), SubmitOutcome::ProbeRequested);
    assert_eq!(text_of(s.history().last().unwrap()), "  pinging...");
    submit(&mut s, "whoami", 5_010);
    assert!(s.finish_probe(Some(37)));
    assert_eq!(text_of(s.history().last().unwrap()), "  pong. 37ms");
    assert!(s.finish_probe(None));
    assert_eq!(text_of(s.history().last().unwrap()), "  ping failed: no response");
    assert!(ids_strictly_increase(s.history()));
}

#[test]
fn neofetch_uptime_from_session_start() {
    let mut s = booted();
    submit(&mut s, "neofetch", 1_000 + 61_500);
    let h = s.history();
    assert_eq!(text_of(&h[h.len() - 2]), "                   uptime: 1m 1s");
}

#[test]
fn closed_session_writes_nothing() {
    let mut s = Session::portfolio(0);
    s.tick(500);
    let before = s.history().len();
    s.close();
    assert!(!s.is_alive());
    assert!(!s.tick(10_000));
    assert!(!s.finish_probe(Some(5)));
    assert_eq!(s.history().len(), before);
    assert!(!s.input_enabled());
}

#[test]
fn line_ids_are_consecutive() {
    let mut ids = LineIds::new();
    assert_eq!(ids.room(), u64::MAX);
    let first = TerminalLine::stamp(&mut ids, &LineContent::text("", "a", false));
    let second = TerminalLine::echo(&mut ids, "b");
    let rest = TerminalLine::stamp_all(
        &mut ids,
        &vec![LineContent::bold("", "c"), LineContent::section("", "d")],
    );
    assert_eq!(first.id, 0);
    assert_eq!(second.id, 1);
    assert_eq!(rest[0].id, 2);
    assert_eq!(rest[1].id, 3);
    assert_eq!(ids.room(), u64::MAX - 4);
    assert_eq!(rest[0].parts, vec![OutputPart::Bold("c".to_string())]);
}

#[test]
fn boot_transcript_content() {
    let boot = get_boot_sequence();
    let boot_lines: Vec<&LineContent> = boot.iter().filter(|e| e.line.is_boot).map(|e| &e.line).collect();
    assert_eq!(boot_lines.len(), 6);
    assert!(boot.iter().all(|e| e.line.is_boot == !e.line.prefix.is_empty()));
    assert_eq!(boot_lines[5].prefix, "[OK]");
    let summary: Vec<String> = boot
        .iter()
        .filter_map(|e| match e.line.parts.first() {
            Some(OutputPart::Bold(s)) => Some(s.trim().to_string()),
            _ => None,
        })
        .collect();
    assert_eq!(summary, vec!["projects", "skills", "about", "contact", "clear", "help"]);
    for key in &summary {
        assert!(portfolio_terminal::lookup(key).is_some());
    }
}

#[test]
fn cls_also_clears() {
    let mut s = booted();
    assert_eq!(submit(&mut s, "  CLS ", 5_000), SubmitOutcome::Applied);
    assert_eq!(s.history().len(), 1);
    assert_eq!(text_of(&s.history()[0]), " cleared.");
}

#[test]
fn equal_content_gets_distinct_ids() {
    let mut ids = LineIds::new();
    let _ = TerminalLine::stamp_all(&mut ids, &vec![LineContent::text("", "x", false); 5]);
    let a = TerminalLine::stamp(&mut ids, &LineContent::text("p", "same", false));
    let b = TerminalLine::stamp(&mut ids, &LineContent::text("p", "same", false));
    assert_eq!(a.id, 5);
    assert!(a.id < b.id);
    assert_eq!((a.prefix.clone(), a.parts.clone()), (b.prefix.clone(), b.parts.clone()));
}
