//! The command interpreter: from submitted text to the lines that answer it.

use vstd::prelude::*;
use crate::catalog::{blank, out, Catalog};
use crate::commands::{
    closest_command, closest_distance, closest_index, command_for, guessable, lookup, Command,
};
use crate::line::{contents_view, extend_contents, plain, ContentView, LineContent};
use crate::text::{decimal, normalize, normalized, push_decimal};

verus! {

/// What the interpreter makes of one submission. `reset` asks the caller to
/// replace the whole history with `lines`; `probe` asks it to start a
/// latency probe, whose result comes later.
pub struct Reply {
    pub lines: Vec<LineContent>,
    pub reset: bool,
    pub probe: bool,
}

pub open spec fn not_found_text(raw: Seq<char>) -> Seq<char> {
    "  command not found: "@ + raw
}

pub open spec fn suggestion_text(guess: Seq<char>, d: nat) -> Seq<char> {
    "  did you mean '"@ + guess + "'? (dist: "@ + decimal(d) + ")"@
}

pub open spec fn hint_text() -> Seq<char> {
    "  type 'help' for commands"@
}

/// The reply to a key that is not in the command table: a suggestion comes
/// only when the closest guessable key is at most two edits away.
pub open spec fn unknown_reply(key: Seq<char>, raw: Seq<char>) -> Seq<ContentView> {
    let e = Seq::<char>::empty();
    if closest_distance(key) <= 2 {
        seq![
            plain(e, not_found_text(raw), false),
            plain(e, suggestion_text(guessable()[closest_index(key)], closest_distance(key)), false),
            plain(e, hint_text(), false),
        ]
    } else {
        seq![plain(e, not_found_text(raw), false), plain(e, hint_text(), false)]
    }
}

pub open spec fn uptime_text(ms: nat) -> Seq<char> {
    "                   uptime: "@ + decimal(ms / 60000) + "m "@ + decimal((ms % 60000) / 1000)
        + "s"@
}

/// The line that replaces the history on a reset.
pub open spec fn cleared_line() -> ContentView {
    plain("[ok]"@, " cleared."@, true)
}

pub open spec fn pinging_line() -> ContentView {
    plain(Seq::empty(), "  pinging..."@, false)
}

/// The lines that answer the key `key` (typed as `raw`) after `uptime_ms`
/// milliseconds of session.
pub open spec fn reply_for(cat: Catalog, key: Seq<char>, raw: Seq<char>, uptime_ms: nat) -> Seq<
    ContentView,
> {
    match command_for(key) {
        None => unknown_reply(key, raw),
        Some(c) => if c == Command::Clear {
            seq![cleared_line()]
        } else if c == Command::Ping {
            seq![pinging_line()]
        } else if c == Command::Blank {
            Seq::empty()
        } else if c == Command::Neofetch {
            cat.block_of(c) + seq![
                plain(Seq::empty(), uptime_text(uptime_ms), false),
                plain(Seq::empty(), Seq::empty(), false),
            ]
        } else {
            cat.block_of(c)
        },
    }
}

fn unknown_lines(key: &str, raw: &str) -> (r: Vec<LineContent>)
    ensures
        contents_view(r@) == unknown_reply(key@, raw@),
{
    let mut nf = String::from_str("  command not found: ");
    nf.append(raw);
    let (i, d) = closest_command(key);
    let mut r: Vec<LineContent> = Vec::new();
    r.push(out(nf.as_str()));
    if d <= 2 {
        let cands = crate::commands::guessable_commands();
        let mut s = String::from_str("  did you mean '");
        proof {
            assert(cands@.map_values(|s: &str| s@).len() == cands@.len());
            assert(cands@.map_values(|s: &str| s@)[i as int] == cands@[i as int]@);
        }
        s.append(cands[i]);
        s.append("'? (dist: ");
        push_decimal(&mut s, d as u64);
        s.append(")");
        r.push(out(s.as_str()));
    }
    r.push(out("  type 'help' for commands"));
    assert(contents_view(r@) =~= unknown_reply(key@, raw@));
    r
}

fn uptime_line(uptime_ms: u64) -> (r: LineContent)
    ensures
        r@ == plain(Seq::empty(), uptime_text(uptime_ms as nat), false),
{
    let mut s = String::from_str("                   uptime: ");
    push_decimal(&mut s, uptime_ms / 60000);
    s.append("m ");
    push_decimal(&mut s, (uptime_ms % 60000) / 1000);
    s.append("s");
    out(s.as_str())
}

/// Answers the key `key`, already normalized, that was typed as `raw`.
pub fn respond(catalog: &Catalog, key: &str, raw: &str, uptime_ms: u64) -> (r: Reply)
    ensures
        contents_view(r.lines@) == reply_for(*catalog, key@, raw@, uptime_ms as nat),
        r.reset == (command_for(key@) == Some(Command::Clear)),
        r.probe == (command_for(key@) == Some(Command::Ping)),
{
    match lookup(key) {
        None => Reply { lines: unknown_lines(key, raw), reset: false, probe: false },
        Some(c) => {
            let mut lines: Vec<LineContent> = Vec::new();
            let mut reset = false;
            let mut probe = false;
            if c == Command::Clear {
                lines.push(LineContent::text("[ok]", " cleared.", true));
                reset = true;
            } else if c == Command::Ping {
                lines.push(out("  pinging..."));
                probe = true;
            } else if c == Command::Blank {
            } else {
                extend_contents(&mut lines, catalog.block(c));
                if c == Command::Neofetch {
                    lines.push(uptime_line(uptime_ms));
                    lines.push(blank());
                }
            }
            assert(contents_view(lines@) =~= reply_for(*catalog, key@, raw@, uptime_ms as nat));
            Reply { lines, reset, probe }
        },
    }
}

/// Normalizes `raw` and answers it.
pub fn interpret(catalog: &Catalog, raw: &str, uptime_ms: u64) -> (r: Reply)
    ensures
        contents_view(r.lines@) == reply_for(*catalog, normalized(raw@), raw@, uptime_ms as nat),
        r.reset == (command_for(normalized(raw@)) == Some(Command::Clear)),
        r.probe == (command_for(normalized(raw@)) == Some(Command::Ping)),
{
    let key = normalize(raw);
    respond(catalog, key.as_str(), raw, uptime_ms)
}

pub open spec fn pong_text(ms: nat) -> Seq<char> {
    "  pong. "@ + decimal(ms) + "ms"@
}

pub open spec fn probe_failed_text() -> Seq<char> {
    "  ping failed: no response"@
}

/// The line that completes a latency probe: the round trip in milliseconds,
/// or a note that the probe failed.
pub fn probe_line(round_trip_ms: Option<u64>) -> (r: LineContent)
    ensures
        r@ == plain(
            Seq::empty(),
            match round_trip_ms {
                Some(ms) => pong_text(ms as nat),
                None => probe_failed_text(),
            },
            false,
        ),
{
    match round_trip_ms {
        Some(ms) => {
            let mut s = String::from_str("  pong. ");
            push_decimal(&mut s, ms);
            s.append("ms");
            out(s.as_str())
        },
        None => out("  ping failed: no response"),
    }
}

/// "help", "h" and "?" are one command: whatever the typed text around
/// them, the three keys are answered with the same lines.
pub proof fn lemma_help_aliases_agree(
    cat: Catalog,
    raw1: Seq<char>,
    raw2: Seq<char>,
    raw3: Seq<char>,
    uptime_ms: nat,
)
    ensures
        reply_for(cat, "help"@, raw1, uptime_ms) == reply_for(cat, "h"@, raw2, uptime_ms),
        reply_for(cat, "h"@, raw2, uptime_ms) == reply_for(cat, "?"@, raw3, uptime_ms),
        reply_for(cat, "help"@, raw1, uptime_ms) == cat.block_of(Command::Help),
{
}

} // verus!
