//! The command table and the closest-key search behind suggestions.

use vstd::prelude::*;
use crate::distance::{edit_distance, levenshtein};
use crate::text::{all_ascii, ascii_lowered, normalized, same_text, trimmed};

verus! {

/// What a recognized command key does.
#[derive(Clone, Copy, PartialEq, Eq, Debug, Structural)]
pub enum Command {
    Help,
    Projects,
    Skills,
    Contact,
    About,
    Clear,
    Listing,
    Neofetch,
    Whoami,
    Pwd,
    Uptime,
    Hire,
    Sudo,
    Exit,
    Remove,
    Crab,
    Ping,
    Date,
    Readme,
    Blank,
}

/// The command table: each recognized key, several of them aliases of one
/// command.
pub open spec fn command_for(key: Seq<char>) -> Option<Command> {
    if key == "help"@ || key == "h"@ || key == "?"@ {
        Some(Command::Help)
    } else if key == "projects"@ || key == "ls projects"@ || key == "repos"@ {
        Some(Command::Projects)
    } else if key == "skills"@ || key == "stack"@ || key == "tech"@ {
        Some(Command::Skills)
    } else if key == "contact"@ || key == "email"@ {
        Some(Command::Contact)
    } else if key == "about"@ {
        Some(Command::About)
    } else if key == "clear"@ || key == "cls"@ {
        Some(Command::Clear)
    } else if key == "ls"@ || key == "ls -la"@ {
        Some(Command::Listing)
    } else if key == "neofetch"@ {
        Some(Command::Neofetch)
    } else if key == "whoami"@ {
        Some(Command::Whoami)
    } else if key == "pwd"@ {
        Some(Command::Pwd)
    } else if key == "uptime"@ {
        Some(Command::Uptime)
    } else if key == "sudo hire me"@ || key == "hire"@ {
        Some(Command::Hire)
    } else if key == "sudo"@ {
        Some(Command::Sudo)
    } else if key == "exit"@ || key == "quit"@ {
        Some(Command::Exit)
    } else if key == "rm"@ || key == "rm -rf"@ || key == "rm -rf /"@ {
        Some(Command::Remove)
    } else if key == "rust"@ || key == "🦀"@ {
        Some(Command::Crab)
    } else if key == "ping"@ {
        Some(Command::Ping)
    } else if key == "date"@ {
        Some(Command::Date)
    } else if key == "cat readme"@ || key == "cat readme.md"@ {
        Some(Command::Readme)
    } else if key == ""@ {
        Some(Command::Blank)
    } else {
        None
    }
}

/// Looks `key` up in the command table.
pub fn lookup(key: &str) -> (r: Option<Command>)
    ensures
        r == command_for(key@),
{
    if same_text(key, "help") || same_text(key, "h") || same_text(key, "?") {
        Some(Command::Help)
    } else if same_text(key, "projects") || same_text(key, "ls projects") || same_text(key, "repos") {
        Some(Command::Projects)
    } else if same_text(key, "skills") || same_text(key, "stack") || same_text(key, "tech") {
        Some(Command::Skills)
    } else if same_text(key, "contact") || same_text(key, "email") {
        Some(Command::Contact)
    } else if same_text(key, "about") {
        Some(Command::About)
    } else if same_text(key, "clear") || same_text(key, "cls") {
        Some(Command::Clear)
    } else if same_text(key, "ls") || same_text(key, "ls -la") {
        Some(Command::Listing)
    } else if same_text(key, "neofetch") {
        Some(Command::Neofetch)
    } else if same_text(key, "whoami") {
        Some(Command::Whoami)
    } else if same_text(key, "pwd") {
        Some(Command::Pwd)
    } else if same_text(key, "uptime") {
        Some(Command::Uptime)
    } else if same_text(key, "sudo hire me") || same_text(key, "hire") {
        Some(Command::Hire)
    } else if same_text(key, "sudo") {
        Some(Command::Sudo)
    } else if same_text(key, "exit") || same_text(key, "quit") {
        Some(Command::Exit)
    } else if same_text(key, "rm") || same_text(key, "rm -rf") || same_text(key, "rm -rf /") {
        Some(Command::Remove)
    } else if same_text(key, "rust") || same_text(key, "🦀") {
        Some(Command::Crab)
    } else if same_text(key, "ping") {
        Some(Command::Ping)
    } else if same_text(key, "date") {
        Some(Command::Date)
    } else if same_text(key, "cat readme") || same_text(key, "cat readme.md") {
        Some(Command::Readme)
    } else if same_text(key, "") {
        Some(Command::Blank)
    } else {
        None
    }
}

/// The keys that unrecognized input is compared against, in the order in
/// which they are tried.
pub open spec fn guessable() -> Seq<Seq<char>> {
    seq![
        "about"@,
        "clear"@,
        "contact"@,
        "help"@,
        "neofetch"@,
        "projects"@,
        "skills"@,
        "whoami"@,
        "ls"@,
        "sudo"@,
        "date"@,
        "ping"@,
    ]
}

pub fn guessable_commands() -> (r: Vec<&'static str>)
    ensures
        r@.map_values(|s: &str| s@) == guessable(),
{
    let mut r: Vec<&'static str> = Vec::new();
    r.push("about");
    r.push("clear");
    r.push("contact");
    r.push("help");
    r.push("neofetch");
    r.push("projects");
    r.push("skills");
    r.push("whoami");
    r.push("ls");
    r.push("sudo");
    r.push("date");
    r.push("ping");
    assert(r@.map_values(|s: &str| s@) =~= guessable());
    r
}

/// How far `key` is from the guessable key at position `i`.
pub open spec fn distance_to(key: Seq<char>, i: int) -> nat {
    edit_distance(key, guessable()[i])
}

/// Position `i` holds a guessable key at the least distance from `key`, and
/// no earlier position does.
pub open spec fn is_first_closest(key: Seq<char>, i: int) -> bool {
    &&& 0 <= i < guessable().len()
    &&& forall|j: int| 0 <= j < guessable().len() ==> distance_to(key, j) >= distance_to(key, i)
    &&& forall|j: int| 0 <= j < i ==> distance_to(key, j) > distance_to(key, i)
}

/// The position of the suggestion for `key`: the first among the closest.
pub open spec fn closest_index(key: Seq<char>) -> int {
    choose|i: int| is_first_closest(key, i)
}

pub open spec fn closest_distance(key: Seq<char>) -> nat {
    distance_to(key, closest_index(key))
}

/// At most one position is the first among the closest.
pub proof fn lemma_first_closest_unique(key: Seq<char>, i: int, j: int)
    requires
        is_first_closest(key, i),
        is_first_closest(key, j),
    ensures
        i == j,
{
    if i < j {
        assert(distance_to(key, i) > distance_to(key, j));
    } else if j < i {
        assert(distance_to(key, j) > distance_to(key, i));
    }
}

/// The guessable key closest to `key` (the first one on a tie) and its
/// distance.
pub fn closest_command(key: &str) -> (r: (usize, usize))
    ensures
        r.0 == closest_index(key@),
        r.0 < guessable().len(),
        r.1 == closest_distance(key@),
        r.1 == distance_to(key@, r.0 as int),
{
    let cands = guessable_commands();
    proof {
        assert(cands@.len() == guessable().len());
    }
    let mut best_i: usize = 0;
    let mut best_d: usize = levenshtein(key, cands[0]);
    proof {
        assert(cands@[0]@ == guessable()[0]);
    }
    let mut i: usize = 1;
    while i < cands.len()
        invariant
            cands@.map_values(|s: &str| s@) == guessable(),
            cands@.len() == guessable().len(),
            1 <= i <= cands@.len(),
            best_i < i,
            best_d == distance_to(key@, best_i as int),
            forall|j: int| 0 <= j < i ==> distance_to(key@, j) >= best_d,
            forall|j: int| 0 <= j < best_i ==> distance_to(key@, j) > best_d,
        decreases cands@.len() - i,
    {
        let d = levenshtein(key, cands[i]);
        proof {
            assert(cands@[i as int]@ == guessable()[i as int]);
        }
        if d < best_d {
            best_i = i;
            best_d = d;
        }
        i = i + 1;
    }
    proof {
        assert(is_first_closest(key@, best_i as int));
        lemma_first_closest_unique(key@, best_i as int, closest_index(key@));
    }
    (best_i, best_d)
}

/// The drafts `clear` and `cls` normalize to themselves and are reset keys.
pub proof fn lemma_reset_drafts()
    ensures
        normalized("clear"@) == "clear"@,
        normalized("cls"@) == "cls"@,
        command_for("clear"@) == Some(Command::Clear),
        command_for("cls"@) == Some(Command::Clear),
{
    reveal_strlit("clear");
    reveal_strlit("cls");
    reveal_strlit("help");
    reveal_strlit("h");
    reveal_strlit("?");
    reveal_strlit("projects");
    reveal_strlit("ls projects");
    reveal_strlit("repos");
    reveal_strlit("skills");
    reveal_strlit("stack");
    reveal_strlit("tech");
    reveal_strlit("contact");
    reveal_strlit("email");
    reveal_strlit("about");
    let clear = "clear"@;
    let cls = "cls"@;
    assert(clear =~= seq!['c', 'l', 'e', 'a', 'r']);
    assert(cls =~= seq!['c', 'l', 's']);
    assert("repos"@ =~= seq!['r', 'e', 'p', 'o', 's']);
    assert("stack"@ =~= seq!['s', 't', 'a', 'c', 'k']);
    assert("email"@ =~= seq!['e', 'm', 'a', 'i', 'l']);
    assert("about"@ =~= seq!['a', 'b', 'o', 'u', 't']);
    assert(all_ascii(clear));
    assert(all_ascii(cls));
    assert(ascii_lowered(clear) =~= clear);
    assert(ascii_lowered(cls) =~= cls);
    assert(trimmed(clear) == clear);
    assert(trimmed(cls) == cls);
}

} // verus!
