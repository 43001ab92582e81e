//! The boot transcript and its timing.

use vstd::prelude::*;
use crate::catalog::{blank, blank_line};
use crate::line::{labelled_line, plain, single, ContentView, LineContent, PartView};

verus! {

/// One line of the boot transcript and when it appears, in milliseconds
/// from the start of the session.
pub struct BootEntry {
    pub delay_ms: u64,
    pub line: LineContent,
}

/// The contents of the entries' lines, in order.
pub open spec fn boot_lines(entries: Seq<BootEntry>) -> Seq<ContentView> {
    entries.map_values(|e: BootEntry| e.line@)
}

pub open spec fn delays_of(entries: Seq<BootEntry>) -> Seq<u64> {
    entries.map_values(|e: BootEntry| e.delay_ms)
}

/// Delays never go down from one entry to the next, so delivering entries
/// in list order delivers them in time order.
pub open spec fn is_schedule(delays: Seq<u64>) -> bool {
    forall|i: int, j: int| 0 <= i <= j < delays.len() ==> delays[i] <= delays[j]
}

/// When input opens: once the last entry is due.
pub open spec fn ready_at(delays: Seq<u64>) -> nat {
    if delays.len() == 0 {
        0
    } else {
        delays.last() as nat
    }
}

/// The delays of the portfolio's boot transcript.
pub open spec fn boot_delays() -> Seq<u64> {
    seq![
        100u64,
        350,
        600,
        850,
        1100,
        1400,
        1700,
        1800,
        2000,
        2300,
        2400,
        2500,
        2600,
        2700,
        2800,
        2900,
        3000,
        3050,
        3100,
        3200,
    ]
}

/// The portfolio's boot transcript is in time order.
pub proof fn lemma_boot_delays_in_order()
    ensures
        is_schedule(boot_delays()),
        ready_at(boot_delays()) == 3200,
{
    let d = boot_delays();
    assert forall|k: int| 0 <= k < d.len() - 1 implies #[trigger] d[k] <= d[k + 1] by {
        assert(k == 0 || k == 1 || k == 2 || k == 3 || k == 4 || k == 5 || k == 6 || k == 7 || k
            == 8 || k == 9 || k == 10 || k == 11 || k == 12 || k == 13 || k == 14 || k == 15 || k
            == 16 || k == 17 || k == 18);
    }
    assert forall|i: int, j: int| 0 <= i <= j < d.len() implies d[i] <= d[j] by {
        lemma_steps_in_order(d, i, j);
    }
}

proof fn lemma_steps_in_order(d: Seq<u64>, i: int, k: int)
    requires
        0 <= i <= k < d.len(),
        forall|m: int| 0 <= m < d.len() - 1 ==> #[trigger] d[m] <= d[m + 1],
    ensures
        d[i] <= d[k],
    decreases k - i,
{
    if i < k {
        lemma_steps_in_order(d, i, k - 1);
        assert(d[k - 1] <= d[k]);
    }
}

/// The lines of the portfolio's boot transcript, in order: five kernel-style
/// status lines, the name banner, "System Ready." and the command summary.
pub open spec fn boot_content() -> Seq<ContentView> {
    seq![
        plain("[    0.000]"@, " Initializing portfolio kernel..."@, true),
        plain("[    0.127]"@, " Loading modules: rust_core, wasm_runtime"@, true),
        plain("[    0.256]"@, " Mounting portfolio filesystem... OK"@, true),
        plain("[    0.384]"@, " Starting services... DONE"@, true),
        plain("[    0.512]"@, " Authenticating... VERIFIED"@, true),
        blank_line(),
        plain(""@, "  CM MONGO"@, false),
        plain(""@, "  Independent Systems Engineer | Edge Computing"@, false),
        blank_line(),
        plain("[OK]"@, " System Ready."@, true),
        blank_line(),
        single(""@, PartView::Section("  > AVAILABLE COMMANDS"@)),
        labelled_line(""@, "  projects"@, "   View portfolio projects"@),
        labelled_line(""@, "  skills"@, "     Technical stack"@),
        labelled_line(""@, "  about"@, "      Profile and bio"@),
        labelled_line(""@, "  contact"@, "    Get in touch"@),
        labelled_line(""@, "  clear"@, "      Reset terminal"@),
        labelled_line(""@, "  help"@, "       List all commands"@),
        blank_line(),
        blank_line(),
    ]
}

fn entry(delay_ms: u64, line: LineContent) -> (r: BootEntry)
    ensures
        r.delay_ms == delay_ms,
        r.line@ == line@,
{
    BootEntry { delay_ms, line }
}

/// The portfolio's boot transcript: kernel-style status lines, the name
/// banner and the command summary.
pub fn get_boot_sequence() -> (r: Vec<BootEntry>)
    ensures
        delays_of(r@) == boot_delays(),
        boot_lines(r@) == boot_content(),
{
    let mut r: Vec<BootEntry> = Vec::new();
    r.push(entry(100, LineContent::text("[    0.000]", " Initializing portfolio kernel...", true)));
    r.push(entry(350, LineContent::text("[    0.127]", " Loading modules: rust_core, wasm_runtime", true)));
    r.push(entry(600, LineContent::text("[    0.256]", " Mounting portfolio filesystem... OK", true)));
    r.push(entry(850, LineContent::text("[    0.384]", " Starting services... DONE", true)));
    r.push(entry(1100, LineContent::text("[    0.512]", " Authenticating... VERIFIED", true)));
    r.push(entry(1400, blank()));
    r.push(entry(1700, LineContent::text("", "  CM MONGO", false)));
    r.push(entry(1800, LineContent::text("", "  Independent Systems Engineer | Edge Computing", false)));
    r.push(entry(2000, blank()));
    r.push(entry(2300, LineContent::text("[OK]", " System Ready.", true)));
    r.push(entry(2400, blank()));
    r.push(entry(2500, LineContent::section("", "  > AVAILABLE COMMANDS")));
    r.push(entry(2600, LineContent::labelled("", "  projects", "   View portfolio projects")));
    r.push(entry(2700, LineContent::labelled("", "  skills", "     Technical stack")));
    r.push(entry(2800, LineContent::labelled("", "  about", "      Profile and bio")));
    r.push(entry(2900, LineContent::labelled("", "  contact", "    Get in touch")));
    r.push(entry(3000, LineContent::labelled("", "  clear", "      Reset terminal")));
    r.push(entry(3050, LineContent::labelled("", "  help", "       List all commands")));
    r.push(entry(3100, blank()));
    r.push(entry(3200, blank()));
    assert(delays_of(r@) =~= boot_delays());
    assert(boot_lines(r@) =~= boot_content());
    r
}

} // verus!
