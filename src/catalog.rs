//! The static content blocks that content commands print.

use vstd::prelude::*;
use crate::commands::Command;
use crate::line::{
    badge_line, contents_view, labelled_line, link_line, plain, single, ContentView, LineContent,
    PartView,
};

verus! {

/// The static content blocks that content commands print. The interpreter
/// prints them as they are; any block can be swapped for another.
pub struct Catalog {
    pub help: Vec<LineContent>,
    pub projects: Vec<LineContent>,
    pub skills: Vec<LineContent>,
    pub contact: Vec<LineContent>,
    pub about: Vec<LineContent>,
    pub listing: Vec<LineContent>,
    pub neofetch_logo: Vec<LineContent>,
    pub whoami: Vec<LineContent>,
    pub pwd: Vec<LineContent>,
    pub uptime: Vec<LineContent>,
    pub hire: Vec<LineContent>,
    pub sudo: Vec<LineContent>,
    pub exit: Vec<LineContent>,
    pub remove: Vec<LineContent>,
    pub crab: Vec<LineContent>,
    pub date: Vec<LineContent>,
    pub readme: Vec<LineContent>,
}

/// An empty spacer line, as content.
pub open spec fn blank_line() -> ContentView {
    crate::line::plain(Seq::empty(), Seq::empty(), false)
}

/// One plain line of output, without prefix.
pub open spec fn out_line(s: Seq<char>) -> ContentView {
    crate::line::plain(Seq::empty(), s, false)
}

/// The catalog holds the portfolio's own content.
pub open spec fn is_portfolio(c: Catalog) -> bool {
    &&& contents_view(c.help@) == help_content()
    &&& contents_view(c.projects@) == projects_content()
    &&& contents_view(c.skills@) == skills_content()
    &&& contents_view(c.contact@) == contact_content()
    &&& contents_view(c.about@) == about_content()
    &&& contents_view(c.listing@) == listing_content()
    &&& contents_view(c.neofetch_logo@) == neofetch_logo_content()
    &&& contents_view(c.whoami@) == seq![out_line("  vanguard"@)]
    &&& contents_view(c.pwd@) == seq![out_line("  /home/vanguard/portfolio"@)]
    &&& contents_view(c.uptime@) == seq![out_line("  up 1337 days, building systems"@)]
    &&& contents_view(c.hire@) == hire_content()
    &&& contents_view(c.sudo@) == seq![out_line("  try: sudo hire me"@)]
    &&& contents_view(c.exit@) == seq![out_line("  no escape. type 'help' :)"@)]
    &&& contents_view(c.remove@) == seq![out_line("  🛑 nice try."@)]
    &&& contents_view(c.crab@) == seq![out_line("  🦀 btw i use rust"@)]
    &&& contents_view(c.date@) == seq![out_line("  2026. building the future."@)]
    &&& contents_view(c.readme@) == readme_content()
}

/// Commands that print a block of the catalog (for `Neofetch`, the lines
/// above the uptime).
pub open spec fn has_block(c: Command) -> bool {
    c != Command::Clear && c != Command::Ping && c != Command::Blank
}

impl Catalog {
    pub open spec fn lines_of(&self, c: Command) -> Seq<LineContent> {
        match c {
            Command::Help => self.help@,
            Command::Projects => self.projects@,
            Command::Skills => self.skills@,
            Command::Contact => self.contact@,
            Command::About => self.about@,
            Command::Listing => self.listing@,
            Command::Neofetch => self.neofetch_logo@,
            Command::Whoami => self.whoami@,
            Command::Pwd => self.pwd@,
            Command::Uptime => self.uptime@,
            Command::Hire => self.hire@,
            Command::Sudo => self.sudo@,
            Command::Exit => self.exit@,
            Command::Remove => self.remove@,
            Command::Crab => self.crab@,
            Command::Date => self.date@,
            Command::Readme => self.readme@,
            _ => Seq::empty(),
        }
    }

    /// The block that `c` prints, as line contents.
    pub open spec fn block_of(&self, c: Command) -> Seq<ContentView> {
        contents_view(self.lines_of(c))
    }

    /// The block of the catalog that `c` prints.
    pub fn block(&self, c: Command) -> (r: &Vec<LineContent>)
        requires
            has_block(c),
        ensures
            r@ == self.lines_of(c),
    {
        match c {
            Command::Help => &self.help,
            Command::Projects => &self.projects,
            Command::Skills => &self.skills,
            Command::Contact => &self.contact,
            Command::About => &self.about,
            Command::Listing => &self.listing,
            Command::Neofetch => &self.neofetch_logo,
            Command::Whoami => &self.whoami,
            Command::Pwd => &self.pwd,
            Command::Uptime => &self.uptime,
            Command::Hire => &self.hire,
            Command::Sudo => &self.sudo,
            Command::Exit => &self.exit,
            Command::Remove => &self.remove,
            Command::Crab => &self.crab,
            Command::Date => &self.date,
            _ => &self.readme,
        }
    }

    /// The portfolio's own content.
    pub fn portfolio() -> (r: Catalog)
        ensures
            is_portfolio(r),
    {
        Catalog {
            help: help_block(),
            projects: get_projects_output(),
            skills: get_skills_output(),
            contact: get_contact_output(),
            about: about_block(),
            listing: listing_block(),
            neofetch_logo: neofetch_logo(),
            whoami: one_line("  vanguard"),
            pwd: one_line("  /home/vanguard/portfolio"),
            uptime: one_line("  up 1337 days, building systems"),
            hire: hire_block(),
            sudo: one_line("  try: sudo hire me"),
            exit: one_line("  no escape. type 'help' :)"),
            remove: one_line("  🛑 nice try."),
            crab: one_line("  🦀 btw i use rust"),
            date: one_line("  2026. building the future."),
            readme: readme_block(),
        }
    }
}

/// An empty spacer line.
pub fn blank() -> (r: LineContent)
    ensures
        r@ == blank_line(),
{
    proof {
        reveal_strlit("");
    }
    let r = LineContent::text("", "", false);
    assert(""@ =~= Seq::<char>::empty());
    r
}

/// One plain line of output, without prefix.
pub fn out(s: &str) -> (r: LineContent)
    ensures
        r@ == out_line(s@),
{
    proof {
        reveal_strlit("");
    }
    assert(""@ =~= Seq::<char>::empty());
    LineContent::text("", s, false)
}

/// A block of one plain line.
pub fn one_line(s: &str) -> (r: Vec<LineContent>)
    ensures
        r@.len() == 1,
        contents_view(r@) == seq![out_line(s@)],
{
    let mut r: Vec<LineContent> = Vec::new();
    r.push(out(s));
    assert(contents_view(r@) =~= seq![out_line(s@)]);
    r
}

pub open spec fn help_content() -> Seq<ContentView> {
    seq![
        blank_line(),
        single(""@, PartView::Section("  > AVAILABLE COMMANDS"@)),
        blank_line(),
        labelled_line(""@, "  projects"@, "     List all portfolio projects"@),
        labelled_line(""@, "  skills"@, "       View technical stack and expertise"@),
        labelled_line(""@, "  about"@, "        Professional profile and bio"@),
        labelled_line(""@, "  contact"@, "      Get in touch"@),
        labelled_line(""@, "  clear"@, "        Reset terminal"@),
        blank_line(),
        single(""@, PartView::Section("  > EASTER EGGS"@)),
        out_line("  Try: neofetch, whoami, ls, sudo hire me, ping, date"@),
        blank_line(),
    ]
}

pub fn help_block() -> (r: Vec<LineContent>)
    ensures
        r@.len() == 12,
        contents_view(r@) == help_content(),
{
    let mut r: Vec<LineContent> = Vec::new();
    r.push(blank());
    r.push(LineContent::section("", "  > AVAILABLE COMMANDS"));
    r.push(blank());
    r.push(LineContent::labelled("", "  projects", "     List all portfolio projects"));
    r.push(LineContent::labelled("", "  skills", "       View technical stack and expertise"));
    r.push(LineContent::labelled("", "  about", "        Professional profile and bio"));
    r.push(LineContent::labelled("", "  contact", "      Get in touch"));
    r.push(LineContent::labelled("", "  clear", "        Reset terminal"));
    r.push(blank());
    r.push(LineContent::section("", "  > EASTER EGGS"));
    r.push(out("  Try: neofetch, whoami, ls, sudo hire me, ping, date"));
    r.push(blank());
    assert(contents_view(r@) =~= help_content());
    r
}

pub open spec fn projects_content() -> Seq<ContentView> {
    seq![
        blank_line(),
        single(""@, PartView::Section("  // INDUSTRIAL EDGE"@)),
        out_line("  ═══════════════════════════════════════════════════════════"@),
        blank_line(),
        single(""@, PartView::Bold("  Guardian One Platform"@)),
        out_line("  └─ Industrial edge security: WASM vs Docker comparison"@),
        out_line("     2oo3 TMR • IEC 62443 • 0.05ms vs 3000ms+ • 6MB vs 135MB"@),
        link_line(""@, "     "@, "Live Demo"@, "https://guardian-one-web-demo.vercel.app"@, ""@),
        link_line(""@, " | "@, "GitHub"@, "https://github.com/gammahazard/Guardian-one-web-demo"@, ""@),
        blank_line(),
        out_line("  - - - - - - - - - - - - - - - - - - - - - - - - - - - - - -"@),
        blank_line(),
        single(""@, PartView::Bold("  Edge WASI Runtime"@)),
        out_line("  └─ Secure IoT plugin host: Hot-swap Python on Raspberry Pi"@),
        out_line("     Capability security • <10ms reload • Real GPIO hardware"@),
        link_line(""@, "     "@, "GitHub"@, "https://github.com/gammahazard/edge-wasi-runtime"@, ""@),
        blank_line(),
        out_line("  - - - - - - - - - - - - - - - - - - - - - - - - - - - - - -"@),
        blank_line(),
        single(""@, PartView::Bold("  ICS Guardian"@)),
        out_line("  └─ Capability-based security: WASI 0.2 data diode for ICS"@),
        out_line("     14.7KB WASM vs 500MB+ Docker • 17 security tests"@),
        link_line(""@, "     "@, "Live Demo"@, "https://vanguard-ics-guardian.vercel.app"@, ""@),
        out_line("  ───────────────────────────────────────────────────────────"@),
        blank_line(),
        single(""@, PartView::Section("  // SYSTEMS ARCHITECTURE"@)),
        out_line("  ═══════════════════════════════════════════════════════════"@),
        blank_line(),
        single(""@, PartView::Bold("  Raft Consensus Cluster"@)),
        out_line("  └─ Distributed consensus: Same binary runs in browser + Pi"@),
        out_line("     120+ tests • PreVote protocol • Network partition handling"@),
        link_line(""@, "     "@, "Live Demo"@, "https://raft-consensus.vercel.app"@, ""@),
        link_line(""@, " | "@, "GitHub"@, "https://github.com/gammahazard/Raft-Consensus"@, ""@),
        blank_line(),
        out_line("  - - - - - - - - - - - - - - - - - - - - - - - - - - - - - -"@),
        blank_line(),
        single(""@, PartView::Bold("  Protocol Gateway Sandbox"@)),
        out_line("  └─ Modbus → MQTT via WASM: Crash-contained translation"@),
        out_line("     ~7ms recovery • IEC 62443 attack minimization • 2oo3 TMR"@),
        link_line(""@, "     "@, "Live Demo"@, "https://protocol-gateway-sandbox.vercel.app"@, ""@),
        link_line(""@, " | "@, "GitHub"@, "https://github.com/gammahazard/protocol-gateway-sandbox"@, ""@),
        blank_line(),
        out_line("  - - - - - - - - - - - - - - - - - - - - - - - - - - - - - -"@),
        blank_line(),
        single(""@, PartView::Bold("  Pacifica Engine"@)),
        out_line("  └─ HFT Bot: Sub-ms execution, 5-factor signals"@),
        link_line(""@, "     "@, "GitHub"@, "https://github.com/gammahazard/auto-trade"@, ""@),
        blank_line(),
        out_line("  - - - - - - - - - - - - - - - - - - - - - - - - - - - - - -"@),
        blank_line(),
        single(""@, PartView::Bold("  Ore Supervisor"@)),
        out_line("  └─ macOS Daemon: Process health + auto-restart"@),
        link_line(""@, "     "@, "GitHub"@, "https://github.com/gammahazard/ore-app-mac"@, ""@),
        out_line("  ───────────────────────────────────────────────────────────"@),
        blank_line(),
        single(""@, PartView::Section("  // FULL STACK"@)),
        out_line("  ═══════════════════════════════════════════════════════════"@),
        blank_line(),
        single(""@, PartView::Bold("  Kennel Platform"@)),
        out_line("  └─ Flagship ERP: FIDO2 auth, RBAC, 61 endpoints"@),
        link_line(""@, "     "@, "GitHub"@, "https://github.com/gammahazard/Vanguard-kennel-frontend"@, ""@),
        link_line(""@, " | "@, "Demo"@, "https://vanguard-frontend.vercel.app"@, ""@),
        blank_line(),
        out_line("  - - - - - - - - - - - - - - - - - - - - - - - - - - - - - -"@),
        blank_line(),
        single(""@, PartView::Bold("  CyberVerse Exchange"@)),
        out_line("  └─ Multi-chain bridge: SOL/ADA/ETH/ERGO wallets"@),
        link_line(""@, "     "@, "GitHub"@, "https://github.com/gammahazard/CyberVerse-exchange"@, ""@),
        out_line("  ───────────────────────────────────────────────────────────"@),
        blank_line(),
        single(""@, PartView::Section("  // WASM & TOOLS"@)),
        out_line("  ═══════════════════════════════════════════════════════════"@),
        blank_line(),
        single(""@, PartView::Bold("  PokeFrame"@)),
        out_line("  └─ Rust GameBoy emulator → WASM, 60fps"@),
        link_line(""@, "     "@, "GitHub"@, "https://github.com/gammahazard/PokeFramePublic"@, ""@),
        blank_line(),
        out_line("  - - - - - - - - - - - - - - - - - - - - - - - - - - - - - -"@),
        blank_line(),
        single(""@, PartView::Bold("  Fleet-SDK Builder"@)),
        out_line("  └─ Ergo transaction builder: EIP-12 compliant"@),
        link_line(""@, "     "@, "GitHub"@, "https://github.com/gammahazard/Fleet-SDK-cc"@, ""@),
        link_line(""@, " | "@, "Demo"@, "https://gammahazard.github.io/Fleet-SDK-cc/dist/index.html"@, ""@),
        blank_line(),
    ]
}

pub fn get_projects_output() -> (r: Vec<LineContent>)
    ensures
        r@.len() == 84,
        contents_view(r@) == projects_content(),
{
    let divider = "  - - - - - - - - - - - - - - - - - - - - - - - - - - - - - -";
    let mut r: Vec<LineContent> = Vec::new();
    r.push(blank());
    r.push(LineContent::section("", "  // INDUSTRIAL EDGE"));
    r.push(out("  ═══════════════════════════════════════════════════════════"));
    r.push(blank());
    r.push(LineContent::bold("", "  Guardian One Platform"));
    r.push(out("  └─ Industrial edge security: WASM vs Docker comparison"));
    r.push(out("     2oo3 TMR • IEC 62443 • 0.05ms vs 3000ms+ • 6MB vs 135MB"));
    r.push(LineContent::with_link("", "     ", "Live Demo", "https://guardian-one-web-demo.vercel.app", ""));
    r.push(LineContent::with_link("", " | ", "GitHub", "https://github.com/gammahazard/Guardian-one-web-demo", ""));
    r.push(blank());
    r.push(out(divider));
    r.push(blank());
    r.push(LineContent::bold("", "  Edge WASI Runtime"));
    r.push(out("  └─ Secure IoT plugin host: Hot-swap Python on Raspberry Pi"));
    r.push(out("     Capability security • <10ms reload • Real GPIO hardware"));
    r.push(LineContent::with_link("", "     ", "GitHub", "https://github.com/gammahazard/edge-wasi-runtime", ""));
    r.push(blank());
    r.push(out(divider));
    r.push(blank());
    r.push(LineContent::bold("", "  ICS Guardian"));
    r.push(out("  └─ Capability-based security: WASI 0.2 data diode for ICS"));
    r.push(out("     14.7KB WASM vs 500MB+ Docker • 17 security tests"));
    r.push(LineContent::with_link("", "     ", "Live Demo", "https://vanguard-ics-guardian.vercel.app", ""));
    r.push(out("  ───────────────────────────────────────────────────────────"));
    r.push(blank());
    r.push(LineContent::section("", "  // SYSTEMS ARCHITECTURE"));
    r.push(out("  ═══════════════════════════════════════════════════════════"));
    r.push(blank());
    r.push(LineContent::bold("", "  Raft Consensus Cluster"));
    r.push(out("  └─ Distributed consensus: Same binary runs in browser + Pi"));
    r.push(out("     120+ tests • PreVote protocol • Network partition handling"));
    r.push(LineContent::with_link("", "     ", "Live Demo", "https://raft-consensus.vercel.app", ""));
    r.push(LineContent::with_link("", " | ", "GitHub", "https://github.com/gammahazard/Raft-Consensus", ""));
    r.push(blank());
    r.push(out(divider));
    r.push(blank());
    r.push(LineContent::bold("", "  Protocol Gateway Sandbox"));
    r.push(out("  └─ Modbus → MQTT via WASM: Crash-contained translation"));
    r.push(out("     ~7ms recovery • IEC 62443 attack minimization • 2oo3 TMR"));
    r.push(LineContent::with_link("", "     ", "Live Demo", "https://protocol-gateway-sandbox.vercel.app", ""));
    r.push(LineContent::with_link("", " | ", "GitHub", "https://github.com/gammahazard/protocol-gateway-sandbox", ""));
    r.push(blank());
    r.push(out(divider));
    r.push(blank());
    r.push(LineContent::bold("", "  Pacifica Engine"));
    r.push(out("  └─ HFT Bot: Sub-ms execution, 5-factor signals"));
    r.push(LineContent::with_link("", "     ", "GitHub", "https://github.com/gammahazard/auto-trade", ""));
    r.push(blank());
    r.push(out(divider));
    r.push(blank());
    r.push(LineContent::bold("", "  Ore Supervisor"));
    r.push(out("  └─ macOS Daemon: Process health + auto-restart"));
    r.push(LineContent::with_link("", "     ", "GitHub", "https://github.com/gammahazard/ore-app-mac", ""));
    r.push(out("  ───────────────────────────────────────────────────────────"));
    r.push(blank());
    r.push(LineContent::section("", "  // FULL STACK"));
    r.push(out("  ═══════════════════════════════════════════════════════════"));
    r.push(blank());
    r.push(LineContent::bold("", "  Kennel Platform"));
    r.push(out("  └─ Flagship ERP: FIDO2 auth, RBAC, 61 endpoints"));
    r.push(LineContent::with_link("", "     ", "GitHub", "https://github.com/gammahazard/Vanguard-kennel-frontend", ""));
    r.push(LineContent::with_link("", " | ", "Demo", "https://vanguard-frontend.vercel.app", ""));
    r.push(blank());
    r.push(out(divider));
    r.push(blank());
    r.push(LineContent::bold("", "  CyberVerse Exchange"));
    r.push(out("  └─ Multi-chain bridge: SOL/ADA/ETH/ERGO wallets"));
    r.push(LineContent::with_link("", "     ", "GitHub", "https://github.com/gammahazard/CyberVerse-exchange", ""));
    r.push(out("  ───────────────────────────────────────────────────────────"));
    r.push(blank());
    r.push(LineContent::section("", "  // WASM & TOOLS"));
    r.push(out("  ═══════════════════════════════════════════════════════════"));
    r.push(blank());
    r.push(LineContent::bold("", "  PokeFrame"));
    r.push(out("  └─ Rust GameBoy emulator → WASM, 60fps"));
    r.push(LineContent::with_link("", "     ", "GitHub", "https://github.com/gammahazard/PokeFramePublic", ""));
    r.push(blank());
    r.push(out(divider));
    r.push(blank());
    r.push(LineContent::bold("", "  Fleet-SDK Builder"));
    r.push(out("  └─ Ergo transaction builder: EIP-12 compliant"));
    r.push(LineContent::with_link("", "     ", "GitHub", "https://github.com/gammahazard/Fleet-SDK-cc", ""));
    r.push(LineContent::with_link("", " | ", "Demo", "https://gammahazard.github.io/Fleet-SDK-cc/dist/index.html", ""));
    r.push(blank());
    assert(contents_view(r@) =~= projects_content());
    r
}

pub open spec fn skills_content() -> Seq<ContentView> {
    seq![
        blank_line(),
        single(""@, PartView::Section("  // WASI & EDGE COMPUTING"@)),
        badge_line("  "@, seq!["WASI 0.2", "Component Model", "Wasmtime", "Leptos"]),
        badge_line("  "@, seq!["Hot Module Reloading", "Capability Security", "JCO"]),
        blank_line(),
        single(""@, PartView::Section("  // SYSTEMS & PROTOCOLS"@)),
        badge_line("  "@, seq!["Rust", "C++", "C", "Distributed Systems"]),
        badge_line("  "@, seq!["Raft Consensus", "IEC 62443", "Modbus TCP", "MQTT"]),
        blank_line(),
        single(""@, PartView::Section("  // EMBEDDED & HARDWARE"@)),
        badge_line("  "@, seq!["Raspberry Pi", "GPIO", "Embedded Linux"]),
        badge_line("  "@, seq!["2oo3 TMR", "Industrial Control", "DHT22 Sensors"]),
        blank_line(),
        single(""@, PartView::Section("  // FULL STACK"@)),
        badge_line("  "@, seq!["TypeScript", "Next.js 14+", "React", "Node.js"]),
        badge_line("  "@, seq!["Tailwind CSS", "GraphQL", "gRPC"]),
        blank_line(),
        single(""@, PartView::Section("  // INFRASTRUCTURE & DATA"@)),
        badge_line("  "@, seq!["Docker", "AWS", "PostgreSQL", "MongoDB"]),
        badge_line("  "@, seq!["Redis", "Supabase", "CI/CD"]),
        blank_line(),
        single(""@, PartView::Section("  // SECURITY & WEB3"@)),
        badge_line("  "@, seq!["FIDO2/WebAuthn", "OAuth 2.0", "JWT"]),
        badge_line("  "@, seq!["Zero Trust", "Cloud Identity", "WebSockets"]),
        blank_line(),
    ]
}

pub fn get_skills_output() -> (r: Vec<LineContent>)
    ensures
        r@.len() == 25,
        contents_view(r@) == skills_content(),
{
    let mut r: Vec<LineContent> = Vec::new();
    r.push(blank());
    r.push(LineContent::section("", "  // WASI & EDGE COMPUTING"));
    r.push(LineContent::badges("  ", vec!["WASI 0.2", "Component Model", "Wasmtime", "Leptos"]));
    r.push(LineContent::badges("  ", vec!["Hot Module Reloading", "Capability Security", "JCO"]));
    r.push(blank());
    r.push(LineContent::section("", "  // SYSTEMS & PROTOCOLS"));
    r.push(LineContent::badges("  ", vec!["Rust", "C++", "C", "Distributed Systems"]));
    r.push(LineContent::badges("  ", vec!["Raft Consensus", "IEC 62443", "Modbus TCP", "MQTT"]));
    r.push(blank());
    r.push(LineContent::section("", "  // EMBEDDED & HARDWARE"));
    r.push(LineContent::badges("  ", vec!["Raspberry Pi", "GPIO", "Embedded Linux"]));
    r.push(LineContent::badges("  ", vec!["2oo3 TMR", "Industrial Control", "DHT22 Sensors"]));
    r.push(blank());
    r.push(LineContent::section("", "  // FULL STACK"));
    r.push(LineContent::badges("  ", vec!["TypeScript", "Next.js 14+", "React", "Node.js"]));
    r.push(LineContent::badges("  ", vec!["Tailwind CSS", "GraphQL", "gRPC"]));
    r.push(blank());
    r.push(LineContent::section("", "  // INFRASTRUCTURE & DATA"));
    r.push(LineContent::badges("  ", vec!["Docker", "AWS", "PostgreSQL", "MongoDB"]));
    r.push(LineContent::badges("  ", vec!["Redis", "Supabase", "CI/CD"]));
    r.push(blank());
    r.push(LineContent::section("", "  // SECURITY & WEB3"));
    r.push(LineContent::badges("  ", vec!["FIDO2/WebAuthn", "OAuth 2.0", "JWT"]));
    r.push(LineContent::badges("  ", vec!["Zero Trust", "Cloud Identity", "WebSockets"]));
    r.push(blank());
    assert(contents_view(r@) =~= skills_content());
    r
}

pub open spec fn contact_content() -> Seq<ContentView> {
    seq![
        blank_line(),
        link_line(""@, "  Email   "@, "cm.mongo.web3@gmail.com"@, "mailto:cm.mongo.web3@gmail.com"@, ""@),
        link_line(""@, "  GitHub  "@, "gammahazard"@, "https://github.com/gammahazard"@, ""@),
        blank_line(),
    ]
}

pub fn get_contact_output() -> (r: Vec<LineContent>)
    ensures
        r@.len() == 4,
        contents_view(r@) == contact_content(),
{
    let mut r: Vec<LineContent> = Vec::new();
    r.push(blank());
    r.push(LineContent::with_link("", "  Email   ", "cm.mongo.web3@gmail.com", "mailto:cm.mongo.web3@gmail.com", ""));
    r.push(LineContent::with_link("", "  GitHub  ", "gammahazard", "https://github.com/gammahazard", ""));
    r.push(blank());
    assert(contents_view(r@) =~= contact_content());
    r
}

pub open spec fn about_content() -> Seq<ContentView> {
    seq![
        blank_line(),
        single(""@, PartView::Bold("  CM Mongo"@)),
        out_line("  Systems Engineer | Edge Computing Specialist"@),
        blank_line(),
        out_line("  ━━━━━━━━━━━━━━━━━━━━━━━━━━━━━━━━━━━━━━━━━━━━━━━━━━━━━━━━━"@),
        blank_line(),
        single(""@, PartView::Section("  > ENGINEERING FOCUS"@)),
        out_line("    Building crash-contained edge infrastructure with Rust & WASI 0.2."@),
        out_line("    Specializing in capability-based security for industrial control systems."@),
        blank_line(),
        single(""@, PartView::Section("  > FLAGSHIP WORK"@)),
        single(""@, PartView::Bold("    Guardian One"@)),
        out_line("    └─ Industrial edge platform (100,000x performance vs Python)"@),
        link_line(""@, "       "@, "[Demo]"@, "https://guardian-one-web-demo.vercel.app"@, ""@),
        link_line(""@, " "@, "[GitHub]"@, "https://github.com/gammahazard/Guardian-one-web-demo"@, ""@),
        blank_line(),
        single(""@, PartView::Bold("    Edge WASI Runtime"@)),
        out_line("    └─ Hot-swappable IoT plugins on Raspberry Pi bare metal"@),
        link_line(""@, "       "@, "[GitHub]"@, "https://github.com/gammahazard/edge-wasi-runtime"@, ""@),
        blank_line(),
        single(""@, PartView::Bold("    Raft Consensus"@)),
        out_line("    └─ Distributed systems running in browser + hardware"@),
        link_line(""@, "       "@, "[Demo]"@, "https://raft-consensus.vercel.app"@, ""@),
        link_line(""@, " "@, "[GitHub]"@, "https://github.com/gammahazard/Raft-Consensus"@, ""@),
        blank_line(),
        single(""@, PartView::Section("  > CORE EXPERTISE"@)),
        out_line("    • WASI 0.2 Component Model"@),
        out_line("    • IEC 62443 Industrial Security"@),
        out_line("    • Distributed Consensus (Raft)"@),
        out_line("    • Hot Module Reloading"@),
        out_line("    • Zero-Liability Architecture"@),
        blank_line(),
    ]
}

pub fn about_block() -> (r: Vec<LineContent>)
    ensures
        r@.len() == 32,
        contents_view(r@) == about_content(),
{
    let mut r: Vec<LineContent> = Vec::new();
    r.push(blank());
    r.push(LineContent::bold("", "  CM Mongo"));
    r.push(out("  Systems Engineer | Edge Computing Specialist"));
    r.push(blank());
    r.push(out("  ━━━━━━━━━━━━━━━━━━━━━━━━━━━━━━━━━━━━━━━━━━━━━━━━━━━━━━━━━"));
    r.push(blank());
    r.push(LineContent::section("", "  > ENGINEERING FOCUS"));
    r.push(out("    Building crash-contained edge infrastructure with Rust & WASI 0.2."));
    r.push(out("    Specializing in capability-based security for industrial control systems."));
    r.push(blank());
    r.push(LineContent::section("", "  > FLAGSHIP WORK"));
    r.push(LineContent::bold("", "    Guardian One"));
    r.push(out("    └─ Industrial edge platform (100,000x performance vs Python)"));
    r.push(LineContent::with_link("", "       ", "[Demo]", "https://guardian-one-web-demo.vercel.app", ""));
    r.push(LineContent::with_link("", " ", "[GitHub]", "https://github.com/gammahazard/Guardian-one-web-demo", ""));
    r.push(blank());
    r.push(LineContent::bold("", "    Edge WASI Runtime"));
    r.push(out("    └─ Hot-swappable IoT plugins on Raspberry Pi bare metal"));
    r.push(LineContent::with_link("", "       ", "[GitHub]", "https://github.com/gammahazard/edge-wasi-runtime", ""));
    r.push(blank());
    r.push(LineContent::bold("", "    Raft Consensus"));
    r.push(out("    └─ Distributed systems running in browser + hardware"));
    r.push(LineContent::with_link("", "       ", "[Demo]", "https://raft-consensus.vercel.app", ""));
    r.push(LineContent::with_link("", " ", "[GitHub]", "https://github.com/gammahazard/Raft-Consensus", ""));
    r.push(blank());
    r.push(LineContent::section("", "  > CORE EXPERTISE"));
    r.push(out("    • WASI 0.2 Component Model"));
    r.push(out("    • IEC 62443 Industrial Security"));
    r.push(out("    • Distributed Consensus (Raft)"));
    r.push(out("    • Hot Module Reloading"));
    r.push(out("    • Zero-Liability Architecture"));
    r.push(blank());
    assert(contents_view(r@) =~= about_content());
    r
}

pub open spec fn listing_content() -> Seq<ContentView> {
    seq![
        blank_line(),
        out_line("  drwxr-xr-x  kennel-platform/"@),
        out_line("  drwxr-xr-x  auto-trade/"@),
        out_line("  drwxr-xr-x  CyberVerse-exchange/"@),
        out_line("  drwxr-xr-x  Fleet-SDK-cc/"@),
        out_line("  drwxr-xr-x  PokeFramePublic/"@),
        out_line("  -rw-r--r--  .env [redacted]"@),
        blank_line(),
    ]
}

pub fn listing_block() -> (r: Vec<LineContent>)
    ensures
        r@.len() == 8,
        contents_view(r@) == listing_content(),
{
    let mut r: Vec<LineContent> = Vec::new();
    r.push(blank());
    r.push(out("  drwxr-xr-x  kennel-platform/"));
    r.push(out("  drwxr-xr-x  auto-trade/"));
    r.push(out("  drwxr-xr-x  CyberVerse-exchange/"));
    r.push(out("  drwxr-xr-x  Fleet-SDK-cc/"));
    r.push(out("  drwxr-xr-x  PokeFramePublic/"));
    r.push(out("  -rw-r--r--  .env [redacted]"));
    r.push(blank());
    assert(contents_view(r@) =~= listing_content());
    r
}

pub open spec fn neofetch_logo_content() -> Seq<ContentView> {
    seq![
        blank_line(),
        out_line("        /\\         cm_mongo@vanguard"@),
        out_line("       /  \\        os: vanguardos 2.0"@),
        out_line("      / 🦀 \\       kernel: rust + wasm"@),
        out_line("     /______\\      shell: leptos"@),
    ]
}

pub fn neofetch_logo() -> (r: Vec<LineContent>)
    ensures
        r@.len() == 5,
        contents_view(r@) == neofetch_logo_content(),
{
    let mut r: Vec<LineContent> = Vec::new();
    r.push(blank());
    r.push(out("        /\\         cm_mongo@vanguard"));
    r.push(out("       /  \\        os: vanguardos 2.0"));
    r.push(out("      / 🦀 \\       kernel: rust + wasm"));
    r.push(out("     /______\\      shell: leptos"));
    assert(contents_view(r@) =~= neofetch_logo_content());
    r
}

pub open spec fn hire_content() -> Seq<ContentView> {
    seq![
        blank_line(),
        out_line("  [sudo] password for visitor: **********"@),
        out_line("  authenticating..."@),
        out_line("  ACCESS GRANTED."@),
        blank_line(),
        out_line("  initiating onboarding_sequence.sh..."@),
        out_line("  > Priority connection established."@),
        out_line("  > Ready to architect your next system."@),
        blank_line(),
        link_line(""@, "  [ EXECUTE OFFER ] "@, "Send Email"@, "mailto:cm.mongo.web3@gmail.com?subject=Priority%20Job%20Offer"@, ""@),
        blank_line(),
    ]
}

pub fn hire_block() -> (r: Vec<LineContent>)
    ensures
        r@.len() == 11,
        contents_view(r@) == hire_content(),
{
    let mut r: Vec<LineContent> = Vec::new();
    r.push(blank());
    r.push(out("  [sudo] password for visitor: **********"));
    r.push(out("  authenticating..."));
    r.push(out("  ACCESS GRANTED."));
    r.push(blank());
    r.push(out("  initiating onboarding_sequence.sh..."));
    r.push(out("  > Priority connection established."));
    r.push(out("  > Ready to architect your next system."));
    r.push(blank());
    r.push(LineContent::with_link("", "  [ EXECUTE OFFER ] ", "Send Email", "mailto:cm.mongo.web3@gmail.com?subject=Priority%20Job%20Offer", ""));
    r.push(blank());
    assert(contents_view(r@) =~= hire_content());
    r
}

pub open spec fn readme_content() -> Seq<ContentView> {
    seq![
        blank_line(),
        out_line("  # vanguard secure solutions"@),
        out_line("  > engineering complete systems"@),
        blank_line(),
    ]
}

pub fn readme_block() -> (r: Vec<LineContent>)
    ensures
        r@.len() == 4,
        contents_view(r@) == readme_content(),
{
    let mut r: Vec<LineContent> = Vec::new();
    r.push(blank());
    r.push(out("  # vanguard secure solutions"));
    r.push(out("  > engineering complete systems"));
    r.push(blank());
    assert(contents_view(r@) =~= readme_content());
    r
}

} // verus!
