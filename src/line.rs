//! History lines: styled fragments, line content, and line identities.

use vstd::prelude::*;

verus! {

/// One styled fragment of a line.
#[derive(Clone, PartialEq, Eq, Debug)]
pub enum OutputPart {
    Text(String),
    Bold(String),
    Section(String),
    Badge(String),
    CmdName(String),
    Link { text: String, url: String },
}

/// What a fragment holds, as character sequences.
pub enum PartView {
    Text(Seq<char>),
    Bold(Seq<char>),
    Section(Seq<char>),
    Badge(Seq<char>),
    CmdName(Seq<char>),
    Link(Seq<char>, Seq<char>),
}

impl View for OutputPart {
    type V = PartView;

    open spec fn view(&self) -> PartView {
        match self {
            OutputPart::Text(s) => PartView::Text(s@),
            OutputPart::Bold(s) => PartView::Bold(s@),
            OutputPart::Section(s) => PartView::Section(s@),
            OutputPart::Badge(s) => PartView::Badge(s@),
            OutputPart::CmdName(s) => PartView::CmdName(s@),
            OutputPart::Link { text, url } => PartView::Link(text@, url@),
        }
    }
}

pub open spec fn parts_view(parts: Seq<OutputPart>) -> Seq<PartView> {
    parts.map_values(|p: OutputPart| p@)
}

impl OutputPart {
    /// A copy holding the same text.
    pub fn duplicate(&self) -> (r: OutputPart)
        ensures
            r@ == self@,
    {
        match self {
            OutputPart::Text(s) => OutputPart::Text(s.clone()),
            OutputPart::Bold(s) => OutputPart::Bold(s.clone()),
            OutputPart::Section(s) => OutputPart::Section(s.clone()),
            OutputPart::Badge(s) => OutputPart::Badge(s.clone()),
            OutputPart::CmdName(s) => OutputPart::CmdName(s.clone()),
            OutputPart::Link { text, url } => OutputPart::Link { text: text.clone(), url: url.clone() },
        }
    }
}

/// A copy of a list of fragments.
pub fn duplicate_parts(parts: &Vec<OutputPart>) -> (r: Vec<OutputPart>)
    ensures
        parts_view(r@) == parts_view(parts@),
{
    let mut r: Vec<OutputPart> = Vec::new();
    let mut i: usize = 0;
    while i < parts.len()
        invariant
            i <= parts@.len(),
            r@.len() == i,
            forall|k: int| 0 <= k < i ==> (#[trigger] r@[k])@ == parts@[k]@,
        decreases parts@.len() - i,
    {
        r.push(parts[i].duplicate());
        i = i + 1;
    }
    assert(parts_view(r@) =~= parts_view(parts@));
    r
}

/// Everything a history line shows, apart from its identity.
pub struct ContentView {
    pub prefix: Seq<char>,
    pub parts: Seq<PartView>,
    pub is_command: bool,
    pub is_boot: bool,
}

/// A history line as the reader sees it: its identity and its content.
pub struct LineView {
    pub id: nat,
    pub content: ContentView,
}

pub open spec fn plain(prefix: Seq<char>, s: Seq<char>, is_boot: bool) -> ContentView {
    ContentView { prefix, parts: seq![PartView::Text(s)], is_command: false, is_boot }
}

pub open spec fn single(prefix: Seq<char>, part: PartView) -> ContentView {
    ContentView { prefix, parts: seq![part], is_command: false, is_boot: false }
}

pub open spec fn text_unless_empty(s: Seq<char>) -> Seq<PartView> {
    if s.len() == 0 {
        Seq::empty()
    } else {
        seq![PartView::Text(s)]
    }
}

/// Badges, one per item, in order.
pub open spec fn badge_parts(items: Seq<&str>) -> Seq<PartView> {
    items.map_values(|s: &str| PartView::Badge(s@))
}

/// A line of badges.
pub open spec fn badge_line(prefix: Seq<char>, items: Seq<&str>) -> ContentView {
    ContentView { prefix, parts: badge_parts(items), is_command: false, is_boot: false }
}

/// A command name followed by its description.
pub open spec fn help_line(indent: Seq<char>, cmd: Seq<char>, desc: Seq<char>) -> ContentView {
    ContentView {
        prefix: indent,
        parts: seq![PartView::CmdName(cmd), PartView::Text(desc)],
        is_command: false,
        is_boot: false,
    }
}

/// An emphasized label followed by plain text.
pub open spec fn labelled_line(prefix: Seq<char>, label: Seq<char>, desc: Seq<char>) -> ContentView {
    ContentView {
        prefix,
        parts: seq![PartView::Bold(label), PartView::Text(desc)],
        is_command: false,
        is_boot: false,
    }
}

/// A hyperlink between optional plain text.
pub open spec fn link_line(
    prefix: Seq<char>,
    before: Seq<char>,
    link_text: Seq<char>,
    url: Seq<char>,
    after: Seq<char>,
) -> ContentView {
    ContentView {
        prefix,
        parts: text_unless_empty(before) + seq![PartView::Link(link_text, url)] + text_unless_empty(
            after,
        ),
        is_command: false,
        is_boot: false,
    }
}

/// The content of a line before it is given an identity: the entries of
/// the boot transcript and of the content blocks.
#[derive(Clone, PartialEq, Eq, Debug)]
pub struct LineContent {
    pub prefix: String,
    pub parts: Vec<OutputPart>,
    pub is_boot: bool,
}

impl View for LineContent {
    type V = ContentView;

    open spec fn view(&self) -> ContentView {
        ContentView {
            prefix: self.prefix@,
            parts: parts_view(self.parts@),
            is_command: false,
            is_boot: self.is_boot,
        }
    }
}

pub open spec fn contents_view(cs: Seq<LineContent>) -> Seq<ContentView> {
    cs.map_values(|c: LineContent| c@)
}

impl LineContent {
    /// One plain text fragment.
    pub fn text(prefix: &str, content: &str, is_boot: bool) -> (r: LineContent)
        ensures
            r@ == plain(prefix@, content@, is_boot),
    {
        let mut parts: Vec<OutputPart> = Vec::new();
        parts.push(OutputPart::Text(String::from_str(content)));
        let r = LineContent { prefix: String::from_str(prefix), parts, is_boot };
        assert(r@.parts =~= seq![PartView::Text(content@)]);
        r
    }

    /// One emphasized fragment.
    pub fn bold(prefix: &str, content: &str) -> (r: LineContent)
        ensures
            r@ == single(prefix@, PartView::Bold(content@)),
    {
        let mut parts: Vec<OutputPart> = Vec::new();
        parts.push(OutputPart::Bold(String::from_str(content)));
        let r = LineContent { prefix: String::from_str(prefix), parts, is_boot: false };
        assert(r@.parts =~= seq![PartView::Bold(content@)]);
        r
    }

    /// One section header.
    pub fn section(prefix: &str, content: &str) -> (r: LineContent)
        ensures
            r@ == single(prefix@, PartView::Section(content@)),
    {
        let mut parts: Vec<OutputPart> = Vec::new();
        parts.push(OutputPart::Section(String::from_str(content)));
        let r = LineContent { prefix: String::from_str(prefix), parts, is_boot: false };
        assert(r@.parts =~= seq![PartView::Section(content@)]);
        r
    }

    /// One badge per item, in order.
    pub fn badges(prefix: &str, items: Vec<&str>) -> (r: LineContent)
        ensures
            r@ == badge_line(prefix@, items@),
    {
        let mut parts: Vec<OutputPart> = Vec::new();
        let mut i: usize = 0;
        while i < items.len()
            invariant
                i <= items@.len(),
                parts@.len() == i,
                forall|k: int| 0 <= k < i ==> (#[trigger] parts@[k])@ == PartView::Badge(items@[k]@),
            decreases items@.len() - i,
        {
            parts.push(OutputPart::Badge(String::from_str(items[i])));
            i = i + 1;
        }
        assert(parts_view(parts@) =~= badge_parts(items@));
        LineContent { prefix: String::from_str(prefix), parts, is_boot: false }
    }

    /// A command name followed by its description.
    pub fn help_entry(indent: &str, cmd: &str, desc: &str) -> (r: LineContent)
        ensures
            r@ == help_line(indent@, cmd@, desc@),
    {
        let mut parts: Vec<OutputPart> = Vec::new();
        parts.push(OutputPart::CmdName(String::from_str(cmd)));
        parts.push(OutputPart::Text(String::from_str(desc)));
        let r = LineContent { prefix: String::from_str(indent), parts, is_boot: false };
        assert(r@.parts =~= seq![PartView::CmdName(cmd@), PartView::Text(desc@)]);
        r
    }

    /// An emphasized label followed by plain text.
    pub fn labelled(prefix: &str, label: &str, desc: &str) -> (r: LineContent)
        ensures
            r@ == labelled_line(prefix@, label@, desc@),
    {
        let mut parts: Vec<OutputPart> = Vec::new();
        parts.push(OutputPart::Bold(String::from_str(label)));
        parts.push(OutputPart::Text(String::from_str(desc)));
        let r = LineContent { prefix: String::from_str(prefix), parts, is_boot: false };
        assert(r@.parts =~= seq![PartView::Bold(label@), PartView::Text(desc@)]);
        r
    }

    /// A hyperlink, with plain text before and after it where that text is
    /// not empty.
    pub fn with_link(
        prefix: &str,
        text_before: &str,
        link_text: &str,
        url: &str,
        text_after: &str,
    ) -> (r: LineContent)
        ensures
            r@ == link_line(prefix@, text_before@, link_text@, url@, text_after@),
    {
        let mut parts: Vec<OutputPart> = Vec::new();
        if !text_before.is_empty() {
            parts.push(OutputPart::Text(String::from_str(text_before)));
        }
        parts.push(OutputPart::Link { text: String::from_str(link_text), url: String::from_str(url) });
        if !text_after.is_empty() {
            parts.push(OutputPart::Text(String::from_str(text_after)));
        }
        let r = LineContent { prefix: String::from_str(prefix), parts, is_boot: false };
        assert(r@.parts =~= text_unless_empty(text_before@) + seq![PartView::Link(link_text@, url@)]
            + text_unless_empty(text_after@));
        r
    }
}

impl LineContent {
    /// A copy with the same content.
    pub fn duplicate(&self) -> (r: LineContent)
        ensures
            r@ == self@,
    {
        LineContent {
            prefix: self.prefix.clone(),
            parts: duplicate_parts(&self.parts),
            is_boot: self.is_boot,
        }
    }
}

/// Appends a copy of each of `src` to `dst`.
pub fn extend_contents(dst: &mut Vec<LineContent>, src: &Vec<LineContent>)
    ensures
        contents_view(final(dst)@) == contents_view(old(dst)@) + contents_view(src@),
{
    let ghost start = dst@;
    let mut i: usize = 0;
    while i < src.len()
        invariant
            i <= src@.len(),
            dst@.len() == start.len() + i,
            forall|k: int| 0 <= k < start.len() ==> (#[trigger] dst@[k])@ == start[k]@,
            forall|k: int| 0 <= k < i ==> (#[trigger] dst@[start.len() + k])@ == src@[k]@,
        decreases src@.len() - i,
    {
        dst.push(src[i].duplicate());
        i = i + 1;
    }
    assert forall|k: int| start.len() <= k < dst@.len() implies (#[trigger] dst@[k])@ == src@[k
        - start.len()]@ by {
        assert(dst@[start.len() + (k - start.len())]@ == src@[k - start.len()]@);
    }
    assert(contents_view(dst@) =~= contents_view(start) + contents_view(src@));
}

/// The source of line identities: each line takes the next number.
pub struct LineIds {
    next: u64,
}

impl LineIds {
    pub closed spec fn next(&self) -> nat {
        self.next as nat
    }

    /// Numbering starts at zero.
    pub fn new() -> (r: LineIds)
        ensures
            r.next() == 0,
    {
        LineIds { next: 0 }
    }

    /// How many identities are still available.
    pub fn room(&self) -> (r: u64)
        ensures
            r == u64::MAX - self.next(),
    {
        u64::MAX - self.next
    }

    /// Takes the next identity.
    pub fn issue(&mut self) -> (id: u64)
        requires
            old(self).next() < u64::MAX,
        ensures
            id == old(self).next(),
            final(self).next() == old(self).next() + 1,
    {
        let id = self.next;
        self.next = self.next + 1;
        id
    }
}

/// One row of history.
#[derive(Clone, PartialEq, Eq, Debug)]
pub struct TerminalLine {
    pub id: u64,
    pub prefix: String,
    pub parts: Vec<OutputPart>,
    pub is_command: bool,
    pub is_boot: bool,
}

impl View for TerminalLine {
    type V = LineView;

    open spec fn view(&self) -> LineView {
        LineView {
            id: self.id as nat,
            content: ContentView {
                prefix: self.prefix@,
                parts: parts_view(self.parts@),
                is_command: self.is_command,
                is_boot: self.is_boot,
            },
        }
    }
}

pub open spec fn lines_view(lines: Seq<TerminalLine>) -> Seq<LineView> {
    lines.map_values(|l: TerminalLine| l@)
}

/// The contents of a run of lines, without their identities.
pub open spec fn contents_of(lines: Seq<LineView>) -> Seq<ContentView> {
    lines.map_values(|l: LineView| l.content)
}

/// The lines carry consecutive identities starting at `start`.
pub open spec fn numbered_from(lines: Seq<LineView>, start: nat) -> bool {
    forall|i: int| 0 <= i < lines.len() ==> (#[trigger] lines[i]).id == start + i
}

/// The echo of submitted input: the prompt glyph, then the input after one space.
pub open spec fn echo_of(raw: Seq<char>) -> ContentView {
    ContentView {
        prefix: "λ"@,
        parts: seq![PartView::Text(seq![' '] + raw)],
        is_command: true,
        is_boot: false,
    }
}

impl TerminalLine {
    /// Gives `content` the next identity.
    pub fn stamp(ids: &mut LineIds, content: &LineContent) -> (r: TerminalLine)
        requires
            old(ids).next() < u64::MAX,
        ensures
            r@.id == old(ids).next(),
            r@.content == content@,
            final(ids).next() == old(ids).next() + 1,
    {
        let id = ids.issue();
        TerminalLine {
            id,
            prefix: content.prefix.clone(),
            parts: duplicate_parts(&content.parts),
            is_command: false,
            is_boot: content.is_boot,
        }
    }

    /// The line that echoes submitted input: the prompt glyph, then the
    /// input after one space.
    pub fn echo(ids: &mut LineIds, raw: &str) -> (r: TerminalLine)
        requires
            old(ids).next() < u64::MAX,
        ensures
            r@.id == old(ids).next(),
            r@.content == echo_of(raw@),
            final(ids).next() == old(ids).next() + 1,
    {
        let id = ids.issue();
        let text = String::from_str(" ").concat(raw);
        let mut parts: Vec<OutputPart> = Vec::new();
        parts.push(OutputPart::Text(text));
        proof {
            reveal_strlit(" ");
            assert(" "@ =~= seq![' ']);
            assert(parts_view(parts@) =~= seq![PartView::Text(seq![' '] + raw@)]);
        }
        TerminalLine { id, prefix: String::from_str("λ"), parts, is_command: true, is_boot: false }
    }

    /// Gives each of `contents`, in order, the next identity.
    pub fn stamp_all(ids: &mut LineIds, contents: &Vec<LineContent>) -> (r: Vec<TerminalLine>)
        requires
            old(ids).next() + contents@.len() <= u64::MAX,
        ensures
            contents_of(lines_view(r@)) == contents_view(contents@),
            numbered_from(lines_view(r@), old(ids).next()),
            final(ids).next() == old(ids).next() + contents@.len(),
    {
        let mut r: Vec<TerminalLine> = Vec::new();
        let mut i: usize = 0;
        while i < contents.len()
            invariant
                i <= contents@.len(),
                ids.next() == old(ids).next() + i,
                old(ids).next() + contents@.len() <= u64::MAX,
                r@.len() == i,
                forall|k: int| 0 <= k < i ==> (#[trigger] r@[k])@.content == contents@[k]@,
                forall|k: int| 0 <= k < i ==> (#[trigger] r@[k])@.id == old(ids).next() + k,
            decreases contents@.len() - i,
        {
            let line = TerminalLine::stamp(ids, &contents[i]);
            r.push(line);
            i = i + 1;
        }
        assert(contents_of(lines_view(r@)) =~= contents_view(contents@));
        r
    }
}

} // verus!
