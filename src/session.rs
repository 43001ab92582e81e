//! The session controller: history, draft, boot delivery and the input gate.

use vstd::prelude::*;
use crate::boot::{
    boot_lines, delays_of, get_boot_sequence, is_schedule, lemma_boot_delays_in_order, ready_at, BootEntry,
};
use crate::catalog::Catalog;
use crate::commands::{command_for, lemma_reset_drafts, Command};
use crate::interpreter::{
    cleared_line, interpret, pong_text, probe_failed_text, probe_line, reply_for,
};
use crate::line::{
    contents_of, contents_view, echo_of, lines_view, numbered_from, plain, ContentView, LineContent,
    LineIds, LineView, TerminalLine,
};
use crate::text::normalized;

verus! {

/// What became of a submission.
#[derive(Clone, Copy, PartialEq, Eq, Debug, Structural)]
pub enum SubmitOutcome {
    /// Nothing changed: the session is closed, input is not open yet, the
    /// draft is empty, or no identities are left for the lines.
    Ignored,
    /// The echo and the reply are in the history.
    Applied,
    /// As `Applied`; the caller is also to time a round trip and hand the
    /// result to `finish_probe`.
    ProbeRequested,
}

/// The state of a session as the reader sees it.
pub struct SessionView {
    pub history: Seq<LineView>,
    pub input: Seq<char>,
    pub input_enabled: bool,
    pub next_id: nat,
    pub boot: Seq<BootEntry>,
    pub delivered: nat,
    pub start_ms: nat,
    pub catalog: Catalog,
    pub alive: bool,
}

/// Identities strictly increase along the history.
pub open spec fn ids_increasing(h: Seq<LineView>) -> bool {
    forall|i: int, j: int| 0 <= i < j < h.len() ==> h[i].id < h[j].id
}

/// Every identity in the history was issued before `next`.
pub open spec fn ids_below(h: Seq<LineView>, next: nat) -> bool {
    forall|i: int| 0 <= i < h.len() ==> (#[trigger] h[i]).id < next
}

/// `after` is `before` followed by lines with contents `added`, numbered
/// from `first_id`.
pub open spec fn appended(
    before: Seq<LineView>,
    after: Seq<LineView>,
    added: Seq<ContentView>,
    first_id: nat,
) -> bool {
    &&& after.len() == before.len() + added.len()
    &&& after.take(before.len() as int) == before
    &&& contents_of(after.skip(before.len() as int)) == added
    &&& numbered_from(after.skip(before.len() as int), first_id)
}

/// The boot lines that a tick from `a` to `b` delivered.
pub open spec fn delivered_between(a: SessionView, b: SessionView) -> Seq<ContentView> {
    boot_lines(a.boot.subrange(a.delivered as int, b.delivered as int))
}

pub open spec fn probe_content(round_trip_ms: Option<u64>) -> ContentView {
    plain(
        Seq::empty(),
        match round_trip_ms {
            Some(ms) => pong_text(ms as nat),
            None => probe_failed_text(),
        },
        false,
    )
}

impl SessionView {
    pub open spec fn wf(self) -> bool {
        &&& ids_increasing(self.history)
        &&& ids_below(self.history, self.next_id)
        &&& self.next_id <= u64::MAX
        &&& self.delivered <= self.boot.len()
        &&& is_schedule(delays_of(self.boot))
        &&& self.input_enabled ==> self.delivered == self.boot.len()
    }

    /// Milliseconds since the session started, as seen at `now`.
    pub open spec fn uptime(self, now: nat) -> nat {
        if now >= self.start_ms {
            (now - self.start_ms) as nat
        } else {
            0
        }
    }

    pub open spec fn key(self) -> Seq<char> {
        normalized(self.input)
    }

    /// The lines that answer the current draft at `now`.
    pub open spec fn reply(self, now: nat) -> Seq<ContentView> {
        reply_for(self.catalog, self.key(), self.input, self.uptime(now))
    }

    /// What a submission at `now` adds: the echo, then the reply.
    pub open spec fn submission(self, now: nat) -> Seq<ContentView> {
        seq![echo_of(self.input)] + self.reply(now)
    }

    pub open spec fn resets(self) -> bool {
        command_for(self.key()) == Some(Command::Clear)
    }

    pub open spec fn probes(self) -> bool {
        command_for(self.key()) == Some(Command::Ping)
    }

    /// A submission at `now` takes effect.
    pub open spec fn accepts(self, now: nat) -> bool {
        &&& self.alive
        &&& self.input_enabled
        &&& self.input.len() > 0
        &&& self.next_id + 1 + self.reply(now).len() <= u64::MAX
    }

    pub open spec fn with_input(self, input: Seq<char>) -> SessionView {
        SessionView { input, ..self }
    }
}

/// The clock reached `elapsed` milliseconds: every boot entry that is due
/// is delivered in list order, and input opens once the whole transcript
/// is delivered and the last entry's delay has passed.
pub open spec fn ticked(a: SessionView, b: SessionView, elapsed: nat) -> bool {
    if a.alive {
        &&& a.delivered <= b.delivered <= a.boot.len()
        &&& b.next_id <= u64::MAX
        &&& b == SessionView {
            history: b.history,
            delivered: b.delivered,
            next_id: (a.next_id + b.delivered - a.delivered) as nat,
            input_enabled: b.input_enabled,
            ..a
        }
        &&& appended(a.history, b.history, delivered_between(a, b), a.next_id)
        &&& forall|k: int|
            a.delivered <= k < b.delivered ==> (#[trigger] a.boot[k]).delay_ms <= elapsed
        &&& b.delivered == a.boot.len() || a.boot[b.delivered as int].delay_ms > elapsed
            || b.next_id == u64::MAX
        &&& b.input_enabled == (a.input_enabled || (b.delivered == a.boot.len() && elapsed
            >= ready_at(delays_of(a.boot))))
    } else {
        b == a
    }
}

/// The draft was submitted at `now`: the echo line and the reply are
/// appended, or, for a reset, the reply alone replaces the history; the
/// draft is cleared.
pub open spec fn submitted(a: SessionView, b: SessionView, now: nat) -> bool {
    if a.accepts(now) {
        &&& b == SessionView {
            history: b.history,
            input: Seq::empty(),
            next_id: a.next_id + 1 + a.reply(now).len(),
            ..a
        }
        &&& if a.resets() {
            &&& contents_of(b.history) == a.reply(now)
            &&& numbered_from(b.history, a.next_id + 1)
        } else {
            appended(a.history, b.history, a.submission(now), a.next_id)
        }
    } else {
        b == a
    }
}

/// A latency probe finished; its line is appended while the session lives.
pub open spec fn probe_finished(
    a: SessionView,
    b: SessionView,
    round_trip_ms: Option<u64>,
) -> bool {
    if a.alive && a.next_id < u64::MAX {
        &&& b == SessionView { history: b.history, next_id: a.next_id + 1, ..a }
        &&& appended(a.history, b.history, seq![probe_content(round_trip_ms)], a.next_id)
    } else {
        b == a
    }
}

/// Any one operation of a session.
pub open spec fn step(a: SessionView, b: SessionView) -> bool {
    ||| exists|elapsed: nat| ticked(a, b, elapsed)
    ||| exists|now: nat| submitted(a, b, now)
    ||| exists|r: Option<u64>| probe_finished(a, b, r)
    ||| exists|input: Seq<char>| b == a.with_input(input)
    ||| b == SessionView { alive: false, ..a }
}

/// Appending freshly numbered lines keeps identities increasing.
pub proof fn lemma_append_numbered(h: Seq<LineView>, added: Seq<LineView>, first_id: nat)
    requires
        ids_increasing(h),
        ids_below(h, first_id),
        numbered_from(added, first_id),
    ensures
        ids_increasing(h + added),
        ids_below(h + added, first_id + added.len()),
        appended(h, h + added, contents_of(added), first_id),
{
    let n = h + added;
    assert(n.take(h.len() as int) =~= h);
    assert(n.skip(h.len() as int) =~= added);
    assert forall|i: int, j: int| 0 <= i < j < n.len() implies n[i].id < n[j].id by {
        if j >= h.len() {
            assert(added[j - h.len()].id == first_id + (j - h.len()));
            if i >= h.len() {
                assert(added[i - h.len()].id == first_id + (i - h.len()));
            } else {
                assert(h[i].id < first_id);
            }
        }
    }
    assert forall|i: int| 0 <= i < n.len() implies (#[trigger] n[i]).id < first_id + added.len() by {
        if i >= h.len() {
            assert(added[i - h.len()].id == first_id + (i - h.len()));
        } else {
            assert(h[i].id < first_id);
        }
    }
}

/// Submitting a reset command leaves exactly one line, the acknowledgement,
/// and drops every earlier line, the boot transcript included; the new
/// line's identity is above every identity that was in the history.
pub proof fn lemma_clear_leaves_one_line(a: SessionView, b: SessionView, now: nat)
    requires
        a.wf(),
        a.accepts(now),
        a.resets(),
        submitted(a, b, now),
    ensures
        b.history.len() == 1,
        b.history[0].content == cleared_line(),
        forall|i: int| 0 <= i < a.history.len() ==> (#[trigger] a.history[i]).id < b.history[0].id,
{
    assert(a.reply(now) == seq![cleared_line()]);
    assert(contents_of(b.history).len() == b.history.len());
    assert(contents_of(b.history)[0] == b.history[0].content);
}

/// Typing `clear` (or `cls`) and submitting it, once input is open, leaves
/// exactly one line, the acknowledgement, above every earlier identity, and
/// an empty draft.
pub proof fn lemma_clear_draft_leaves_one_line(a: SessionView, b: SessionView, now: nat)
    requires
        a.wf(),
        a.alive,
        a.input_enabled,
        a.input == "clear"@ || a.input == "cls"@,
        a.next_id + 2 <= u64::MAX,
        submitted(a, b, now),
    ensures
        b.history.len() == 1,
        b.history[0].content == cleared_line(),
        forall|i: int| 0 <= i < a.history.len() ==> (#[trigger] a.history[i]).id < b.history[0].id,
        b.input.len() == 0,
{
    lemma_reset_drafts();
    reveal_strlit("clear");
    reveal_strlit("cls");
    assert(a.resets());
    assert(a.reply(now) == seq![cleared_line()]);
    lemma_clear_leaves_one_line(a, b, now);
}

/// Identities only grow: after any operation the history still has strictly
/// increasing identities, and each line in it is either one that was there
/// before or was created by the operation, with an identity above every
/// identity issued before.
pub proof fn lemma_ids_only_grow(a: SessionView, b: SessionView)
    requires
        a.wf(),
        step(a, b),
    ensures
        b.wf(),
        a.next_id <= b.next_id,
        forall|j: int| #![trigger b.history[j]]
            0 <= j < b.history.len() ==> a.history.contains(b.history[j]) || a.next_id
                <= b.history[j].id < b.next_id,
{
    assert forall|j: int| #![trigger b.history[j]]
        0 <= j < b.history.len() implies a.history.contains(b.history[j]) || a.next_id
            <= b.history[j].id < b.next_id by {
        lemma_line_is_old_or_new(a, b, j);
    }
    lemma_step_keeps_wf(a, b);
}

proof fn lemma_appended_line(
    before: Seq<LineView>,
    after: Seq<LineView>,
    added: Seq<ContentView>,
    first_id: nat,
    j: int,
)
    requires
        appended(before, after, added, first_id),
        0 <= j < after.len(),
    ensures
        j < before.len() ==> after[j] == before[j],
        j >= before.len() ==> after[j].id == first_id + (j - before.len()),
{
    if j < before.len() {
        assert(after.take(before.len() as int)[j] == after[j]);
    } else {
        assert(after.skip(before.len() as int)[j - before.len()] == after[j]);
    }
}

proof fn lemma_line_is_old_or_new(a: SessionView, b: SessionView, j: int)
    requires
        a.wf(),
        step(a, b),
        0 <= j < b.history.len(),
    ensures
        a.history.contains(b.history[j]) || a.next_id <= b.history[j].id < b.next_id,
{
    if exists|e: nat| ticked(a, b, e) {
        let e = choose|e: nat| ticked(a, b, e);
        if a.alive {
            lemma_appended_line(a.history, b.history, delivered_between(a, b), a.next_id, j);
            if j < a.history.len() {
                assert(a.history[j] == b.history[j]);
            } else {
                assert(b.history.len() == a.history.len() + (b.delivered - a.delivered));
            }
        } else {
            assert(a.history[j] == b.history[j]);
        }
    } else if exists|now: nat| submitted(a, b, now) {
        let now = choose|now: nat| submitted(a, b, now);
        if a.accepts(now) {
            if a.resets() {
                assert(b.history[j].id == a.next_id + 1 + j);
                assert(contents_of(b.history).len() == b.history.len());
            } else {
                lemma_appended_line(a.history, b.history, a.submission(now), a.next_id, j);
                if j < a.history.len() {
                    assert(a.history[j] == b.history[j]);
                }
            }
        } else {
            assert(a.history[j] == b.history[j]);
        }
    } else if exists|r: Option<u64>| probe_finished(a, b, r) {
        let r = choose|r: Option<u64>| probe_finished(a, b, r);
        if a.alive && a.next_id < u64::MAX {
            lemma_appended_line(a.history, b.history, seq![probe_content(r)], a.next_id, j);
            if j < a.history.len() {
                assert(a.history[j] == b.history[j]);
            }
        } else {
            assert(a.history[j] == b.history[j]);
        }
    } else {
        assert(a.history[j] == b.history[j]);
    }
}

proof fn lemma_step_keeps_wf(a: SessionView, b: SessionView)
    requires
        a.wf(),
        step(a, b),
    ensures
        b.wf(),
        a.next_id <= b.next_id,
{
    if exists|e: nat| ticked(a, b, e) {
        let e = choose|e: nat| ticked(a, b, e);
        if a.alive {
            lemma_appended_wf(a.history, b.history, delivered_between(a, b), a.next_id, b.next_id);
        }
    } else if exists|now: nat| submitted(a, b, now) {
        let now = choose|now: nat| submitted(a, b, now);
        if a.accepts(now) {
            if a.resets() {
                assert(contents_of(b.history).len() == b.history.len());
                lemma_appended_wf(Seq::empty(), b.history, contents_of(b.history), a.next_id + 1, b.next_id);
            } else {
                lemma_appended_wf(a.history, b.history, a.submission(now), a.next_id, b.next_id);
            }
        }
    } else if exists|r: Option<u64>| probe_finished(a, b, r) {
        let r = choose|r: Option<u64>| probe_finished(a, b, r);
        if a.alive && a.next_id < u64::MAX {
            lemma_appended_wf(a.history, b.history, seq![probe_content(r)], a.next_id, b.next_id);
        }
    }
}

proof fn lemma_appended_wf(
    before: Seq<LineView>,
    after: Seq<LineView>,
    added: Seq<ContentView>,
    first_id: nat,
    next: nat,
)
    requires
        ids_increasing(before),
        ids_below(before, first_id),
        appended(before, after, added, first_id)
            || (before.len() == 0 && contents_of(after) == added && numbered_from(after, first_id)),
        first_id + added.len() == next,
    ensures
        ids_increasing(after),
        ids_below(after, next),
{
    if !appended(before, after, added, first_id) {
        assert(after.skip(0) =~= after);
        assert(after.take(0) =~= before);
        assert(contents_of(after).len() == after.len());
    }
    assert(after.len() == before.len() + added.len()) by {
        assert(contents_of(after.skip(before.len() as int)).len() == after.skip(before.len() as int).len());
    }
    assert forall|i: int, j: int| 0 <= i < j < after.len() implies after[i].id < after[j].id by {
        lemma_appended_line(before, after, added, first_id, i);
        lemma_appended_line(before, after, added, first_id, j);
    }
    assert forall|i: int| 0 <= i < after.len() implies (#[trigger] after[i]).id < next by {
        lemma_appended_line(before, after, added, first_id, i);
    }
}

/// Input opens only through the clock, and only once the whole boot
/// transcript is delivered at a time when the last entry's delay has passed.
pub proof fn lemma_input_opens_only_after_boot(a: SessionView, b: SessionView)
    requires
        a.wf(),
        step(a, b),
        !a.input_enabled,
        b.input_enabled,
    ensures
        b.delivered == b.boot.len(),
        exists|elapsed: nat| #![trigger ticked(a, b, elapsed)]
            ticked(a, b, elapsed) && elapsed >= ready_at(delays_of(a.boot)),
{
    lemma_step_keeps_wf(a, b);
    if exists|e: nat| ticked(a, b, e) {
        let e = choose|e: nat| ticked(a, b, e);
        assert(ticked(a, b, e) && e >= ready_at(delays_of(a.boot)));
    } else if exists|now: nat| submitted(a, b, now) {
        let now = choose|now: nat| submitted(a, b, now);
    } else if exists|r: Option<u64>| probe_finished(a, b, r) {
        let r = choose|r: Option<u64>| probe_finished(a, b, r);
    }
}

/// Once the last entry's delay has passed, a tick delivers what is left of
/// the transcript and opens input (given identities for those lines).
pub proof fn lemma_input_opens_when_boot_is_due(a: SessionView, b: SessionView, elapsed: nat)
    requires
        a.wf(),
        a.alive,
        ticked(a, b, elapsed),
        elapsed >= ready_at(delays_of(a.boot)),
        a.next_id + (a.boot.len() - a.delivered) < u64::MAX,
    ensures
        b.input_enabled,
        b.delivered == b.boot.len(),
{
    if b.delivered < a.boot.len() {
        let d = delays_of(a.boot);
        assert(d[b.delivered as int] <= d[a.boot.len() - 1]);
        assert(d[b.delivered as int] == a.boot[b.delivered as int].delay_ms);
    }
}

/// Submitting the same text twice keeps two separate entries: each
/// submission leaves its own echo line, with its own identity.
pub proof fn lemma_repeated_submission_kept(
    a: SessionView,
    b: SessionView,
    c: SessionView,
    now1: nat,
    now2: nat,
)
    requires
        a.wf(),
        a.accepts(now1),
        !a.resets(),
        submitted(a, b, now1),
        b.with_input(a.input).accepts(now2),
        submitted(b.with_input(a.input), c, now2),
    ensures
        a.history.len() < b.history.len() < c.history.len(),
        c.history[a.history.len() as int].content == echo_of(a.input),
        c.history[b.history.len() as int].content == echo_of(a.input),
        c.history[a.history.len() as int].id < c.history[b.history.len() as int].id,
{
    let b2 = b.with_input(a.input);
    let i = a.history.len() as int;
    let j = b.history.len() as int;
    lemma_appended_line(a.history, b.history, a.submission(now1), a.next_id, i);
    assert(b.history.skip(i)[0] == b.history[i]);
    assert(contents_of(b.history.skip(i))[0] == b.history[i].content);
    assert(b2.key() == a.key());
    assert(!b2.resets());
    lemma_appended_line(b2.history, c.history, b2.submission(now2), b2.next_id, i);
    lemma_appended_line(b2.history, c.history, b2.submission(now2), b2.next_id, j);
    assert(c.history.skip(j)[0] == c.history[j]);
    assert(contents_of(c.history.skip(j))[0] == c.history[j].content);
    lemma_appended_wf(a.history, b.history, a.submission(now1), a.next_id, b.next_id);
}

/// A simulated terminal session: its history, the draft being typed,
/// whether input is open, and the boot transcript still to be delivered.
pub struct Session {
    history: Vec<TerminalLine>,
    current_input: String,
    input_enabled: bool,
    ids: LineIds,
    boot: Vec<BootEntry>,
    delivered: usize,
    start_ms: u64,
    catalog: Catalog,
    alive: bool,
}

impl View for Session {
    type V = SessionView;

    closed spec fn view(&self) -> SessionView {
        SessionView {
            history: lines_view(self.history@),
            input: self.current_input@,
            input_enabled: self.input_enabled,
            next_id: self.ids.next(),
            boot: self.boot@,
            delivered: self.delivered as nat,
            start_ms: self.start_ms as nat,
            catalog: self.catalog,
            alive: self.alive,
        }
    }
}

impl Session {
    /// A session started at `start_ms` (milliseconds on the host's clock),
    /// with an empty history and input closed until `boot` is delivered.
    pub fn new(start_ms: u64, boot: Vec<BootEntry>, catalog: Catalog) -> (r: Session)
        requires
            is_schedule(delays_of(boot@)),
        ensures
            r@.wf(),
            r@ == (SessionView {
                history: Seq::empty(),
                input: Seq::empty(),
                input_enabled: false,
                next_id: 0,
                boot: boot@,
                delivered: 0,
                start_ms: start_ms as nat,
                catalog,
                alive: true,
            }),
    {
        let r = Session {
            history: Vec::new(),
            current_input: String::new(),
            input_enabled: false,
            ids: LineIds::new(),
            boot,
            delivered: 0,
            start_ms,
            catalog,
            alive: true,
        };
        assert(r@.history =~= Seq::<LineView>::empty());
        r
    }

    /// A session with the portfolio's boot transcript and content.
    pub fn portfolio(start_ms: u64) -> (r: Session)
        ensures
            r@.wf(),
            r@.history.len() == 0,
            r@.input.len() == 0,
            r@.next_id == 0,
            r@.input_enabled == false,
            r@.alive,
            r@.start_ms == start_ms,
            r@.delivered == 0,
            delays_of(r@.boot) == crate::boot::boot_delays(),
            boot_lines(r@.boot) == crate::boot::boot_content(),
            crate::catalog::is_portfolio(r@.catalog),
    {
        proof {
            lemma_boot_delays_in_order();
        }
        Session::new(start_ms, get_boot_sequence(), Catalog::portfolio())
    }

    /// Delivers every boot entry that is due when the clock shows
    /// `elapsed_ms` since the start, and opens input once the whole
    /// transcript is delivered and the last entry's delay has passed.
    /// Returns whether the history changed.
    pub fn tick(&mut self, elapsed_ms: u64) -> (changed: bool)
        requires
            old(self)@.wf(),
        ensures
            final(self)@.wf(),
            ticked(old(self)@, final(self)@, elapsed_ms as nat),
            changed == (final(self)@.history.len() > old(self)@.history.len()),
    {
        if !self.alive {
            return false;
        }
        let ghost a = self@;
        let n = self.boot.len();
        let room = self.ids.room();
        let mut due: Vec<LineContent> = Vec::new();
        let mut k = self.delivered;
        let mut go = k < n && self.boot[k].delay_ms <= elapsed_ms && (due.len() as u64) < room;
        while go
            invariant
                self@ == a,
                a.wf(),
                n == a.boot.len(),
                room == u64::MAX - a.next_id,
                a.delivered <= k <= n,
                due@.len() == k - a.delivered,
                (due@.len() as u64) <= room,
                forall|m: int| 0 <= m < due@.len() ==> (#[trigger] due@[m])@ == a.boot[a.delivered
                    + m].line@,
                forall|m: int| a.delivered <= m < k ==> (#[trigger] a.boot[m]).delay_ms <= elapsed_ms,
                go == (k < n && a.boot[k as int].delay_ms <= elapsed_ms && (due@.len() as u64) < room),
            decreases n - k,
        {
            due.push(self.boot[k].line.duplicate());
            k = k + 1;
            go = k < n && self.boot[k].delay_ms <= elapsed_ms && (due.len() as u64) < room;
        }
        assert(contents_view(due@) =~= boot_lines(a.boot.subrange(a.delivered as int, k as int)));
        let mut stamped = TerminalLine::stamp_all(&mut self.ids, &due);
        proof {
            lemma_append_numbered(lines_view(self.history@), lines_view(stamped@), a.next_id);
            assert(lines_view(self.history@ + stamped@) =~= lines_view(self.history@) + lines_view(stamped@));
        }
        let changed = stamped.len() > 0;
        self.history.append(&mut stamped);
        self.delivered = k;
        if k == n && n > 0 && elapsed_ms >= self.boot[n - 1].delay_ms {
            self.input_enabled = true;
        } else if k == n && n == 0 {
            self.input_enabled = true;
        }
        proof {
            assert(delays_of(a.boot).len() == a.boot.len());
            if n > 0 {
                assert(delays_of(a.boot).last() == a.boot[n - 1].delay_ms);
            }
        }
        changed
    }

    /// Replaces the draft with `text`.
    pub fn set_input(&mut self, text: String)
        requires
            old(self)@.wf(),
        ensures
            final(self)@ == old(self)@.with_input(text@),
            final(self)@.wf(),
    {
        self.current_input = text;
    }

    /// Submits the draft at `now_ms` on the host's clock: the echo and the
    /// reply go into the history (a reset replaces the history with the
    /// reply), and the draft is cleared.
    pub fn submit(&mut self, now_ms: u64) -> (r: SubmitOutcome)
        requires
            old(self)@.wf(),
        ensures
            final(self)@.wf(),
            submitted(old(self)@, final(self)@, now_ms as nat),
            r == if !old(self)@.accepts(now_ms as nat) {
                SubmitOutcome::Ignored
            } else if old(self)@.probes() {
                SubmitOutcome::ProbeRequested
            } else {
                SubmitOutcome::Applied
            },
    {
        let ghost a = self@;
        if !self.alive || !self.input_enabled || self.current_input.as_str().is_empty() {
            return SubmitOutcome::Ignored;
        }
        let uptime = if now_ms >= self.start_ms {
            now_ms - self.start_ms
        } else {
            0
        };
        let reply = interpret(&self.catalog, self.current_input.as_str(), uptime);
        if self.ids.room() <= reply.lines.len() as u64 {
            return SubmitOutcome::Ignored;
        }
        let echo = TerminalLine::echo(&mut self.ids, self.current_input.as_str());
        let mut lines = TerminalLine::stamp_all(&mut self.ids, &reply.lines);
        if reply.reset {
            proof {
                lemma_append_numbered(Seq::empty(), lines_view(lines@), (a.next_id + 1) as nat);
                assert(Seq::<LineView>::empty() + lines_view(lines@) =~= lines_view(lines@));
            }
            self.history = lines;
        } else {
            let ghost stamped = lines_view(lines@);
            let mut added: Vec<TerminalLine> = Vec::new();
            added.push(echo);
            added.append(&mut lines);
            proof {
                let av = lines_view(added@);
                assert(contents_of(av) =~= seq![echo_of(a.input)] + a.reply(now_ms as nat));
                assert forall|i: int| 0 <= i < av.len() implies (#[trigger] av[i]).id == a.next_id + i by {
                    if i > 0 {
                        assert(av[i] == stamped[i - 1]);
                    }
                }
                lemma_append_numbered(lines_view(self.history@), av, a.next_id);
                assert(lines_view(self.history@ + added@) =~= lines_view(self.history@) + av);
            }
            self.history.append(&mut added);
        }
        self.current_input = String::new();
        if reply.probe {
            SubmitOutcome::ProbeRequested
        } else {
            SubmitOutcome::Applied
        }
    }

    /// Appends the line that completes a latency probe: the round trip in
    /// milliseconds, or `None` where the probe failed. A closed session
    /// ignores it.
    pub fn finish_probe(&mut self, round_trip_ms: Option<u64>) -> (changed: bool)
        requires
            old(self)@.wf(),
        ensures
            final(self)@.wf(),
            probe_finished(old(self)@, final(self)@, round_trip_ms),
            changed == (old(self)@.alive && old(self)@.next_id < u64::MAX),
    {
        if !self.alive || self.ids.room() == 0 {
            return false;
        }
        let ghost a = self@;
        let line = TerminalLine::stamp(&mut self.ids, &probe_line(round_trip_ms));
        let mut added: Vec<TerminalLine> = Vec::new();
        added.push(line);
        proof {
            let av = lines_view(added@);
            assert(contents_of(av) =~= seq![probe_content(round_trip_ms)]);
            lemma_append_numbered(lines_view(self.history@), av, a.next_id);
            assert(lines_view(self.history@ + added@) =~= lines_view(self.history@) + av);
        }
        self.history.append(&mut added);
        true
    }

    /// Ends the session: from now on every operation leaves it unchanged,
    /// so late timers and probe results write nothing.
    pub fn close(&mut self)
        requires
            old(self)@.wf(),
        ensures
            final(self)@ == (SessionView { alive: false, ..old(self)@ }),
            final(self)@.wf(),
    {
        self.alive = false;
    }

    /// The history, oldest line first.
    pub fn history(&self) -> (r: &Vec<TerminalLine>)
        ensures
            lines_view(r@) == self@.history,
    {
        &self.history
    }

    /// The draft being typed.
    pub fn current_input(&self) -> (r: &str)
        ensures
            r@ == self@.input,
    {
        self.current_input.as_str()
    }

    /// Whether input is open.
    pub fn input_enabled(&self) -> (r: bool)
        ensures
            r == self@.input_enabled,
    {
        self.input_enabled
    }

    /// Whether the session is still open.
    pub fn is_alive(&self) -> (r: bool)
        ensures
            r == self@.alive,
    {
        self.alive
    }
}

} // verus!
