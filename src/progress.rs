use vstd::prelude::*;

use crate::status::opt_view;
use crate::text::{decimal, decimal_string, pad_left, push_char, push_padded_left};

verus! {

/// One report of the network transfer of a clone.
#[derive(Clone, Copy, Debug, PartialEq, Eq, Structural)]
pub struct TransferProgress {
    pub received_objects: u64,
    pub total_objects: u64,
    pub indexed_objects: u64,
    pub indexed_deltas: u64,
    pub total_deltas: u64,
    pub received_bytes: u64,
}

/// One report of the checkout of a clone.
#[derive(Clone, Debug)]
pub struct CheckoutProgress {
    pub path: Option<String>,
    pub current: usize,
    pub total: usize,
}

/// An event of either stream.
#[derive(Clone, Debug)]
pub enum ProgressEvent {
    Transfer(TransferProgress),
    Checkout(CheckoutProgress),
}

/// The progress of one clone, fed by both event streams.
#[derive(Clone, Debug)]
pub struct CloneProgressState {
    pub received_objects: u64,
    pub total_objects: u64,
    pub indexed_objects: u64,
    pub indexed_deltas: u64,
    pub total_deltas: u64,
    pub received_bytes: u64,
    pub checkout_current: usize,
    pub checkout_total: usize,
    pub checkout_path: Option<String>,
    /// Set once a transfer report has all objects received; never cleared.
    pub transfer_complete: bool,
}

/// `100 * part / whole`, rounded down, and 0 for an empty whole.
pub open spec fn percent(part: nat, whole: nat) -> nat {
    if whole == 0 {
        0
    } else {
        (100 * part) / whole
    }
}

/// The decimal of `n`, right-aligned in `w` characters.
pub open spec fn num(n: nat, w: nat) -> Seq<char> {
    pad_left(decimal(n), w)
}

/// `Resolving deltas <indexed>/<total>` and a carriage return.
pub open spec fn resolving_line(s: CloneProgressState) -> Seq<char> {
    "Resolving deltas "@ + decimal(s.indexed_deltas as nat) + seq!['/'] + decimal(
        s.total_deltas as nat,
    ) + seq!['\r']
}

/// The composite line: network percent, kilobytes and objects received,
/// index percent and objects indexed, checkout percent and files, then the
/// path being checked out, and a carriage return.
pub open spec fn composite_line(s: CloneProgressState) -> Seq<char> {
    let total = s.total_objects as nat;
    "net "@ + num(percent(s.received_objects as nat, total), 3) + "% ("@ + num(
        s.received_bytes as nat / 1024,
        4,
    ) + " kb, "@ + num(s.received_objects as nat, 5) + seq!['/'] + num(total, 5) + ")  /  idx "@
        + num(percent(s.indexed_objects as nat, total), 3) + "% ("@ + num(
        s.indexed_objects as nat,
        5,
    ) + seq!['/'] + num(total, 5) + ")  /  chk "@ + num(
        percent(s.checkout_current as nat, s.checkout_total as nat),
        3,
    ) + "% ("@ + num(s.checkout_current as nat, 4) + seq!['/'] + num(s.checkout_total as nat, 4)
        + ") "@ + match opt_view(s.checkout_path) {
        Some(p) => p,
        None => Seq::empty(),
    } + seq!['\r']
}

/// What the state shows: the resolving line once the transfer is complete,
/// else the composite line.
pub open spec fn render_spec(s: CloneProgressState) -> Seq<char> {
    if s.transfer_complete {
        resolving_line(s)
    } else {
        composite_line(s)
    }
}

/// A transfer report taken: its counters replace the transfer fields, the
/// checkout fields stay, the transfer is complete once all objects are
/// received, and the output is the new render, preceded by one line break
/// the first time the transfer completes.
pub open spec fn transfer_step(
    before: CloneProgressState,
    after: CloneProgressState,
    t: TransferProgress,
    out: Seq<char>,
) -> bool {
    &&& after.received_objects == t.received_objects
    &&& after.total_objects == t.total_objects
    &&& after.indexed_objects == t.indexed_objects
    &&& after.indexed_deltas == t.indexed_deltas
    &&& after.total_deltas == t.total_deltas
    &&& after.received_bytes == t.received_bytes
    &&& after.checkout_current == before.checkout_current
    &&& after.checkout_total == before.checkout_total
    &&& opt_view(after.checkout_path) == opt_view(before.checkout_path)
    &&& after.transfer_complete == (before.transfer_complete || t.received_objects
        == t.total_objects)
    &&& out == if !before.transfer_complete && t.received_objects == t.total_objects {
        seq!['\n'] + render_spec(after)
    } else {
        render_spec(after)
    }
}

/// A checkout report taken: its counters and path replace the checkout
/// fields, everything else stays, and the output is the new render.
pub open spec fn checkout_step(
    before: CloneProgressState,
    after: CloneProgressState,
    c: CheckoutProgress,
    out: Seq<char>,
) -> bool {
    &&& after.received_objects == before.received_objects
    &&& after.total_objects == before.total_objects
    &&& after.indexed_objects == before.indexed_objects
    &&& after.indexed_deltas == before.indexed_deltas
    &&& after.total_deltas == before.total_deltas
    &&& after.received_bytes == before.received_bytes
    &&& after.checkout_current == c.current
    &&& after.checkout_total == c.total
    &&& opt_view(after.checkout_path) == opt_view(c.path)
    &&& after.transfer_complete == before.transfer_complete
    &&& out == render_spec(after)
}

/// Appends the decimal of `n`, right-aligned in `width` characters.
fn push_num(out: &mut String, n: u128, width: usize)
    ensures
        final(out)@ == old(out)@ + num(n as nat, width as nat),
{
    let d = decimal_string(n);
    push_padded_left(out, d.as_str(), width);
}

fn percent_of(part: u64, whole: u64) -> (r: u128)
    ensures
        r as nat == percent(part as nat, whole as nat),
{
    if whole == 0 {
        0
    } else {
        (100 * (part as u128)) / (whole as u128)
    }
}

impl CloneProgressState {
    /// The state before any event: all counters zero, transfer not complete.
    pub fn new() -> (r: CloneProgressState)
        ensures
            r.received_objects == 0 && r.total_objects == 0 && r.indexed_objects == 0,
            r.indexed_deltas == 0 && r.total_deltas == 0 && r.received_bytes == 0,
            r.checkout_current == 0 && r.checkout_total == 0 && r.checkout_path is None,
            !r.transfer_complete,
    {
        CloneProgressState {
            received_objects: 0,
            total_objects: 0,
            indexed_objects: 0,
            indexed_deltas: 0,
            total_deltas: 0,
            received_bytes: 0,
            checkout_current: 0,
            checkout_total: 0,
            checkout_path: None,
            transfer_complete: false,
        }
    }

    /// The progress line for the current state.
    pub fn render(&self) -> (r: String)
        ensures
            r@ == render_spec(*self),
    {
        let mut s = String::new();
        if self.transfer_complete {
            s.append("Resolving deltas ");
            s.append(decimal_string(self.indexed_deltas as u128).as_str());
            push_char(&mut s, '/');
            s.append(decimal_string(self.total_deltas as u128).as_str());
            push_char(&mut s, '\r');
            proof {
                assert(s@ =~= resolving_line(*self));
            }
        } else {
            let total = self.total_objects;
            s.append("net ");
            push_num(&mut s, percent_of(self.received_objects, total), 3);
            s.append("% (");
            push_num(&mut s, (self.received_bytes / 1024) as u128, 4);
            s.append(" kb, ");
            push_num(&mut s, self.received_objects as u128, 5);
            push_char(&mut s, '/');
            push_num(&mut s, total as u128, 5);
            s.append(")  /  idx ");
            push_num(&mut s, percent_of(self.indexed_objects, total), 3);
            s.append("% (");
            push_num(&mut s, self.indexed_objects as u128, 5);
            push_char(&mut s, '/');
            push_num(&mut s, total as u128, 5);
            s.append(")  /  chk ");
            push_num(
                &mut s,
                percent_of(self.checkout_current as u64, self.checkout_total as u64),
                3,
            );
            s.append("% (");
            push_num(&mut s, self.checkout_current as u128, 4);
            push_char(&mut s, '/');
            push_num(&mut s, self.checkout_total as u128, 4);
            s.append(") ");
            match &self.checkout_path {
                Some(p) => s.append(p.as_str()),
                None => {},
            }
            push_char(&mut s, '\r');
            proof {
                assert(s@ =~= composite_line(*self));
            }
        }
        s
    }

    /// Takes a transfer report: its counters replace the transfer fields.
    /// The first report with every object received completes the transfer
    /// and its output starts with one line break. Returns what to write.
    pub fn on_transfer(&mut self, t: TransferProgress) -> (out: String)
        ensures
            transfer_step(*old(self), *final(self), t, out@),
    {
        self.received_objects = t.received_objects;
        self.total_objects = t.total_objects;
        self.indexed_objects = t.indexed_objects;
        self.indexed_deltas = t.indexed_deltas;
        self.total_deltas = t.total_deltas;
        self.received_bytes = t.received_bytes;
        let mut out = String::new();
        if t.received_objects == t.total_objects && !self.transfer_complete {
            self.transfer_complete = true;
            push_char(&mut out, '\n');
        }
        let line = self.render();
        out.append(line.as_str());
        out
    }

    /// Takes a checkout report: its counters and path replace the checkout
    /// fields. Returns what to write.
    pub fn on_checkout(&mut self, c: CheckoutProgress) -> (out: String)
        ensures
            checkout_step(*old(self), *final(self), c, out@),
    {
        self.checkout_current = c.current;
        self.checkout_total = c.total;
        self.checkout_path = c.path;
        self.render()
    }

    /// Takes an event of either stream. Returns what to write.
    pub fn on_event(&mut self, e: ProgressEvent) -> (out: String)
        ensures
            match e {
                ProgressEvent::Transfer(t) => transfer_step(*old(self), *final(self), t, out@),
                ProgressEvent::Checkout(c) => checkout_step(*old(self), *final(self), c, out@),
            },
    {
        match e {
            ProgressEvent::Transfer(t) => self.on_transfer(t),
            ProgressEvent::Checkout(c) => self.on_checkout(c),
        }
    }
}

/// Once a transfer report with every object received has been taken, every
/// later render is the resolving line, never the composite one.
pub proof fn lemma_complete_renders_resolving(s: CloneProgressState)
    requires
        s.transfer_complete,
    ensures
        render_spec(s) == resolving_line(s),
{
}

/// Completion is kept by every later event of either stream, and the
/// output after it is the resolving line with no further line break.
pub proof fn lemma_completion_is_kept(
    before: CloneProgressState,
    after: CloneProgressState,
    e: ProgressEvent,
    out: Seq<char>,
)
    requires
        before.transfer_complete,
        match e {
            ProgressEvent::Transfer(t) => transfer_step(before, after, t, out),
            ProgressEvent::Checkout(c) => checkout_step(before, after, c, out),
        },
    ensures
        after.transfer_complete,
        render_spec(after) == resolving_line(after),
        out == resolving_line(after),
{
}

} // verus!
