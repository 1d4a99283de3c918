//! The messages between the worker and the display loop, and the worker's
//! decisions as a state machine: the caller performs each action it asks
//! for (read a size, optimise a file) and hands back the result.
use vstd::prelude::*;
use crate::item::{ItemView, PngItem};
use crate::options::{BatchOptions, ReductionSettings, settings_for};

verus! {

/// A notification from the submission path or the worker to the display loop.
#[derive(Clone, Debug)]
pub enum Message {
    Start(Vec<String>, BatchOptions),
    Processing(PngItem),
    UpdateProgress(usize, usize),
    Done(PngItem),
    Error(PngItem),
    AllDone,
}

/// A message over mathematical values.
pub enum MessageView {
    Start(Seq<Seq<char>>, BatchOptions),
    Processing(ItemView),
    UpdateProgress(nat, nat),
    Done(ItemView),
    Error(ItemView),
    AllDone,
}

pub open spec fn path_views(paths: Seq<String>) -> Seq<Seq<char>> {
    paths.map_values(|p: String| p@)
}

impl View for Message {
    type V = MessageView;

    open spec fn view(&self) -> MessageView {
        match self {
            Message::Start(paths, o) => MessageView::Start(path_views(paths@), *o),
            Message::Processing(i) => MessageView::Processing(i@),
            Message::UpdateProgress(c, t) => MessageView::UpdateProgress(*c as nat, *t as nat),
            Message::Done(i) => MessageView::Done(i@),
            Message::Error(i) => MessageView::Error(i@),
            Message::AllDone => MessageView::AllDone,
        }
    }
}

pub open spec fn message_views(ms: Seq<Message>) -> Seq<MessageView> {
    ms.map_values(|m: Message| m@)
}

/// How the work on one file went: its size could not be read; it was read
/// (the value given) and optimising failed; or both sizes were read.
#[derive(Clone, Copy, Debug, PartialEq, Eq, Structural)]
pub enum ItemOutcome {
    Unreadable,
    Failed(u64),
    Optimized(u64, u64),
}

pub open spec fn item_at(index: nat, path: Seq<char>, original: nat, optimized: nat) -> ItemView {
    ItemView { index, path, original_size: original, optimized_size: optimized }
}

/// The messages for item `index` of `total`, given how its work went.
pub open spec fn item_trace(index: nat, total: nat, path: Seq<char>, outcome: ItemOutcome) -> Seq<
    MessageView,
> {
    let progress = MessageView::UpdateProgress(index + 1, total);
    match outcome {
        ItemOutcome::Unreadable => seq![progress, MessageView::Error(item_at(index, path, 0, 0))],
        ItemOutcome::Failed(o) => seq![
            progress,
            MessageView::Processing(item_at(index, path, o as nat, 0)),
            MessageView::Error(item_at(index, path, o as nat, 0)),
        ],
        ItemOutcome::Optimized(o, p) => seq![
            progress,
            MessageView::Processing(item_at(index, path, o as nat, 0)),
            MessageView::Done(item_at(index, path, o as nat, p as nat)),
        ],
    }
}

/// The messages for the first `k` items of a batch, in input order.
pub open spec fn trace_upto(paths: Seq<Seq<char>>, outcomes: Seq<ItemOutcome>, k: nat) -> Seq<
    MessageView,
>
    decreases k,
{
    if k == 0 {
        Seq::empty()
    } else {
        trace_upto(paths, outcomes, (k - 1) as nat) + item_trace(
            (k - 1) as nat,
            paths.len(),
            paths[k - 1],
            outcomes[k - 1],
        )
    }
}

/// The message that opens item `k` of a batch, or `AllDone` after the last.
pub open spec fn opening(paths: Seq<Seq<char>>, k: nat) -> MessageView {
    if k < paths.len() {
        MessageView::UpdateProgress(k + 1, paths.len())
    } else {
        MessageView::AllDone
    }
}

/// Everything the worker sends for a batch: each item's messages in input
/// order, then one `AllDone`.
pub open spec fn batch_trace(paths: Seq<Seq<char>>, outcomes: Seq<ItemOutcome>) -> Seq<MessageView> {
    trace_upto(paths, outcomes, paths.len()) + seq![MessageView::AllDone]
}

/// Where the worker stands.
#[derive(Clone, Copy, Debug, PartialEq, Eq, Structural)]
pub enum Phase {
    /// Nothing sent yet.
    Ready,
    /// Waiting for the size of the current file.
    AwaitSize,
    /// Waiting for the optimiser on the current file, whose size is given.
    AwaitOptimize(u64),
    /// `AllDone` sent.
    Finished,
}

/// What the worker asks its caller to do next.
#[derive(Clone, Debug)]
pub enum WorkerAction {
    /// Read the size of this file and call `size_read`.
    ReadSize(String),
    /// Optimise this file in place with these settings, read its new size,
    /// and call `optimized`.
    Optimize(String, ReductionSettings),
    /// The batch is over.
    Finish,
}

/// The messages to send, in order, and the next action.
pub struct WorkerStep {
    pub messages: Vec<Message>,
    pub action: WorkerAction,
}

/// The worker of one batch.
pub struct Worker {
    paths: Vec<String>,
    options: BatchOptions,
    total: usize,
    pos: usize,
    phase: Phase,
    outcomes: Ghost<Seq<ItemOutcome>>,
    emitted: Ghost<Seq<MessageView>>,
}

impl Worker {
    pub closed spec fn paths_view(&self) -> Seq<Seq<char>> {
        path_views(self.paths@)
    }

    pub closed spec fn options_view(&self) -> BatchOptions {
        self.options
    }

    pub closed spec fn phase_view(&self) -> Phase {
        self.phase
    }

    /// Number of items whose work is over.
    pub closed spec fn finished_items(&self) -> nat {
        self.pos as nat
    }

    /// How the work on each finished item went, in input order.
    pub closed spec fn outcomes_view(&self) -> Seq<ItemOutcome> {
        self.outcomes@
    }

    /// Every message sent so far, in order.
    pub closed spec fn emitted_view(&self) -> Seq<MessageView> {
        self.emitted@
    }

    pub closed spec fn wf(&self) -> bool {
        let n = self.paths@.len();
        let done = trace_upto(path_views(self.paths@), self.outcomes@, self.pos as nat);
        &&& self.total == n
        &&& self.pos <= n
        &&& self.outcomes@.len() == self.pos
        &&& match self.phase {
            Phase::Ready => self.pos == 0 && self.emitted@ == Seq::<MessageView>::empty(),
            Phase::AwaitSize => self.pos < n && self.emitted@ == done + seq![
                MessageView::UpdateProgress((self.pos + 1) as nat, n),
            ],
            Phase::AwaitOptimize(o) => self.pos < n && self.emitted@ == done + seq![
                MessageView::UpdateProgress((self.pos + 1) as nat, n),
                MessageView::Processing(item_at(self.pos as nat, self.paths@[self.pos as int]@, o as nat, 0)),
            ],
            Phase::Finished => self.pos == n && self.emitted@ == batch_trace(
                path_views(self.paths@),
                self.outcomes@,
            ),
        }
    }

    /// What a step's action must be in the phase it leaves the worker in.
    pub open spec fn action_fits(&self, action: WorkerAction) -> bool {
        match self.phase_view() {
            Phase::AwaitSize => action is ReadSize && action->ReadSize_0@ == self.paths_view()[self.finished_items() as int],
            Phase::AwaitOptimize(_) => action is Optimize && action->Optimize_0@ == self.paths_view()[self.finished_items() as int]
                && action->Optimize_1 == settings_for(self.options_view()),
            Phase::Finished => action is Finish,
            Phase::Ready => false,
        }
    }

    /// Once a worker has finished, it has sent exactly the batch's message
    /// sequence for the outcomes it was handed, one outcome per file.
    pub proof fn lemma_finished_sent_batch_trace(&self)
        requires
            self.wf(),
            self.phase_view() == Phase::Finished,
        ensures
            self.outcomes_view().len() == self.paths_view().len(),
            self.emitted_view() == batch_trace(self.paths_view(), self.outcomes_view()),
    {
    }

    /// A worker for the given files, processed in this order with these options.
    pub fn new(paths: Vec<String>, options: BatchOptions) -> (r: Worker)
        ensures
            r.wf(),
            r.paths_view() == path_views(paths@),
            r.options_view() == options,
            r.phase_view() == Phase::Ready,
            r.emitted_view() == Seq::<MessageView>::empty(),
            r.outcomes_view() == Seq::<ItemOutcome>::empty(),
    {
        let total = paths.len();
        Worker {
            paths,
            options,
            total,
            pos: 0,
            phase: Phase::Ready,
            outcomes: Ghost(Seq::empty()),
            emitted: Ghost(Seq::empty()),
        }
    }

    fn emit(&mut self, out: &mut Vec<Message>, m: Message)
        ensures
            final(self).emitted@ == old(self).emitted@.push(m@),
            final(out)@ == old(out)@.push(m),
            final(self).paths == old(self).paths,
            final(self).options == old(self).options,
            final(self).total == old(self).total,
            final(self).pos == old(self).pos,
            final(self).phase == old(self).phase,
            final(self).outcomes == old(self).outcomes,
    {
        proof {
            self.emitted@ = self.emitted@.push(m@);
        }
        out.push(m);
    }

    /// Sends the opening message of the next item, or `AllDone` after the last.
    fn advance(&mut self, out: &mut Vec<Message>) -> (action: WorkerAction)
        requires
            old(self).total == old(self).paths@.len(),
            old(self).pos <= old(self).paths@.len(),
            old(self).outcomes@.len() == old(self).pos,
            old(self).emitted@ == trace_upto(
                path_views(old(self).paths@),
                old(self).outcomes@,
                old(self).pos as nat,
            ),
        ensures
            final(self).wf(),
            final(self).action_fits(action),
            final(self).paths == old(self).paths,
            final(self).options == old(self).options,
            final(self).pos == old(self).pos,
            final(self).outcomes == old(self).outcomes,
            final(self).phase == (if old(self).pos < old(self).paths@.len() {
                Phase::AwaitSize
            } else {
                Phase::Finished
            }),
            final(self).total == old(self).total,
            final(out)@.len() == old(out)@.len() + 1,
            final(out)@.subrange(0, old(out)@.len() as int) == old(out)@,
            final(out)@.last()@ == opening(path_views(old(self).paths@), old(self).pos as nat),
            final(self).emitted@ == old(self).emitted@.push(opening(path_views(old(self).paths@), old(self).pos as nat)),
    {
        let n = self.total;
        if self.pos < n {
            let m = Message::UpdateProgress(self.pos + 1, n);
            self.emit(out, m);
            self.phase = Phase::AwaitSize;
            assert(self.emitted@ =~= trace_upto(path_views(self.paths@), self.outcomes@, self.pos as nat)
                + seq![MessageView::UpdateProgress((self.pos + 1) as nat, n as nat)]);
            let path = self.paths[self.pos].clone();
            WorkerAction::ReadSize(path)
        } else {
            let m = Message::AllDone;
            self.emit(out, m);
            self.phase = Phase::Finished;
            assert(path_views(self.paths@).len() == n);
            assert(self.emitted@ =~= batch_trace(path_views(self.paths@), self.outcomes@));
            WorkerAction::Finish
        }
    }

    /// Opens the batch: the progress message of the first item and the
    /// request to read its size, or `AllDone` for an empty batch.
    pub fn start(&mut self) -> (step: WorkerStep)
        requires
            old(self).wf(),
            old(self).phase_view() == Phase::Ready,
        ensures
            final(self).wf(),
            final(self).action_fits(step.action),
            final(self).paths_view() == old(self).paths_view(),
            final(self).options_view() == old(self).options_view(),
            final(self).outcomes_view() == old(self).outcomes_view(),
            final(self).finished_items() == 0,
            message_views(step.messages@) == seq![opening(old(self).paths_view(), 0)],
            final(self).phase_view() == (if final(self).finished_items() < final(self).paths_view().len() {
                Phase::AwaitSize
            } else {
                Phase::Finished
            }),
            final(self).emitted_view() == old(self).emitted_view() + message_views(step.messages@),
    {
        let mut out: Vec<Message> = Vec::new();
        let action = self.advance(&mut out);
        assert(message_views(out@) =~= seq![out@[0]@]);
        WorkerStep { messages: out, action }
    }

    /// The size of the current file was read (`Some`) or could not be
    /// (`None`). On success the item goes to `Processing` and the file is
    /// to be optimised; on failure it ends in `Error` and the next item, or
    /// the end of the batch, follows.
    pub fn size_read(&mut self, size: Option<u64>) -> (step: WorkerStep)
        requires
            old(self).wf(),
            old(self).phase_view() == Phase::AwaitSize,
        ensures
            final(self).wf(),
            final(self).action_fits(step.action),
            final(self).paths_view() == old(self).paths_view(),
            final(self).options_view() == old(self).options_view(),
            final(self).emitted_view() == old(self).emitted_view() + message_views(step.messages@),
            ({
                let k = old(self).finished_items();
                let path = old(self).paths_view()[k as int];
                message_views(step.messages@) == match size {
                    Some(s) => seq![MessageView::Processing(item_at(k, path, s as nat, 0))],
                    None => seq![
                        MessageView::Error(item_at(k, path, 0, 0)),
                        opening(old(self).paths_view(), k + 1),
                    ],
                }
            }),
            match size {
                Some(s) => final(self).phase_view() == Phase::AwaitOptimize(s)
                    && final(self).outcomes_view() == old(self).outcomes_view()
                    && final(self).finished_items() == old(self).finished_items(),
                None => final(self).outcomes_view() == old(self).outcomes_view().push(ItemOutcome::Unreadable)
                    && final(self).finished_items() == old(self).finished_items() + 1
                    && final(self).phase_view() == (if final(self).finished_items() < final(self).paths_view().len() {
                    Phase::AwaitSize
                } else {
                    Phase::Finished
                }),
            },
    {
        let mut out: Vec<Message> = Vec::new();
        let ghost e0 = self.emitted@;
        assert(path_views(self.paths@)[self.pos as int] == self.paths@[self.pos as int]@);
        let mut item = PngItem::new(self.pos, &self.paths[self.pos]);
        match size {
            Some(s) => {
                item.original_size = s;
                self.emit(&mut out, Message::Processing(item));
                self.phase = Phase::AwaitOptimize(s);
                assert(self.emitted@ =~= trace_upto(path_views(self.paths@), self.outcomes@, self.pos as nat)
                    + seq![
                    MessageView::UpdateProgress((self.pos + 1) as nat, self.paths@.len()),
                    MessageView::Processing(item_at(self.pos as nat, self.paths@[self.pos as int]@, s as nat, 0)),
                ]);
                assert(message_views(out@) =~= seq![out@[0]@]);
                assert(self.emitted@ =~= e0 + message_views(out@));
                let path = self.paths[self.pos].clone();
                let action = WorkerAction::Optimize(path, self.options.reduction_settings());
                WorkerStep { messages: out, action }
            },
            None => {
                let ghost old_pos = self.pos as nat;
                let ghost pv = path_views(self.paths@);
                self.emit(&mut out, Message::Error(item));
                proof {
                    self.outcomes@ = self.outcomes@.push(ItemOutcome::Unreadable);
                    assert(self.outcomes@.subrange(0, old_pos as int) =~= old(self).outcomes@);
                    assert(old(self).outcomes@.subrange(0, old_pos as int) =~= old(self).outcomes@);
                    lemma_trace_upto_prefix(pv, old(self).outcomes@, self.outcomes@, old_pos);
                    assert(self.emitted@ =~= trace_upto(pv, self.outcomes@, old_pos + 1));
                }
                self.pos = self.pos + 1;
                let ghost out0 = out@;
                let action = self.advance(&mut out);
                assert(out@[0] == out@.subrange(0, 1)[0]);
                assert(out@[0] == out0[0]);
                assert(message_views(out@) =~= seq![out@[0]@, out@[1]@]);
                assert(self.emitted@ =~= e0 + message_views(out@));
                WorkerStep { messages: out, action }
            },
        }
    }

    /// The optimiser ran on the current file: `Some` with the file's new
    /// size after success, `None` after a failure. The item ends in `Done`
    /// or `Error`, and the next item, or the end of the batch, follows.
    pub fn optimized(&mut self, size: Option<u64>) -> (step: WorkerStep)
        requires
            old(self).wf(),
            old(self).phase_view() is AwaitOptimize,
        ensures
            final(self).wf(),
            final(self).action_fits(step.action),
            final(self).paths_view() == old(self).paths_view(),
            final(self).options_view() == old(self).options_view(),
            final(self).emitted_view() == old(self).emitted_view() + message_views(step.messages@),
            final(self).finished_items() == old(self).finished_items() + 1,
            final(self).phase_view() == (if final(self).finished_items() < final(self).paths_view().len() {
                Phase::AwaitSize
            } else {
                Phase::Finished
            }),
            ({
                let k = old(self).finished_items();
                let path = old(self).paths_view()[k as int];
                let o = old(self).phase_view()->AwaitOptimize_0 as nat;
                message_views(step.messages@) == seq![
                    match size {
                        Some(p) => MessageView::Done(item_at(k, path, o, p as nat)),
                        None => MessageView::Error(item_at(k, path, o, 0)),
                    },
                    opening(old(self).paths_view(), k + 1),
                ]
            }),
            final(self).outcomes_view() == old(self).outcomes_view().push(
                match size {
                    Some(p) => ItemOutcome::Optimized(old(self).phase_view()->AwaitOptimize_0, p),
                    None => ItemOutcome::Failed(old(self).phase_view()->AwaitOptimize_0),
                },
            ),
    {
        let mut out: Vec<Message> = Vec::new();
        let ghost e0 = self.emitted@;
        let ghost old_pos = self.pos as nat;
        let ghost pv = path_views(self.paths@);
        assert(self.pos < self.paths@.len());
        let original = match self.phase {
            Phase::AwaitOptimize(o) => o,
            _ => 0,
        };
        assert(path_views(self.paths@)[self.pos as int] == self.paths@[self.pos as int]@);
        let mut item = PngItem::new(self.pos, &self.paths[self.pos]);
        item.original_size = original;
        let ghost outcome;
        match size {
            Some(p) => {
                item.optimized_size = p;
                self.emit(&mut out, Message::Done(item));
                proof {
                    outcome = ItemOutcome::Optimized(original, p);
                }
            },
            None => {
                self.emit(&mut out, Message::Error(item));
                proof {
                    outcome = ItemOutcome::Failed(original);
                }
            },
        }
        proof {
            self.outcomes@ = self.outcomes@.push(outcome);
            assert(self.outcomes@.subrange(0, old_pos as int) =~= old(self).outcomes@);
            assert(old(self).outcomes@.subrange(0, old_pos as int) =~= old(self).outcomes@);
            lemma_trace_upto_prefix(pv, old(self).outcomes@, self.outcomes@, old_pos);
            assert(self.emitted@ =~= trace_upto(pv, self.outcomes@, old_pos + 1));
        }
        self.pos = self.pos + 1;
        let ghost out0 = out@;
        let action = self.advance(&mut out);
        assert(out@[0] == out@.subrange(0, 1)[0]);
        assert(out@[0] == out0[0]);
        assert(message_views(out@) =~= seq![out@[0]@, out@[1]@]);
        assert(self.emitted@ =~= e0 + message_views(out@));
        WorkerStep { messages: out, action }
    }
}

/// Runs a batch's worker against recorded outcomes, one per file, and
/// returns every message it sends, in order.
pub fn replay_batch(paths: Vec<String>, options: BatchOptions, outcomes: &Vec<ItemOutcome>) -> (r: Vec<
    Message,
>)
    requires
        outcomes@.len() == paths@.len(),
    ensures
        message_views(r@) == batch_trace(path_views(paths@), outcomes@),
{
    let n = paths.len();
    let ghost pv = path_views(paths@);
    let mut w = Worker::new(paths, options);
    let mut first = w.start();
    let mut all: Vec<Message> = Vec::new();
    all.append(&mut first.messages);
    assert(message_views(all@) =~= w.emitted_view());
    let mut k: usize = 0;
    while k < n
        invariant
            w.wf(),
            n == pv.len(),
            n == outcomes@.len(),
            w.paths_view() == pv,
            w.finished_items() == k,
            k <= n,
            w.outcomes_view() == outcomes@.subrange(0, k as int),
            w.phase_view() == (if k < n {
                Phase::AwaitSize
            } else {
                Phase::Finished
            }),
            message_views(all@) == w.emitted_view(),
        decreases n - k,
    {
        let outcome = outcomes[k];
        match outcome {
            ItemOutcome::Unreadable => {
                let mut step = w.size_read(None);
                all.append(&mut step.messages);
            },
            ItemOutcome::Failed(o) => {
                let mut step = w.size_read(Some(o));
                all.append(&mut step.messages);
                let mut step = w.optimized(None);
                all.append(&mut step.messages);
            },
            ItemOutcome::Optimized(o, p) => {
                let mut step = w.size_read(Some(o));
                all.append(&mut step.messages);
                let mut step = w.optimized(Some(p));
                all.append(&mut step.messages);
            },
        }
        k = k + 1;
        assert(w.outcomes_view() =~= outcomes@.subrange(0, k as int));
        assert(message_views(all@) =~= w.emitted_view());
    }
    assert(outcomes@.subrange(0, n as int) =~= outcomes@);
    all
}

/// `trace_upto` over the first `k` items depends only on the first `k`
/// outcomes.
pub proof fn lemma_trace_upto_prefix(
    paths: Seq<Seq<char>>,
    a: Seq<ItemOutcome>,
    b: Seq<ItemOutcome>,
    k: nat,
)
    requires
        k <= a.len(),
        k <= b.len(),
        a.subrange(0, k as int) == b.subrange(0, k as int),
    ensures
        trace_upto(paths, a, k) == trace_upto(paths, b, k),
    decreases k,
{
    if k > 0 {
        assert(a.subrange(0, k - 1) =~= a.subrange(0, k as int).subrange(0, k - 1));
        assert(b.subrange(0, k - 1) =~= b.subrange(0, k as int).subrange(0, k - 1));
        lemma_trace_upto_prefix(paths, a, b, (k - 1) as nat);
        assert(a[k - 1] == a.subrange(0, k as int)[k - 1]);
        assert(b[k - 1] == b.subrange(0, k as int)[k - 1]);
    }
}

} // verus!
