//! The display state that the message loop owns: one header row, one row
//! per file of the batch, and a progress label. Each message changes it in
//! one fixed way.
use vstd::prelude::*;
use vstd::string::*;
use crate::item::{format_png_item, row_text, PngItem, RowState};
use crate::options::BatchOptions;
use crate::protocol::{item_at, path_views, Message, MessageView, Worker, Phase};
use crate::size::{decimal, push_decimal};

verus! {

/// Rows above the first file's row; file `i` is shown in row `i + HEADER_ROWS`.
pub const HEADER_ROWS: usize = 1;

/// The display over mathematical values.
pub struct BoardView {
    pub rows: Seq<Seq<char>>,
    pub info: Seq<char>,
    pub total: nat,
}

pub open spec fn header_text() -> Seq<char> {
    "File|State|Original|Optimized|Percent"@
}

pub open spec fn placeholder_rows(paths: Seq<Seq<char>>) -> Seq<Seq<char>> {
    Seq::new(paths.len(), |i: int| row_text(item_at(i as nat, paths[i], 0, 0), RowState::Pending))
}

/// The row of a file replaced by `text`; rows stay as they are when the
/// index names no row.
pub open spec fn set_row(rows: Seq<Seq<char>>, index: nat, text: Seq<char>) -> Seq<Seq<char>> {
    if index + HEADER_ROWS < rows.len() {
        rows.update(index + HEADER_ROWS, text)
    } else {
        rows
    }
}

pub open spec fn progress_text(current: nat, total: nat) -> Seq<char> {
    "Optimizing "@ + decimal(current) + "/"@ + decimal(total)
}

/// The display after one message.
pub open spec fn next_display(d: BoardView, m: MessageView) -> BoardView {
    match m {
        MessageView::Start(paths, _) => BoardView {
            rows: seq![header_text()] + placeholder_rows(paths),
            info: Seq::empty(),
            total: paths.len(),
        },
        MessageView::UpdateProgress(c, t) => BoardView { info: progress_text(c, t), ..d },
        MessageView::Processing(item) => BoardView {
            rows: set_row(d.rows, item.index, row_text(item, RowState::Optimizing)),
            ..d
        },
        MessageView::Done(item) => BoardView {
            rows: set_row(d.rows, item.index, row_text(item, RowState::Done)),
            ..d
        },
        MessageView::Error(item) => BoardView {
            rows: set_row(d.rows, item.index, row_text(item, RowState::Error)),
            ..d
        },
        MessageView::AllDone => BoardView { info: "Done!"@, ..d },
    }
}

/// The rows and labels shown for a batch.
pub struct StatusBoard {
    rows: Vec<String>,
    info: String,
    total: usize,
}

impl View for StatusBoard {
    type V = BoardView;

    closed spec fn view(&self) -> BoardView {
        BoardView {
            rows: self.rows@.map_values(|r: String| r@),
            info: self.info@,
            total: self.total as nat,
        }
    }
}

impl StatusBoard {
    /// An empty display: the header row alone and no label.
    pub fn new() -> (r: StatusBoard)
        ensures
            r@ == (BoardView { rows: seq![header_text()], info: Seq::empty(), total: 0 }),
    {
        let mut rows: Vec<String> = Vec::new();
        rows.push(String::from_str("File|State|Original|Optimized|Percent"));
        let r = StatusBoard { rows, info: String::new(), total: 0 };
        assert(r@.rows =~= seq![header_text()]);
        r
    }

    /// The rows, header first.
    pub fn rows(&self) -> (r: &Vec<String>)
        ensures
            r@.map_values(|s: String| s@) == self@.rows,
    {
        &self.rows
    }

    /// The progress label.
    pub fn info(&self) -> (r: &String)
        ensures
            r@ == self@.info,
    {
        &self.info
    }

    /// The number of files in the current batch.
    pub fn total(&self) -> (r: usize)
        ensures
            r == self@.total,
    {
        self.total
    }

    fn set_row_text(&mut self, index: usize, text: String)
        ensures
            final(self)@ == (BoardView {
                rows: set_row(old(self)@.rows, index as nat, text@),
                ..old(self)@
            }),
    {
        if index < self.rows.len() && index + HEADER_ROWS < self.rows.len() {
            self.rows.set(index + HEADER_ROWS, text);
        }
        assert(self@.rows =~= set_row(old(self)@.rows, index as nat, text@));
    }

    /// Applies one message. A `Start` clears the progress label, resets the
    /// rows to one placeholder per file and hands back the one worker of the new batch, not yet started;
    /// every other message hands back none.
    pub fn apply(&mut self, msg: Message) -> (w: Option<Worker>)
        ensures
            final(self)@ == next_display(old(self)@, msg@),
            match msg {
                Message::Start(paths, options) => w is Some && w->Some_0.wf()
                    && w->Some_0.paths_view() == path_views(paths@)
                    && w->Some_0.options_view() == options
                    && w->Some_0.phase_view() == Phase::Ready,
                _ => w is None,
            },
    {
        let ghost m = msg@;
        match msg {
            Message::Start(paths, options) => {
                let mut rows: Vec<String> = Vec::new();
                rows.push(String::from_str("File|State|Original|Optimized|Percent"));
                let ghost pv = path_views(paths@);
                let mut i: usize = 0;
                while i < paths.len()
                    invariant
                        i <= paths@.len(),
                        pv == path_views(paths@),
                        rows@.map_values(|r: String| r@) == seq![header_text()]
                            + placeholder_rows(pv).subrange(0, i as int),
                    decreases paths@.len() - i,
                {
                    let item = PngItem::new(i, &paths[i]);
                    let text = format_png_item(&item, RowState::Pending);
                    assert(pv[i as int] == paths@[i as int]@);
                    assert(item@ == item_at(i as nat, pv[i as int], 0, 0));
                    assert(text@ == placeholder_rows(pv)[i as int]);
                    let ghost before = rows@;
                    rows.push(text);
                    assert(rows@.map_values(|r: String| r@) =~= before.map_values(|r: String| r@).push(text@));
                    assert(rows@.map_values(|r: String| r@) =~= seq![header_text()]
                        + placeholder_rows(pv).subrange(0, (i + 1) as int));
                    i = i + 1;
                }
                assert(placeholder_rows(pv).subrange(0, i as int) =~= placeholder_rows(pv));
                self.rows = rows;
                self.info = String::new();
                self.total = paths.len();
                Some(Worker::new(paths, options))
            },
            Message::UpdateProgress(current, total) => {
                let mut s = String::from_str("Optimizing ");
                push_decimal(&mut s, current as u128);
                s.append("/");
                push_decimal(&mut s, total as u128);
                self.info = s;
                None
            },
            Message::Processing(item) => {
                let text = format_png_item(&item, RowState::Optimizing);
                self.set_row_text(item.index, text);
                None
            },
            Message::Done(item) => {
                let text = format_png_item(&item, RowState::Done);
                self.set_row_text(item.index, text);
                None
            },
            Message::Error(item) => {
                let text = format_png_item(&item, RowState::Error);
                self.set_row_text(item.index, text);
                None
            },
            Message::AllDone => {
                self.info = String::from_str("Done!");
                None
            },
        }
    }
}

/// Rendering is a function of the display and the message alone: applying
/// the same message a second time changes nothing more.
pub proof fn law_apply_twice_same(d: BoardView, m: MessageView)
    ensures
        next_display(next_display(d, m), m) == next_display(d, m),
{
    let once = next_display(d, m);
    match m {
        MessageView::Processing(item) => {
            assert(set_row(once.rows, item.index, row_text(item, RowState::Optimizing)) =~= once.rows);
        },
        MessageView::Done(item) => {
            assert(set_row(once.rows, item.index, row_text(item, RowState::Done)) =~= once.rows);
        },
        MessageView::Error(item) => {
            assert(set_row(once.rows, item.index, row_text(item, RowState::Error)) =~= once.rows);
        },
        _ => {},
    }
}

} // verus!
