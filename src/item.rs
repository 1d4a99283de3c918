//! The per-file record and the display row derived from it.
use vstd::prelude::*;
use vstd::string::*;
use crate::size::{compute_percent, format_file_size, percent_text, size_field};

verus! {

/// File names longer than this many characters are shortened in a row.
pub const NAME_LIMIT: usize = 40;

/// One file of a batch: its position in the batch, its path, and its sizes
/// before and after optimisation (0 while not known).
#[derive(Clone, Debug)]
pub struct PngItem {
    pub index: usize,
    pub filepath: String,
    pub original_size: u64,
    pub optimized_size: u64,
}

/// What a message says of an item: the same fields over mathematical values.
pub struct ItemView {
    pub index: nat,
    pub path: Seq<char>,
    pub original_size: nat,
    pub optimized_size: nat,
}

impl View for PngItem {
    type V = ItemView;

    open spec fn view(&self) -> ItemView {
        ItemView {
            index: self.index as nat,
            path: self.filepath@,
            original_size: self.original_size as nat,
            optimized_size: self.optimized_size as nat,
        }
    }
}

impl PngItem {
    /// A fresh item at `index` with both sizes unknown.
    pub fn new(index: usize, filepath: &String) -> (r: PngItem)
        ensures
            r@ == (ItemView { index: index as nat, path: filepath@, original_size: 0, optimized_size: 0 }),
    {
        PngItem { index, filepath: filepath.clone(), original_size: 0, optimized_size: 0 }
    }
}

/// What `std::path::Path::file_name` gives for a path: its last component,
/// or none (for a path that ends in `..`, or a root).
pub uninterp spec fn file_name_of(path: Seq<char>) -> Option<Seq<char>>;

/// Relies on std::path::Path::file_name: the final component of the path,
/// converted back to text; none where the path has no final component.
#[verifier::external_body]
fn file_name(path: &str) -> (r: Option<String>)
    ensures
        match r {
            Some(n) => file_name_of(path@) == Some(n@),
            None => file_name_of(path@) is None,
        },
{
    std::path::Path::new(path).file_name().map(|n| n.to_string_lossy().into_owned())
}

/// The name shown for a path: its file name (the whole path where it has
/// none), cut to 40 characters followed by "..." when longer.
pub open spec fn short_name_of(path: Seq<char>) -> Seq<char> {
    let name = match file_name_of(path) {
        Some(n) => n,
        None => path,
    };
    if name.len() > NAME_LIMIT {
        name.subrange(0, NAME_LIMIT as int) + seq!['.', '.', '.']
    } else {
        name
    }
}

/// The state a row shows for its file.
#[derive(Clone, Copy, Debug, PartialEq, Eq, Structural)]
pub enum RowState {
    /// Waiting for the worker.
    Pending,
    Optimizing,
    Done,
    Error,
}

pub open spec fn state_label(state: RowState) -> Seq<char> {
    match state {
        RowState::Pending => "..."@,
        RowState::Optimizing => "Optimizing"@,
        RowState::Done => "Done"@,
        RowState::Error => "Error"@,
    }
}

/// One display row: name, state label, both size columns and the
/// percentage column, separated by `|`. An `Error` row shows no size; only
/// a `Done` row shows the reduction.
pub open spec fn row_text(item: ItemView, state: RowState) -> Seq<char> {
    let shown = state != RowState::Error;
    short_name_of(item.path) + seq!['|'] + state_label(state) + seq!['|'] + size_field(
        if shown {
            item.original_size
        } else {
            0
        },
    ) + seq!['|'] + size_field(
        if shown {
            item.optimized_size
        } else {
            0
        },
    ) + seq!['|'] + (if state == RowState::Done {
        percent_text(item.original_size, item.optimized_size)
    } else {
        Seq::empty()
    })
}

impl RowState {
    /// The label shown for this state.
    pub fn label(&self) -> (r: &'static str)
        ensures
            r@ == state_label(*self),
    {
        match self {
            RowState::Pending => "...",
            RowState::Optimizing => "Optimizing",
            RowState::Done => "Done",
            RowState::Error => "Error",
        }
    }
}

/// The shortened file name of a path.
pub fn short_name(path: &str) -> (r: String)
    ensures
        r@ == short_name_of(path@),
{
    let name = match file_name(path) {
        Some(n) => n,
        None => String::from_str(path),
    };
    let len = name.as_str().unicode_len();
    if len > NAME_LIMIT {
        let head = name.as_str().substring_char(0, NAME_LIMIT);
        let mut s = String::from_str(head);
        proof {
            reveal_strlit("...");
        }
        s.append("...");
        s
    } else {
        name
    }
}

/// Renders an item as a row in the given state.
pub fn format_png_item(item: &PngItem, state: RowState) -> (r: String)
    ensures
        r@ == row_text(item@, state),
{
    let mut s = short_name(item.filepath.as_str());
    proof {
        reveal_strlit("|");
    }
    let shown = !matches!(state, RowState::Error);
    s.append("|");
    s.append(state.label());
    s.append("|");
    let orig = format_file_size(if shown { item.original_size } else { 0 });
    s.append(orig.as_str());
    s.append("|");
    let opt = format_file_size(if shown { item.optimized_size } else { 0 });
    s.append(opt.as_str());
    s.append("|");
    if matches!(state, RowState::Done) {
        let p = compute_percent(item.original_size, item.optimized_size);
        s.append(p.as_str());
    }
    assert(s@ =~= row_text(item@, state));
    s
}

} // verus!
