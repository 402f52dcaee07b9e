//! The decisions of the interactive sync dialogs: what a key does to the
//! cursor and the selection, and what the typed answers mean.
//!
//! The terminal (raw mode, reading keys, printing) is the caller's: it
//! hands each key or answer in, performs what comes back, and reports the
//! outcome of what it performed.
use vstd::prelude::*;

use std::collections::HashSet;

use super::aggregation::item_path;
use super::files::{any_pattern_matches, CompiledPatterns};
use super::types::{ChangeItem, SyncResult};
use super::MAX_VIEWABLE_FILES;
use crate::text::{spec_to_lowercase, str_eq, to_lowercase, trim, trim_str};

verus! {

broadcast use vstd::std_specs::hash::group_hash_axioms;

/// A key as the dialogs see it.
#[derive(Debug, Clone, Copy, PartialEq, Eq, Structural)]
pub enum KeyInput {
    Up,
    Down,
    Enter,
    Char(char),
    Other,
}

/// What a key asks of the item list.
#[derive(Debug, Clone, Copy, PartialEq, Eq, Structural)]
pub enum SelectionAction {
    CursorUp,
    CursorDown,
    ToggleSelection,
    ToggleSelectAll,
    Done,
    ViewDetails,
    ViewDirectoryFiles,
    Quit,
    Cancelled,
    NoAction,
}

/// The action of a key event; only presses act.
pub open spec fn key_action(pressed: bool, key: KeyInput) -> SelectionAction {
    if !pressed {
        SelectionAction::NoAction
    } else {
        match key {
            KeyInput::Up => SelectionAction::CursorUp,
            KeyInput::Down => SelectionAction::CursorDown,
            KeyInput::Char(' ') => SelectionAction::ToggleSelection,
            KeyInput::Char('a') => SelectionAction::ToggleSelectAll,
            KeyInput::Char('d') => SelectionAction::Done,
            KeyInput::Enter => SelectionAction::ViewDetails,
            KeyInput::Char('n') => SelectionAction::ViewDirectoryFiles,
            KeyInput::Char('q') => SelectionAction::Quit,
            _ => SelectionAction::NoAction,
        }
    }
}

/// Maps a key event to its action in the item list.
pub fn handle_key_input(pressed: bool, key: KeyInput) -> (r: SelectionAction)
    ensures
        r == key_action(pressed, key),
{
    if !pressed {
        return SelectionAction::NoAction;
    }
    match key {
        KeyInput::Up => SelectionAction::CursorUp,
        KeyInput::Down => SelectionAction::CursorDown,
        KeyInput::Char(' ') => SelectionAction::ToggleSelection,
        KeyInput::Char('a') => SelectionAction::ToggleSelectAll,
        KeyInput::Char('d') => SelectionAction::Done,
        KeyInput::Enter => SelectionAction::ViewDetails,
        KeyInput::Char('n') => SelectionAction::ViewDirectoryFiles,
        KeyInput::Char('q') => SelectionAction::Quit,
        _ => SelectionAction::NoAction,
    }
}

/// The selection after toggling one index.
pub open spec fn toggle(selected: Set<usize>, i: usize) -> Set<usize> {
    if selected.contains(i) {
        selected.remove(i)
    } else {
        selected.insert(i)
    }
}

/// The indices below `n`.
pub open spec fn all_indices(n: usize) -> Set<usize> {
    Set::new(|i: usize| i < n)
}

/// The selection after "select all": cleared when it already holds as
/// many indices as there are entries, else every index added.
pub open spec fn toggle_all(selected: Set<usize>, n: usize) -> Set<usize> {
    if selected.len() == n {
        Set::empty()
    } else {
        selected.union(all_indices(n))
    }
}

/// The cursor one entry down, when there is one.
pub open spec fn cursor_down(cursor: usize, n: usize) -> usize {
    if n > 0 && cursor < n - 1 {
        (cursor + 1) as usize
    } else {
        cursor
    }
}

/// The cursor one entry up, stopping at the first.
pub open spec fn cursor_up(cursor: usize) -> usize {
    if cursor > 0 {
        (cursor - 1) as usize
    } else {
        0
    }
}

/// What the caller is to do after an action in the item list.
#[derive(Debug, Clone, PartialEq, Eq)]
pub enum ActionOutcome {
    /// Show the list again and wait for the next key.
    Continue,
    /// Leave raw mode and sync the selected items.
    SyncSelected,
    /// Show the entry at the index; if the user wants it synced, select it.
    ViewDetails(usize),
    /// Let the user browse the files of the directory entry at the index.
    ViewDirectoryFiles(usize),
    /// Leave the dialog with this result.
    Exit(SyncResult),
}

/// Toggles one index in a selection.
pub fn toggle_index(selected: &mut HashSet<usize>, i: usize)
    ensures
        final(selected)@ == toggle(old(selected)@, i),
{
    if selected.contains(&i) {
        selected.remove(&i);
    } else {
        selected.insert(i);
    }
}

/// Selects every index below `n`, or clears the selection when it already
/// holds `n` indices.
pub fn toggle_select_all(selected: &mut HashSet<usize>, n: usize)
    ensures
        final(selected)@ == toggle_all(old(selected)@, n),
{
    if selected.len() == n {
        selected.clear();
    } else {
        let ghost start = selected@;
        let mut i: usize = 0;
        while i < n
            invariant
                i <= n,
                start.len() != n,
                selected@ == start.union(Set::new(|k: usize| k < i)),
            decreases n - i,
        {
            selected.insert(i);
            i = i + 1;
            assert(selected@ =~= start.union(Set::new(|k: usize| k < i)));
        }
        assert(selected@ =~= start.union(all_indices(n)));
    }
}

/// Performs an action on the item list (`n` entries): moves the cursor,
/// changes the selection, or tells the caller what to do next.
pub fn execute_selection_action(
    action: SelectionAction,
    items: &Vec<ChangeItem>,
    cursor: &mut usize,
    selected: &mut HashSet<usize>,
) -> (r: ActionOutcome)
    requires
        action == SelectionAction::ViewDirectoryFiles ==> *old(cursor) < items@.len(),
    ensures
        *final(cursor) == (match action {
            SelectionAction::CursorUp => cursor_up(*old(cursor)),
            SelectionAction::CursorDown => cursor_down(*old(cursor), items@.len() as usize),
            _ => *old(cursor),
        }),
        final(selected)@ == (match action {
            SelectionAction::ToggleSelection => toggle(old(selected)@, *old(cursor)),
            SelectionAction::ToggleSelectAll => toggle_all(old(selected)@, items@.len() as usize),
            _ => old(selected)@,
        }),
        r == (match action {
            SelectionAction::Done => ActionOutcome::SyncSelected,
            SelectionAction::ViewDetails => ActionOutcome::ViewDetails(*old(cursor)),
            SelectionAction::ViewDirectoryFiles => if items@[*old(cursor) as int] matches ChangeItem::Directory(
                d,
            ) && d.files@.len() <= MAX_VIEWABLE_FILES {
                ActionOutcome::ViewDirectoryFiles(*old(cursor))
            } else {
                ActionOutcome::Continue
            },
            SelectionAction::Quit => ActionOutcome::Exit(SyncResult::Skipped),
            SelectionAction::Cancelled => ActionOutcome::Exit(SyncResult::Cancelled),
            _ => ActionOutcome::Continue,
        }),
        *old(cursor) < items@.len() ==> *final(cursor) < items@.len(),
{
    let n = items.len();
    match action {
        SelectionAction::CursorUp => {
            if *cursor > 0 {
                *cursor = *cursor - 1;
            }
            ActionOutcome::Continue
        },
        SelectionAction::CursorDown => {
            if n > 0 && *cursor < n - 1 {
                *cursor = *cursor + 1;
            }
            ActionOutcome::Continue
        },
        SelectionAction::ToggleSelection => {
            toggle_index(selected, *cursor);
            ActionOutcome::Continue
        },
        SelectionAction::ToggleSelectAll => {
            toggle_select_all(selected, n);
            ActionOutcome::Continue
        },
        SelectionAction::Done => ActionOutcome::SyncSelected,
        SelectionAction::ViewDetails => ActionOutcome::ViewDetails(*cursor),
        SelectionAction::ViewDirectoryFiles => {
            match &items[*cursor] {
                ChangeItem::Directory(d) => {
                    if d.files.len() <= MAX_VIEWABLE_FILES {
                        ActionOutcome::ViewDirectoryFiles(*cursor)
                    } else {
                        ActionOutcome::Continue
                    }
                },
                ChangeItem::File(_) => ActionOutcome::Continue,
            }
        },
        SelectionAction::Quit => ActionOutcome::Exit(SyncResult::Skipped),
        SelectionAction::Cancelled => ActionOutcome::Exit(SyncResult::Cancelled),
        SelectionAction::NoAction => ActionOutcome::Continue,
    }
}

/// Toggling the same entry twice leaves the selection as it was.
pub proof fn lemma_toggle_twice(selected: Set<usize>, i: usize)
    ensures
        toggle(toggle(selected, i), i) == selected,
{
    if selected.contains(i) {
        assert(selected.remove(i).insert(i) =~= selected);
    } else {
        assert(selected.insert(i).remove(i) =~= selected);
    }
}

/// "Select all" leaves either nothing selected (when as many indices as
/// entries were selected) or every entry selected.
pub proof fn lemma_toggle_all_outcome(selected: Set<usize>, n: usize)
    ensures
        toggle_all(selected, n) == Set::<usize>::empty() || forall|i: usize|
            i < n ==> #[trigger] toggle_all(selected, n).contains(i),
{
}

/// From an empty selection, "select all" twice selects nothing again.
pub proof fn lemma_toggle_all_twice_from_empty(n: usize)
    ensures
        toggle_all(toggle_all(Set::empty(), n), n) == Set::<usize>::empty(),
{
    if n > 0 {
        assert(Set::<usize>::empty().len() == 0);
        let all = all_indices(n);
        assert(Set::<usize>::empty().union(all) =~= all);
        lemma_all_indices_len(n);
    } else {
        assert(Set::<usize>::empty().len() == 0);
    }
}

/// There are `n` indices below `n`.
proof fn lemma_all_indices_len(n: usize)
    ensures
        all_indices(n).finite(),
        all_indices(n).len() == n,
    decreases n,
{
    if n == 0 {
        assert(all_indices(0) =~= Set::<usize>::empty());
    } else {
        let m = (n - 1) as usize;
        lemma_all_indices_len(m);
        assert(all_indices(n) =~= all_indices(m).insert(m));
    }
}

/// The entries that are selected from the start: those whose path one of
/// the patterns (the configured ones to always sync) matches.
pub open spec fn preselected(items: Seq<ChangeItem>, patterns: Seq<Seq<char>>) -> Set<usize> {
    Set::new(
        |i: usize| i < items.len() && any_pattern_matches(patterns, item_path(items[i as int])),
    )
}

/// Selects the entries whose path one of the patterns matches.
pub fn preselect(items: &Vec<ChangeItem>, patterns: &CompiledPatterns) -> (r: HashSet<usize>)
    ensures
        r@ == preselected(items@, patterns@),
{
    let mut selected: HashSet<usize> = HashSet::new();
    let mut i: usize = 0;
    while i < items.len()
        invariant
            i <= items.len(),
            selected@ == Set::new(
                |k: usize| k < i && any_pattern_matches(patterns@, item_path(items@[k as int])),
            ),
        decreases items.len() - i,
    {
        let hit = patterns.matches(items[i].path().as_str());
        if hit {
            selected.insert(i);
        }
        i = i + 1;
        assert(selected@ =~= Set::new(
            |k: usize| k < i && any_pattern_matches(patterns@, item_path(items@[k as int])),
        ));
    }
    assert(selected@ =~= preselected(items@, patterns@));
    selected
}

// ---------------------------------------------------------------------------
// Browsing the files of a directory entry, page by page
// ---------------------------------------------------------------------------

/// How many files one page shows.
pub const PAGE_SIZE: usize = 15;

/// How many pages `n` files take.
pub open spec fn total_pages(n: usize) -> int {
    (n + PAGE_SIZE - 1) / PAGE_SIZE as int
}

/// The state of browsing a directory's files.
pub struct DirectorySelection {
    pub file_count: usize,
    pub cursor: usize,
    pub page: usize,
    pub selected: HashSet<usize>,
}

/// What the caller is to do after a key while browsing a directory.
#[derive(Debug, Clone, Copy, PartialEq, Eq, Structural)]
pub enum DirectoryOutcome {
    /// Show the page again and wait for the next key.
    Continue,
    /// Done with the directory; this many files were marked.
    Done(usize),
    /// Show the diff of the file at the index; if the user wants it synced,
    /// select it.
    ViewDiff(usize),
    /// Back to the item list without marking anything.
    Back,
}

impl DirectorySelection {
    /// The cursor is on an existing file, on the page shown.
    pub open spec fn well_formed(&self) -> bool {
        &&& self.file_count > 0
        &&& self.cursor < self.file_count
        &&& self.page * PAGE_SIZE <= self.cursor < (self.page + 1) * PAGE_SIZE
    }

    /// Browsing starts on the first page with nothing selected.
    pub fn new(file_count: usize) -> (r: Self)
        requires
            file_count > 0,
        ensures
            r.well_formed(),
            r.file_count == file_count,
            r.cursor == 0,
            r.page == 0,
            r.selected@ == Set::<usize>::empty(),
    {
        DirectorySelection { file_count, cursor: 0, page: 0, selected: HashSet::new() }
    }

    /// The number of pages.
    pub fn total_pages(&self) -> (r: usize)
        ensures
            r == total_pages(self.file_count),
    {
        let n = self.file_count;
        if n % PAGE_SIZE == 0 {
            n / PAGE_SIZE
        } else {
            n / PAGE_SIZE + 1
        }
    }

    /// The range of file indices on the current page.
    pub fn page_range(&self) -> (r: (usize, usize))
        requires
            self.well_formed(),
        ensures
            r.0 == self.page * PAGE_SIZE,
            r.1 == if r.0 + PAGE_SIZE < self.file_count {
                r.0 + PAGE_SIZE
            } else {
                self.file_count as int
            },
    {
        let start = self.page * PAGE_SIZE;
        let end = if self.file_count - start > PAGE_SIZE {
            start + PAGE_SIZE
        } else {
            self.file_count
        };
        (start, end)
    }

    /// Performs a key while browsing: moves the cursor (turning pages as
    /// needed), changes the selection, or tells the caller what to do.
    pub fn handle_key(&mut self, pressed: bool, key: KeyInput) -> (r: DirectoryOutcome)
        requires
            old(self).well_formed(),
        ensures
            final(self).well_formed(),
            final(self).file_count == old(self).file_count,
            !pressed ==> r == DirectoryOutcome::Continue && final(self).cursor == old(self).cursor
                && final(self).page == old(self).page && final(self).selected@ == old(
                self,
            ).selected@,
            pressed && key == KeyInput::Up ==> final(self).cursor == cursor_up(old(self).cursor),
            pressed && key == KeyInput::Down ==> final(self).cursor == cursor_down(
                old(self).cursor,
                old(self).file_count,
            ),
            pressed && key == KeyInput::Char(' ') ==> final(self).selected@ == toggle(
                old(self).selected@,
                old(self).cursor,
            ),
            pressed && key == KeyInput::Char('a') ==> final(self).selected@ == toggle_all(
                old(self).selected@,
                old(self).file_count,
            ),
            pressed && key == KeyInput::Char('d') ==> r == DirectoryOutcome::Done(
                old(self).selected@.len() as usize,
            ),
            pressed && key == KeyInput::Enter ==> r == DirectoryOutcome::ViewDiff(old(self).cursor),
            pressed && key == KeyInput::Char('q') ==> r == DirectoryOutcome::Back,
            pressed && key == KeyInput::Char('n') ==> final(self).page == (if old(self).page + 1
                < total_pages(old(self).file_count) {
                old(self).page + 1
            } else {
                old(self).page as int
            }) && (old(self).page + 1 < total_pages(old(self).file_count) ==> final(self).cursor
                == final(self).page * PAGE_SIZE),
            pressed && key == KeyInput::Char('p') ==> final(self).page == (if old(self).page > 0 {
                old(self).page - 1
            } else {
                old(self).page as int
            }) && (old(self).page > 0 ==> final(self).cursor == final(self).page * PAGE_SIZE),
            !(pressed && (key == KeyInput::Char('d') || key == KeyInput::Enter || key
                == KeyInput::Char('q'))) ==> r == DirectoryOutcome::Continue,
            !(pressed && (key == KeyInput::Char(' ') || key == KeyInput::Char('a')))
                ==> final(self).selected@ == old(self).selected@,
            !(pressed && (key == KeyInput::Up || key == KeyInput::Down || key == KeyInput::Char('n')
                || key == KeyInput::Char('p'))) ==> final(self).cursor == old(self).cursor
                && final(self).page == old(self).page,
            pressed && key == KeyInput::Char('n') && !(old(self).page + 1 < total_pages(
                old(self).file_count,
            )) ==> final(self).cursor == old(self).cursor,
            pressed && key == KeyInput::Char('p') && old(self).page == 0 ==> final(self).cursor
                == old(self).cursor,
    {
        if !pressed {
            return DirectoryOutcome::Continue;
        }
        let n = self.file_count;
        match key {
            KeyInput::Up => {
                if self.cursor > 0 {
                    self.cursor = self.cursor - 1;
                    if self.cursor < self.page * PAGE_SIZE {
                        self.page = self.page - 1;
                    }
                }
                DirectoryOutcome::Continue
            },
            KeyInput::Down => {
                if self.cursor < n - 1 {
                    self.cursor = self.cursor + 1;
                    if self.cursor >= (self.page + 1) * PAGE_SIZE {
                        self.page = self.page + 1;
                    }
                }
                DirectoryOutcome::Continue
            },
            KeyInput::Char(' ') => {
                toggle_index(&mut self.selected, self.cursor);
                DirectoryOutcome::Continue
            },
            KeyInput::Char('a') => {
                toggle_select_all(&mut self.selected, n);
                DirectoryOutcome::Continue
            },
            KeyInput::Char('d') => DirectoryOutcome::Done(self.selected.len()),
            KeyInput::Enter => DirectoryOutcome::ViewDiff(self.cursor),
            KeyInput::Char('n') => {
                let pages = self.total_pages();
                if self.page < pages - 1 {
                    proof {
                        lemma_last_page_start(n, self.page);
                    }
                    self.page = self.page + 1;
                    self.cursor = self.page * PAGE_SIZE;
                }
                DirectoryOutcome::Continue
            },
            KeyInput::Char('p') => {
                if self.page > 0 {
                    self.page = self.page - 1;
                    self.cursor = self.page * PAGE_SIZE;
                }
                DirectoryOutcome::Continue
            },
            KeyInput::Char('q') => DirectoryOutcome::Back,
            _ => DirectoryOutcome::Continue,
        }
    }
}

/// A page before the last one is followed by a page that starts on a file.
proof fn lemma_last_page_start(n: usize, page: usize)
    requires
        page + 1 < total_pages(n),
    ensures
        (page + 1) * PAGE_SIZE < n,
{
    assert((page + 1) * 15 < n) by (nonlinear_arith)
        requires
            page + 1 < (n + 14) / 15,
    ;
}

// ---------------------------------------------------------------------------
// Typed answers
// ---------------------------------------------------------------------------

/// The answer to "sync all, select, or none".
#[derive(Debug, Clone, Copy, PartialEq, Eq, Structural)]
pub enum SyncChoice {
    All,
    Select,
    Nothing,
    Invalid,
}

/// The meaning of an answer, after trimming and lowercasing.
pub open spec fn sync_choice_of(answer: Seq<char>) -> SyncChoice {
    if answer == "a"@ {
        SyncChoice::All
    } else if answer == "s"@ {
        SyncChoice::Select
    } else if answer == ""@ || answer == "n"@ {
        SyncChoice::Nothing
    } else {
        SyncChoice::Invalid
    }
}

/// Reads the answer to "sync all, select, or none" (case-insensitive; an
/// empty answer means none).
pub fn parse_sync_choice(input: &str) -> (r: SyncChoice)
    ensures
        r == sync_choice_of(spec_to_lowercase(trim(input@))),
{
    let t = trim_str(input);
    let c = to_lowercase(t.as_str());
    let s = c.as_str();
    if str_eq(s, "a") {
        SyncChoice::All
    } else if str_eq(s, "s") {
        SyncChoice::Select
    } else if str_eq(s, "") || str_eq(s, "n") {
        SyncChoice::Nothing
    } else {
        SyncChoice::Invalid
    }
}

/// Whether an answer to a diff is "yes, sync it" (`y`, any case).
pub fn is_sync_answer(input: &str) -> (r: bool)
    ensures
        r == (spec_to_lowercase(trim(input@)) == "y"@),
{
    let t = trim_str(input);
    let c = to_lowercase(t.as_str());
    str_eq(c.as_str(), "y")
}

/// The answer in the summary of a directory entry.
#[derive(Debug, Clone, Copy, PartialEq, Eq, Structural)]
pub enum DirectoryChoice {
    Sync,
    RememberSkip,
    RememberInclude,
    ViewFiles,
    Skip,
}

/// The meaning of a trimmed answer for a directory with `n` files: `y`
/// syncs, `r` remembers to skip, `R` remembers to always sync, `v` browses the
/// files when there are few enough, anything else skips.
pub open spec fn directory_choice_of(answer: Seq<char>, n: usize) -> DirectoryChoice {
    if answer == "y"@ {
        DirectoryChoice::Sync
    } else if answer == "r"@ {
        DirectoryChoice::RememberSkip
    } else if answer == "R"@ {
        DirectoryChoice::RememberInclude
    } else if answer == "v"@ && n <= MAX_VIEWABLE_FILES {
        DirectoryChoice::ViewFiles
    } else {
        DirectoryChoice::Skip
    }
}

/// Reads the answer in the summary of a directory with `file_count` files.
pub fn parse_directory_choice(input: &str, file_count: usize) -> (r: DirectoryChoice)
    ensures
        r == directory_choice_of(trim(input@), file_count),
{
    let t = trim_str(input);
    let s = t.as_str();
    if str_eq(s, "y") {
        DirectoryChoice::Sync
    } else if str_eq(s, "r") {
        DirectoryChoice::RememberSkip
    } else if str_eq(s, "R") {
        DirectoryChoice::RememberInclude
    } else if str_eq(s, "v") && file_count <= MAX_VIEWABLE_FILES {
        DirectoryChoice::ViewFiles
    } else {
        DirectoryChoice::Skip
    }
}

/// The pattern that stands for everything below a directory: `dir/**`.
pub fn directory_pattern(dir: &str) -> (r: String)
    ensures
        r@ == dir@ + "/**"@,
{
    let mut out: Vec<char> = Vec::new();
    crate::text::push_str(&mut out, dir);
    crate::text::push_str(&mut out, "/**");
    crate::text::chars_to_string(&out)
}

} // verus!
