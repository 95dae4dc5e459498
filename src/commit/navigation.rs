use vstd::arithmetic::div_mod::{
    lemma_add_mod_noop_right, lemma_fundamental_div_mod_converse, lemma_mod_bound, lemma_small_mod,
};
use vstd::prelude::*;

use crate::commit::text::{pop_char, push_char};

verus! {

/// Stepping back by one modulo `len` is the predecessor, or `len - 1` at 0.
proof fn lemma_mod_predecessor(x: int, len: int)
    requires
        0 <= x < len,
    ensures
        (x + len - 1) % len == if x == 0 { len - 1 } else { x - 1 },
{
    if x == 0 {
        lemma_small_mod((len - 1) as nat, len as nat);
    } else {
        lemma_fundamental_div_mod_converse(x + len - 1, len, 1, x - 1);
    }
}

/// The position of the highlight on a selection list, as mathematical
/// integers: the selected entry, the highlighted row of the window, and the
/// list index shown on the window's first row.
pub struct SelectionView {
    pub selected: int,
    pub cursor: int,
    pub offset: int,
}

/// The row at which the highlight sticks while the window scrolls.
pub open spec fn stick_pos(window_size: int) -> int {
    window_size / 2
}

/// The state after one step down on a list of `len` entries.
pub open spec fn step_down(s: SelectionView, len: int, window_size: int) -> SelectionView {
    let selected = (s.selected + 1) % len;
    if s.cursor < stick_pos(window_size) {
        SelectionView { selected, cursor: s.cursor + 1, offset: s.offset }
    } else {
        SelectionView { selected, cursor: s.cursor, offset: (s.offset + 1) % len }
    }
}

/// The state after one step up on a list of `len` entries.
pub open spec fn step_up(s: SelectionView, len: int, window_size: int) -> SelectionView {
    let selected = (s.selected + len - 1) % len;
    if s.cursor > 0 && s.cursor > stick_pos(window_size) {
        SelectionView { selected, cursor: s.cursor - 1, offset: s.offset }
    } else {
        SelectionView { selected, cursor: s.cursor, offset: (s.offset + len - 1) % len }
    }
}

/// The invariant of a selection state on a list of `len` entries shown
/// through a window of `window_size` rows.
pub open spec fn selection_wf(s: SelectionView, len: int, window_size: int) -> bool {
    &&& 0 <= s.selected < len
    &&& 0 <= s.cursor < window_size
    &&& 0 <= s.offset < len
}

/// The state held in three machine integers, as mathematical integers.
pub open spec fn view_of(selected: usize, cursor: usize, offset: usize) -> SelectionView {
    SelectionView { selected: selected as int, cursor: cursor as int, offset: offset as int }
}

/// The state after a sequence of steps, `true` for a step down and `false`
/// for a step up.
pub open spec fn run_moves(
    s: SelectionView,
    moves: Seq<bool>,
    len: int,
    window_size: int,
) -> SelectionView
    decreases moves.len(),
{
    if moves.len() == 0 {
        s
    } else {
        let next = if moves[0] {
            step_down(s, len, window_size)
        } else {
            step_up(s, len, window_size)
        };
        run_moves(next, moves.drop_first(), len, window_size)
    }
}

/// The state after `k` steps down.
pub open spec fn repeat_down(s: SelectionView, k: nat, len: int, window_size: int) -> SelectionView
    decreases k,
{
    if k == 0 {
        s
    } else {
        step_down(repeat_down(s, (k - 1) as nat, len, window_size), len, window_size)
    }
}

/// One step in either direction keeps a selection state well formed.
pub proof fn lemma_step_keeps_bounds(s: SelectionView, len: int, window_size: int)
    requires
        len >= 1,
        window_size >= 1,
        selection_wf(s, len, window_size),
    ensures
        selection_wf(step_down(s, len, window_size), len, window_size),
        selection_wf(step_up(s, len, window_size), len, window_size),
{
    lemma_mod_bound(s.selected + 1, len);
    lemma_mod_bound(s.offset + 1, len);
    lemma_mod_bound(s.selected + len - 1, len);
    lemma_mod_bound(s.offset + len - 1, len);
}

/// Whatever sequence of steps down and up is taken from a well-formed state,
/// the selected index and the window's offset stay within the list, and the
/// highlighted row within the window.
pub proof fn lemma_moves_keep_bounds(s: SelectionView, moves: Seq<bool>, len: int, window_size: int)
    requires
        len >= 1,
        window_size >= 1,
        selection_wf(s, len, window_size),
    ensures
        selection_wf(run_moves(s, moves, len, window_size), len, window_size),
    decreases moves.len(),
{
    if moves.len() > 0 {
        lemma_step_keeps_bounds(s, len, window_size);
        let next = if moves[0] {
            step_down(s, len, window_size)
        } else {
            step_up(s, len, window_size)
        };
        lemma_moves_keep_bounds(next, moves.drop_first(), len, window_size);
    }
}

/// A step down followed by a step up selects the entry selected before.
pub proof fn lemma_down_then_up_restores_selected(s: SelectionView, len: int, window_size: int)
    requires
        len >= 1,
        0 <= s.selected < len,
    ensures
        step_up(step_down(s, len, window_size), len, window_size).selected == s.selected,
{
    let d = step_down(s, len, window_size);
    if s.selected + 1 < len {
        lemma_small_mod((s.selected + 1) as nat, len as nat);
    } else {
        lemma_fundamental_div_mod_converse(s.selected + 1, len, 1, 0);
    }
    lemma_mod_predecessor(d.selected, len);
}

/// After `k` steps down the selected index has advanced by `k`, wrapping at
/// the end of the list: from any start it takes `len` steps down to come
/// back, passing each entry once.
pub proof fn lemma_repeat_down_selected(s: SelectionView, k: nat, len: int, window_size: int)
    requires
        len >= 1,
        0 <= s.selected < len,
    ensures
        repeat_down(s, k, len, window_size).selected == (s.selected + k) % len,
    decreases k,
{
    if k == 0 {
        lemma_small_mod(s.selected as nat, len as nat);
    } else {
        lemma_repeat_down_selected(s, (k - 1) as nat, len, window_size);
        lemma_add_mod_noop_right(1, s.selected + k - 1, len);
    }
}

/// Moves the highlight one entry down, wrapping from the last entry to the
/// first. The highlight moves within the window until it reaches the middle
/// row; from there on the window scrolls instead.
pub fn move_down(
    selected: &mut usize,
    cursor: &mut usize,
    offset: &mut usize,
    len: usize,
    window_size: usize,
)
    requires
        len >= 1,
        *old(selected) < len,
        *old(offset) < len,
    ensures
        view_of(*final(selected), *final(cursor), *final(offset)) == step_down(
            view_of(*old(selected), *old(cursor), *old(offset)),
            len as int,
            window_size as int,
        ),
{
    *selected = (*selected + 1) % len;
    let stick_pos: usize = window_size / 2;
    if *cursor < stick_pos {
        *cursor = *cursor + 1;
    } else {
        *offset = (*offset + 1) % len;
    }
}

/// Moves the highlight one entry up, wrapping from the first entry to the
/// last. The highlight moves within the window while it is below the middle
/// row; otherwise the window scrolls.
pub fn move_up(
    selected: &mut usize,
    cursor: &mut usize,
    offset: &mut usize,
    len: usize,
    window_size: usize,
)
    requires
        len >= 1,
        *old(selected) < len,
        *old(offset) < len,
    ensures
        view_of(*final(selected), *final(cursor), *final(offset)) == step_up(
            view_of(*old(selected), *old(cursor), *old(offset)),
            len as int,
            window_size as int,
        ),
{
    let stick_pos: usize = window_size / 2;
    *selected = if *selected == 0 { len - 1 } else { *selected - 1 };
    proof {
        lemma_mod_predecessor(*old(selected) as int, len as int);
    }
    if *cursor > 0 && *cursor > stick_pos {
        *cursor = *cursor - 1;
    } else {
        let prev: usize = if *offset == 0 { len - 1 } else { *offset - 1 };
        proof {
            lemma_mod_predecessor(*old(offset) as int, len as int);
        }
        *offset = prev;
    }
}

/// The list index shown on row `i` of the window. A list that fits in the
/// window is shown from its start, without wrapping; a longer one from the
/// offset on, wrapping at its end.
pub open spec fn shown_index(i: int, offset: int, len: int, window_size: int) -> int {
    if len <= window_size {
        i
    } else {
        (offset + i) % len
    }
}

/// The number of rows that a window shows.
pub open spec fn shown_rows(len: int, window_size: int) -> int {
    if len <= window_size {
        len
    } else {
        window_size
    }
}

/// The entries that the window shows, top row first: for each row the list
/// index shown there, and whether it is the selected entry.
pub fn visible_entries(selected: usize, offset: usize, len: usize, window_size: usize) -> (r: Vec<
    (usize, bool),
>)
    requires
        len > window_size ==> offset < len,
    ensures
        r.len() == shown_rows(len as int, window_size as int),
        forall|i: int|
            0 <= i < r.len() ==> r[i].0 as int == shown_index(
                i,
                offset as int,
                len as int,
                window_size as int,
            ) && r[i].1 == (r[i].0 == selected),
{
    let rows: usize = if len <= window_size { len } else { window_size };
    let mut r: Vec<(usize, bool)> = Vec::new();
    let mut i: usize = 0;
    while i < rows
        invariant
            rows == shown_rows(len as int, window_size as int),
            len > window_size ==> offset < len,
            i <= rows,
            r.len() == i,
            forall|k: int|
                0 <= k < i ==> r[k].0 as int == shown_index(
                    k,
                    offset as int,
                    len as int,
                    window_size as int,
                ),
            forall|k: int| 0 <= k < i ==> r[k].1 == (r[k].0 == selected),
        decreases rows - i,
    {
        let idx: usize = if len <= window_size {
            i
        } else if i < len - offset {
            proof {
                lemma_small_mod((offset + i) as nat, len as nat);
            }
            offset + i
        } else {
            proof {
                lemma_fundamental_div_mod_converse(offset + i, len as int, 1, offset + i - len);
            }
            i - (len - offset)
        };
        r.push((idx, idx == selected));
        i = i + 1;
    }
    r
}

/// A key press, as the wizard reads it.
#[derive(Clone, Copy, Debug, PartialEq, Eq, Structural)]
pub enum Key {
    /// A character key; `control` tells whether Ctrl was held.
    Char { ch: char, control: bool },
    Backspace,
    Enter,
    Esc,
    Up,
    Down,
    /// Any other key, which the wizard ignores.
    Other,
}

/// Whether a key is the interrupt combination Ctrl+C.
pub open spec fn is_interrupt(key: Key) -> bool {
    key == (Key::Char { ch: 'c', control: true })
}

/// What a selection step does after one key press.
#[derive(Clone, Copy, Debug, PartialEq, Eq, Structural)]
pub enum SelectOutcome {
    /// The step goes on, with the highlight moved or not.
    Pending,
    /// Enter confirmed the entry at this index.
    Chosen(usize),
    /// Ctrl+C: the whole program is to stop.
    Abort,
}

/// Handles one key press of a selection step: Down and Up move the
/// highlight, Enter confirms the selected entry, Ctrl+C aborts, and every
/// other key leaves the state as it is.
pub fn handle_input(
    key: Key,
    selected: &mut usize,
    cursor: &mut usize,
    offset: &mut usize,
    len: usize,
    window_size: usize,
) -> (r: SelectOutcome)
    requires
        len >= 1,
        *old(selected) < len,
        *old(offset) < len,
    ensures
        key == Key::Down ==> view_of(*final(selected), *final(cursor), *final(offset)) == step_down(
            view_of(*old(selected), *old(cursor), *old(offset)),
            len as int,
            window_size as int,
        ),
        key == Key::Up ==> view_of(*final(selected), *final(cursor), *final(offset)) == step_up(
            view_of(*old(selected), *old(cursor), *old(offset)),
            len as int,
            window_size as int,
        ),
        key != Key::Down && key != Key::Up ==> *final(selected) == *old(selected) && *final(cursor)
            == *old(cursor) && *final(offset) == *old(offset),
        r == if key == Key::Enter {
            SelectOutcome::Chosen(*old(selected))
        } else if is_interrupt(key) {
            SelectOutcome::Abort
        } else {
            SelectOutcome::Pending
        },
{
    match key {
        Key::Down => {
            move_down(selected, cursor, offset, len, window_size);
            SelectOutcome::Pending
        },
        Key::Up => {
            move_up(selected, cursor, offset, len, window_size);
            SelectOutcome::Pending
        },
        Key::Enter => SelectOutcome::Chosen(*selected),
        Key::Char { ch, control } => {
            if control && ch == 'c' {
                SelectOutcome::Abort
            } else {
                SelectOutcome::Pending
            }
        },
        _ => SelectOutcome::Pending,
    }
}

/// What the line editor does after one key press.
#[derive(Clone, Copy, Debug, PartialEq, Eq, Structural)]
pub enum EditAction {
    /// Nothing to show; keep reading.
    Ignore,
    /// A character was appended: echo it, keep reading.
    Echo(char),
    /// The last character was removed: erase it on screen, keep reading.
    Erase,
    /// The line is finished; the buffer holds it.
    Finish,
    /// Ctrl+C: the whole program is to stop.
    Abort,
}

/// The line editor's buffer after one key press.
pub open spec fn edit_buffer(buffer: Seq<char>, key: Key) -> Seq<char> {
    match key {
        Key::Char { ch, control } => if control && ch == 'c' {
            buffer
        } else {
            buffer.push(ch)
        },
        Key::Backspace => if buffer.len() > 0 {
            buffer.drop_last()
        } else {
            buffer
        },
        Key::Esc => Seq::empty(),
        _ => buffer,
    }
}

/// The line editor's action after one key press.
pub open spec fn edit_action(buffer: Seq<char>, key: Key) -> EditAction {
    match key {
        Key::Char { ch, control } => if control && ch == 'c' {
            EditAction::Abort
        } else {
            EditAction::Echo(ch)
        },
        Key::Backspace => if buffer.len() > 0 {
            EditAction::Erase
        } else {
            EditAction::Ignore
        },
        Key::Enter => EditAction::Finish,
        Key::Esc => EditAction::Finish,
        _ => EditAction::Ignore,
    }
}

/// Handles one key press of the line editor: a character is appended,
/// Backspace removes the last character if there is one, Enter finishes the
/// line, Esc empties it and finishes, Ctrl+C aborts.
pub fn handle_prompt_input(buffer: &mut String, key: Key) -> (r: EditAction)
    ensures
        final(buffer)@ == edit_buffer(old(buffer)@, key),
        r == edit_action(old(buffer)@, key),
{
    match key {
        Key::Char { ch, control } => {
            if control && ch == 'c' {
                EditAction::Abort
            } else {
                push_char(buffer, ch);
                EditAction::Echo(ch)
            }
        },
        Key::Backspace => {
            match pop_char(buffer) {
                Some(_) => EditAction::Erase,
                None => EditAction::Ignore,
            }
        },
        Key::Enter => EditAction::Finish,
        Key::Esc => {
            *buffer = String::new();
            EditAction::Finish
        },
        _ => EditAction::Ignore,
    }
}

/// A selection list's state: which entry is selected, which row of the
/// window is highlighted, and which entry the window starts at.
pub struct SelectionList {
    selected: usize,
    cursor: usize,
    offset: usize,
    len: usize,
    window_size: usize,
}

impl View for SelectionList {
    type V = SelectionView;

    closed spec fn view(&self) -> SelectionView {
        view_of(self.selected, self.cursor, self.offset)
    }
}

impl SelectionList {
    /// The number of entries of the list.
    pub closed spec fn list_len(&self) -> int {
        self.len as int
    }

    /// The number of rows of the window.
    pub closed spec fn rows(&self) -> int {
        self.window_size as int
    }

    #[verifier::type_invariant]
    closed spec fn inv(&self) -> bool {
        &&& self.len >= 1
        &&& self.window_size >= 1
        &&& selection_wf(self@, self.len as int, self.window_size as int)
    }

    /// A selection over `len` entries, shown `window_size` at a time, with the
    /// first entry selected on the top row. `None` for an empty list or a
    /// window without rows.
    pub fn new(len: usize, window_size: usize) -> (r: Option<SelectionList>)
        ensures
            r is Some <==> len >= 1 && window_size >= 1,
            r matches Some(l) ==> l@ == (SelectionView { selected: 0, cursor: 0, offset: 0 })
                && l.list_len() == len && l.rows() == window_size,
    {
        if len >= 1 && window_size >= 1 {
            Some(SelectionList { selected: 0, cursor: 0, offset: 0, len, window_size })
        } else {
            None
        }
    }

    /// The index of the selected entry.
    pub fn selected(&self) -> (r: usize)
        ensures
            r == self@.selected,
            r < self.list_len(),
    {
        proof {
            use_type_invariant(self);
        }
        self.selected
    }

    /// Handles one key press; see `handle_input`. The state stays well
    /// formed whatever the key.
    pub fn press(&mut self, key: Key) -> (r: SelectOutcome)
        ensures
            final(self).list_len() == old(self).list_len(),
            final(self).rows() == old(self).rows(),
            selection_wf(final(self)@, final(self).list_len(), final(self).rows()),
            key == Key::Down ==> final(self)@ == step_down(
                old(self)@,
                old(self).list_len(),
                old(self).rows(),
            ),
            key == Key::Up ==> final(self)@ == step_up(old(self)@, old(self).list_len(), old(self).rows()),
            key != Key::Down && key != Key::Up ==> final(self)@ == old(self)@,
            r == if key == Key::Enter {
                SelectOutcome::Chosen(old(self)@.selected as usize)
            } else if is_interrupt(key) {
                SelectOutcome::Abort
            } else {
                SelectOutcome::Pending
            },
    {
        proof {
            use_type_invariant(&*self);
            lemma_step_keeps_bounds(self@, self.len as int, self.window_size as int);
        }
        let mut selected = self.selected;
        let mut cursor = self.cursor;
        let mut offset = self.offset;
        let r = handle_input(key, &mut selected, &mut cursor, &mut offset, self.len, self.window_size);
        self.selected = selected;
        self.cursor = cursor;
        self.offset = offset;
        r
    }

    /// The entries that the window shows; see `visible_entries`.
    pub fn visible(&self) -> (r: Vec<(usize, bool)>)
        ensures
            r.len() == shown_rows(self.list_len(), self.rows()),
            forall|i: int|
                0 <= i < r.len() ==> r[i].0 as int == shown_index(
                    i,
                    self@.offset,
                    self.list_len(),
                    self.rows(),
                ) && r[i].1 == (r[i].0 == self@.selected),
    {
        proof {
            use_type_invariant(self);
        }
        visible_entries(self.selected, self.offset, self.len, self.window_size)
    }
}

} // verus!
