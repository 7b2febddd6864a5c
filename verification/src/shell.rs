//! The decisions of the shell window: how far to scroll, where its panes
//! stand, what it offers for completion, and which command it puts in the
//! command line.

use vstd::prelude::*;
use vstd::string::{StrSliceExecFns, StringExecFns};
use crate::args::{cut_args_notrim, printable_line, Args};
use crate::chars::{
    decimal, from_chars, push_decimal, push_digit, push_signed, push_spaces, push_str,
    signed_decimal, spaces, to_chars, views,
};
use crate::color::{bg_escape, code_escape, fg_escape, AnsiColor};
use crate::edit::{char_is_whitespace, is_whitespace};
use crate::execute::three_digits;
use crate::execute::Job;
use crate::num::{clamp_i32, divide, held_i32, max_int, quotient};
use crate::text::{CursorState, Vector2i};

verus! {

/// What asks the main pane to scroll.
#[derive(Clone, Copy, Debug, PartialEq, Eq, Structural)]
pub enum ScrollType {
    CursorUp,
    CursorDown,
    PageUp,
    PageDown,
    MouseWheelUp,
    MouseWheelDown,
}

/// The position and the size of each pane of the window.
#[derive(Clone, Copy, Debug, PartialEq, Eq, Structural)]
pub struct Panes {
    pub main_position: Vector2i,
    pub main_size: Vector2i,
    pub status_position: Vector2i,
    pub status_size: Vector2i,
    pub command_position: Vector2i,
    pub command_size: Vector2i,
    pub info_position: Vector2i,
    pub info_size: Vector2i,
}

/// The number of whole lines that the main pane shows: those that fit into
/// the window above the two lines of the status and the command pane.
pub open spec fn page_lines(window_height: int, font_height: int) -> int
    recommends
        font_height > 0,
{
    quotient(window_height - font_height * 2, font_height)
}

/// The number of lines by which a request scrolls: one for the cursor keys,
/// four for the mouse wheel, a page less one line for the page keys; up is
/// negative.
pub open spec fn scroll_amount(scroll_type: ScrollType, page: int) -> int {
    match scroll_type {
        ScrollType::CursorUp => -1,
        ScrollType::CursorDown => 1,
        ScrollType::PageUp => -page + 1,
        ScrollType::PageDown => page - 1,
        ScrollType::MouseWheelUp => -4,
        ScrollType::MouseWheelDown => 4,
    }
}

/// The scroll offset after scrolling by `amount` lines: never below the
/// latest content, none at all while everything fits on one page, and never
/// further up than to the first page.
pub open spec fn scrolled(offset: int, amount: int, lines: int, page: int) -> int {
    let moved = offset + amount;
    if moved > 0 || lines <= page {
        0
    } else if -moved > lines - page {
        -lines + page
    } else {
        moved
    }
}

/// The cursor state for a window that has or has not the focus: an active
/// cursor becomes inactive without it, and the reverse.
pub open spec fn focus_cursor_state(state: CursorState, active: bool) -> CursorState {
    match (state, active) {
        (CursorState::NormalActive, false) => CursorState::NormalInactive,
        (CursorState::NormalInactive, true) => CursorState::NormalActive,
        (CursorState::InsertActive, false) => CursorState::InsertInactive,
        (CursorState::InsertInactive, true) => CursorState::InsertActive,
        _ => state,
    }
}

/// The panes of a window of the size given, for lines of the height given:
/// from the top the main pane, one line of status, one line for the
/// command, and three lines of information at the bottom.
pub open spec fn panes_of(width: int, height: int, font_height: int) -> Panes {
    let main_height = height - font_height * 5;
    Panes {
        main_position: Vector2i { x: 0, y: 0 },
        main_size: Vector2i { x: width as i32, y: main_height as i32 },
        status_position: Vector2i { x: 0, y: main_height as i32 },
        status_size: Vector2i { x: width as i32, y: font_height as i32 },
        command_position: Vector2i { x: 0, y: (main_height + font_height) as i32 },
        command_size: Vector2i { x: width as i32, y: font_height as i32 },
        info_position: Vector2i { x: 0, y: (main_height + font_height * 2) as i32 },
        info_size: Vector2i { x: width as i32, y: (font_height * 3) as i32 },
    }
}

/// The selection after a step of `delta` among `count` entries: held to the
/// entries.
pub open spec fn stepped(selection: int, delta: int, count: int) -> int {
    let moved = selection + delta;
    let low = if moved < 0 {
        0
    } else {
        moved
    };
    if low > count - 1 {
        count - 1
    } else {
        low
    }
}

/// The entry at or before `selection` that is not empty, or the first.
pub open spec fn filled_entry(entries: Seq<Seq<char>>, selection: int) -> int
    decreases selection,
{
    if selection <= 0 || selection >= entries.len() || entries[selection].len() > 0 {
        selection
    } else {
        filled_entry(entries, selection - 1)
    }
}

/// Whether `text` starts with `prefix`.
pub open spec fn starts_with(text: Seq<char>, prefix: Seq<char>) -> bool {
    prefix.len() <= text.len() && text.take(prefix.len() as int) == prefix
}

/// The command lines of the last `n` jobs, the latest first.
pub open spec fn recent_commands(jobs: Seq<Job>, n: int) -> Seq<Seq<char>>
    decreases n,
{
    if n <= 0 || n > jobs.len() {
        Seq::empty()
    } else {
        recent_commands(jobs, n - 1).push(printable_line(views(jobs[jobs.len() - n].args@)))
    }
}

/// Those of the command lines of the last `n` jobs that start with
/// `prefix`, the latest first.
pub open spec fn recent_matches(jobs: Seq<Job>, prefix: Seq<char>, n: int) -> Seq<Seq<char>>
    decreases n,
{
    if n <= 0 || n > jobs.len() {
        Seq::empty()
    } else {
        let line = printable_line(views(jobs[jobs.len() - n].args@));
        if starts_with(line, prefix) {
            recent_matches(jobs, prefix, n - 1).push(line)
        } else {
            recent_matches(jobs, prefix, n - 1)
        }
    }
}

/// The command line that results when `selection` is taken for the command
/// line `typed`: the selection itself where `typed` has at most one
/// argument, and else `typed` with its last argument replaced by the
/// selection.
pub open spec fn completed(typed: Seq<char>, selection: Seq<char>) -> Seq<char> {
    let args = cut_args_notrim(typed);
    if args.len() <= 1 {
        selection
    } else {
        printable_line(args.drop_last().push(selection))
    }
}

/// Tells whether `text` starts with `prefix`.
pub fn text_starts_with(text: &Vec<char>, prefix: &Vec<char>) -> (r: bool)
    ensures
        r == starts_with(text@, prefix@),
{
    if prefix.len() > text.len() {
        return false;
    }
    let mut i: usize = 0;
    while i < prefix.len()
        invariant
            i <= prefix.len() <= text.len(),
            forall|k: int| 0 <= k < i ==> text@[k] == prefix@[k],
        decreases prefix.len() - i,
    {
        if text[i] != prefix[i] {
            proof {
                assert(text@.take(prefix@.len() as int)[i as int] != prefix@[i as int]);
            }
            return false;
        }
        i += 1;
    }
    proof {
        assert(text@.take(prefix@.len() as int) =~= prefix@);
    }
    true
}

/// The number of whole lines that the main pane shows.
pub fn main_window_line_count(window_height: i32, font_height: i32) -> (page: i64)
    requires
        font_height > 0,
    ensures
        page == page_lines(window_height as int, font_height as int),
        -6442450942 <= page <= 2147483647,
{
    let page = divide(window_height as i64 - font_height as i64 * 2, font_height as i64);
    page
}

/// The scroll offset of the main pane after a request to scroll, for a
/// buffer of `lines` lines. A result beyond the range of `i32` is held to
/// that range.
pub fn scroll(
    offset: i32,
    scroll_type: ScrollType,
    lines: usize,
    window_height: i32,
    font_height: i32,
) -> (r: i32)
    requires
        font_height > 0,
        lines <= i32::MAX,
    ensures
        r == {
            let page = page_lines(window_height as int, font_height as int);
            let exact = scrolled(offset as int, scroll_amount(scroll_type, page), lines as int, page);
            held_i32(exact)
        },
        r <= 0,
{
    let page = main_window_line_count(window_height, font_height);
    let amount: i64 = match scroll_type {
        ScrollType::CursorUp => -1,
        ScrollType::CursorDown => 1,
        ScrollType::PageUp => -page + 1,
        ScrollType::PageDown => page - 1,
        ScrollType::MouseWheelUp => -4,
        ScrollType::MouseWheelDown => 4,
    };
    let moved = offset as i64 + amount;
    let count = lines as i64;
    if moved > 0 || count <= page {
        0
    } else if -moved > count - page {
        clamp_i32(-count + page)
    } else {
        clamp_i32(moved)
    }
}

/// The cursor state for a window that has or has not the focus.
pub fn set_active(state: CursorState, active: bool) -> (r: CursorState)
    ensures
        r == focus_cursor_state(state, active),
{
    match (state, active) {
        (CursorState::NormalActive, false) => CursorState::NormalInactive,
        (CursorState::NormalInactive, true) => CursorState::NormalActive,
        (CursorState::InsertActive, false) => CursorState::InsertInactive,
        (CursorState::InsertInactive, true) => CursorState::InsertActive,
        _ => state,
    }
}

/// The panes of a window of the size given, for lines of the height given.
pub fn set_window_sizes(width: i32, height: i32, font_height: i32) -> (panes: Panes)
    requires
        0 <= font_height,
        font_height * 5 <= i32::MAX,
        0 <= height,
    ensures
        panes == panes_of(width as int, height as int, font_height as int),
{
    let main_height = height - font_height * 5;
    Panes {
        main_position: Vector2i { x: 0, y: 0 },
        main_size: Vector2i { x: width, y: main_height },
        status_position: Vector2i { x: 0, y: main_height },
        status_size: Vector2i { x: width, y: font_height },
        command_position: Vector2i { x: 0, y: main_height + font_height },
        command_size: Vector2i { x: width, y: font_height },
        info_position: Vector2i { x: 0, y: main_height + font_height * 2 },
        info_size: Vector2i { x: width, y: font_height * 3 },
    }
}

/// The selection after a step of `delta` among the entries, moved back
/// over the empty entries that fill up the last column.
pub fn change_selection(entries: &Vec<String>, selection: usize, delta: i32) -> (r: usize)
    requires
        entries@.len() > 0,
        entries@.len() <= i32::MAX,
        selection < entries@.len(),
    ensures
        r == filled_entry(
            views(entries@),
            stepped(selection as int, delta as int, entries@.len() as int),
        ),
        r < entries@.len(),
{
    let moved = selection as i64 + delta as i64;
    let low = if moved < 0 {
        0
    } else {
        moved
    };
    let count = entries.len() as i64;
    let held = if low > count - 1 {
        count - 1
    } else {
        low
    };
    let mut pick = held as usize;
    while pick > 0 && entries[pick].as_str().unicode_len() == 0
        invariant
            pick < entries@.len(),
            filled_entry(views(entries@), held as int) == filled_entry(views(entries@), pick as int),
        decreases pick,
    {
        pick -= 1;
    }
    pick
}

/// What the information pane offers for a command line without arguments,
/// or with one: the command lines of the jobs so far, the latest first; with
/// one argument only those that start with it.
pub fn job_matches(jobs: &Vec<Job>, prefix: &str) -> (lines: Vec<String>)
    ensures
        views(lines@) == recent_matches(jobs@, prefix@, jobs@.len() as int),
{
    let wanted = to_chars(prefix);
    let mut lines: Vec<String> = Vec::new();
    let mut n: usize = 0;
    while n < jobs.len()
        invariant
            n <= jobs.len(),
            wanted@ == prefix@,
            views(lines@) =~= recent_matches(jobs@, prefix@, n as int),
        decreases jobs.len() - n,
    {
        let line = jobs[jobs.len() - n - 1].args_printable();
        let chars = to_chars(line.as_str());
        if text_starts_with(&chars, &wanted) {
            let ghost before = views(lines@);
            lines.push(line);
            proof {
                assert(views(lines@) =~= before.push(chars@));
            }
        }
        n += 1;
    }
    lines
}

/// The command line that results when `selection` is taken for the command
/// line `typed`.
pub fn complete(typed: &str, selection: &str) -> (command: String)
    ensures
        command@ == completed(typed@, selection@),
{
    let mut args = Args::new_notrim(typed);
    if args.args.len() <= 1 {
        let copy = String::from_str(selection);
        copy
    } else {
        let ghost before = views(args.args@);
        args.args.pop();
        args.args.push(String::from_str(selection));
        proof {
            assert(views(args.args@) =~= before.drop_last().push(selection@));
        }
        args.printable()
    }
}

/// Every command line starts with the empty text, so that without a prefix
/// all the jobs are offered.
pub proof fn lemma_recent_matches_all(jobs: Seq<Job>, n: int)
    requires
        0 <= n <= jobs.len(),
    ensures
        recent_matches(jobs, Seq::empty(), n) == recent_commands(jobs, n),
    decreases n,
{
    if n > 0 {
        lemma_recent_matches_all(jobs, n - 1);
        let line = printable_line(views(jobs[jobs.len() - n].args@));
        assert(line.take(0) =~= Seq::<char>::empty());
    }
}

/// The return code of a job, or 0 where it has none yet.
pub open spec fn code_of(job: Job) -> int {
    match job.return_code {
        Some(code) => code as int,
        None => 0,
    }
}

/// The text of the status pane: the working directory, and after it the
/// return code and the command line of the last job, where there is one.
pub open spec fn status_line(pwd: Seq<char>, jobs: Seq<Job>) -> Seq<char> {
    if jobs.len() == 0 {
        pwd
    } else {
        pwd + " ("@ + signed_decimal(code_of(jobs.last())) + ") "@ + printable_line(
            views(jobs.last().args@),
        )
    }
}

/// The line that announces a job in the main pane: in black on yellow its
/// number, the working directory and its command line.
pub open spec fn header_line(
    job_id: nat,
    pwd: Seq<char>,
    command: Seq<char>,
) -> Seq<char> {
    bg_escape("Yellow"@) + fg_escape("Black"@) + decimal(job_id) + seq![' '] + pwd + "> "@
        + command + code_escape(0) + seq!['\n']
}

/// The words that tell how long a job ran, where that is known.
pub open spec fn duration_words(duration: Option<(u64, u32)>) -> Seq<char> {
    match duration {
        Some((secs, millis)) => " in "@ + decimal(secs as nat) + seq!['.'] + three_digits(
            millis as nat,
        ) + seq!['s'],
        None => Seq::empty(),
    }
}

/// The line that reports the end of a job in the main pane: in black on
/// green for return code 0 and on red else, its command line and return
/// code, how long it ran, and spaces up to the width of the pane.
pub open spec fn result_line(
    command: Seq<char>,
    code: int,
    duration: Option<(u64, u32)>,
    columns: nat,
) -> Seq<char> {
    seq!['\n'] + bg_escape(if code == 0 { "Green"@ } else { "Red"@ }) + fg_escape("Black"@)
        + seq!['`'] + command + "` returned "@ + signed_decimal(code) + duration_words(duration)
        + spaces(if columns > command.len() { (columns - command.len()) as nat } else { 0 })
        + code_escape(0) + seq!['\n']
}

/// The text of the status pane.
pub fn status_text(pwd: &str, jobs: &Vec<Job>) -> (text: String)
    ensures
        text@ == status_line(pwd@, jobs@),
{
    let mut out = to_chars(pwd);
    if jobs.len() > 0 {
        let job = &jobs[jobs.len() - 1];
        let code = match job.return_code {
            Some(code) => code,
            None => 0,
        };
        push_str(&mut out, " (");
        push_signed(&mut out, code as i64);
        push_str(&mut out, ") ");
        push_str(&mut out, job.args_printable().as_str());
        proof {
            assert(jobs@.last() == jobs@[jobs@.len() - 1]);
            assert(out@ =~= status_line(pwd@, jobs@));
        }
    }
    from_chars(&out)
}

/// The line that announces a job in the main pane.
pub fn command_header(colors: &AnsiColor, job_id: usize, pwd: &str, job: &Job) -> (line: String)
    ensures
        line@ == header_line(job_id as nat, pwd@, printable_line(views(job.args@))),
{
    let mut out: Vec<char> = Vec::new();
    push_str(&mut out, colors.bg("Yellow").as_str());
    push_str(&mut out, colors.fg("Black").as_str());
    push_decimal(&mut out, job_id as u64);
    out.push(' ');
    push_str(&mut out, pwd);
    push_str(&mut out, "> ");
    push_str(&mut out, job.args_printable().as_str());
    push_str(&mut out, colors.reset().as_str());
    out.push('\n');
    proof {
        assert(out@ =~= header_line(job_id as nat, pwd@, printable_line(views(job.args@))));
    }
    from_chars(&out)
}

/// The line that reports the end of a job in the main pane, for a pane
/// that is `columns` characters wide and a job that ran for `duration`.
pub fn result_text(
    colors: &AnsiColor,
    job: &Job,
    duration: Option<(u64, u32)>,
    columns: usize,
) -> (line: String)
    requires
        job.return_code is Some,
        match duration {
            Some((_, millis)) => millis < 1000,
            None => true,
        },
    ensures
        line@ == result_line(
            printable_line(views(job.args@)),
            job.return_code->0 as int,
            duration,
            columns as nat,
        ),
{
    let command = to_chars(job.args_printable().as_str());
    let code = match job.return_code {
        Some(code) => code,
        None => 0,
    };
    let mut out: Vec<char> = Vec::new();
    out.push('\n');
    if code == 0 {
        push_str(&mut out, colors.bg("Green").as_str());
    } else {
        push_str(&mut out, colors.bg("Red").as_str());
    }
    push_str(&mut out, colors.fg("Black").as_str());
    out.push('`');
    push_str(&mut out, job.args_printable().as_str());
    push_str(&mut out, "` returned ");
    push_signed(&mut out, code as i64);
    let ghost reported = out@;
    match duration {
        Some((secs, millis)) => {
            push_str(&mut out, " in ");
            push_decimal(&mut out, secs);
            out.push('.');
            push_digit(&mut out, (millis / 100) as u8);
            push_digit(&mut out, ((millis / 10) % 10) as u8);
            push_digit(&mut out, (millis % 10) as u8);
            out.push('s');
        },
        None => {},
    }
    proof {
        assert(out@ =~= reported + duration_words(duration));
    }
    let fill = if columns > command.len() {
        columns - command.len()
    } else {
        0
    };
    push_spaces(&mut out, fill);
    push_str(&mut out, colors.reset().as_str());
    out.push('\n');
    proof {
        assert(out@ =~= result_line(
            printable_line(views(job.args@)),
            code as int,
            duration,
            columns as nat,
        ));
    }
    from_chars(&out)
}

/// The number of lines of the information pane.
pub const INFO_LINES: usize = 3;

/// The width that a column of the information pane has at most.
pub const INFO_WIDTH: usize = 60;

/// An entry as the information pane shows it: one of 60 characters or more
/// is cut to its first 56, followed by three dots.
pub open spec fn shown_entry(entry: Seq<char>) -> Seq<char> {
    if entry.len() > INFO_WIDTH - 1 {
        entry.take(INFO_WIDTH - 4) + "..."@
    } else {
        entry
    }
}

/// The width of a column of the information pane: one more than the length
/// of its longest entry, and 60 at most.
pub open spec fn column_width(entries: Seq<Seq<char>>, column: int) -> int {
    let longest = max_int(
        max_int(entries[3 * column].len() as int, entries[3 * column + 1].len() as int),
        entries[3 * column + 2].len() as int,
    );
    if longest + 1 > INFO_WIDTH {
        INFO_WIDTH as int
    } else {
        longest + 1
    }
}

/// An entry in its column: as it is shown, filled up with spaces to the
/// width of the column; the selected one in white on light blue.
pub open spec fn info_cell(
    entries: Seq<Seq<char>>,
    index: int,
    active: bool,
    selection: int,
) -> Seq<char> {
    let text = shown_entry(entries[index]);
    let fill = spaces((column_width(entries, index / 3) - text.len()) as nat);
    if active && index == selection {
        bg_escape("Light Blue"@) + fg_escape("White"@) + text + fill + code_escape(0)
    } else {
        text + fill
    }
}

/// A line of the information pane: the entries of this row in the first
/// `columns` columns, one after the other.
pub open spec fn info_line(
    entries: Seq<Seq<char>>,
    row: int,
    columns: int,
    active: bool,
    selection: int,
) -> Seq<char>
    decreases columns,
{
    if columns <= 0 {
        Seq::empty()
    } else {
        info_line(entries, row, columns - 1, active, selection) + info_cell(
            entries,
            3 * (columns - 1) + row,
            active,
            selection,
        )
    }
}

/// The entries with empty ones added at the end until their number is a
/// multiple of three.
pub open spec fn padded(entries: Seq<Seq<char>>) -> Seq<Seq<char>> {
    entries + Seq::new(((3 - entries.len() % 3) % 3) as nat, |i: int| Seq::<char>::empty())
}

/// Fills up the entries with empty ones to a multiple of three.
pub fn pad_entries(entries: &mut Vec<String>)
    ensures
        views(final(entries)@) == padded(views(old(entries)@)),
        final(entries)@.len() % 3 == 0,
{
    let missing = (3 - entries.len() % 3) % 3;
    let mut k: usize = 0;
    while k < missing
        invariant
            k <= missing < 3,
            missing == (3 - old(entries)@.len() % 3) % 3,
            entries@.len() == old(entries)@.len() + k,
            views(entries@) =~= views(old(entries)@) + Seq::new(
                k as nat,
                |i: int| Seq::<char>::empty(),
            ),
        decreases missing - k,
    {
        let ghost before = views(entries@);
        entries.push(String::new());
        proof {
            assert(views(entries@) =~= before.push(Seq::<char>::empty()));
        }
        k += 1;
    }
}

/// One entry in its column.
fn cell(
    colors: &AnsiColor,
    entries: &Vec<String>,
    index: usize,
    active: bool,
    selection: usize,
) -> (out: Vec<char>)
    requires
        entries@.len() % 3 == 0,
        index < entries@.len(),
    ensures
        out@ == info_cell(views(entries@), index as int, active, selection as int),
{
    let column = index / 3;
    let count = entries.len();
    assert(3 * column + 2 < count);
    let first = to_chars(entries[3 * column].as_str());
    let second = to_chars(entries[3 * column + 1].as_str());
    let third = to_chars(entries[3 * column + 2].as_str());
    let mut longest = first.len();
    if second.len() > longest {
        longest = second.len();
    }
    if third.len() > longest {
        longest = third.len();
    }
    let width = if longest >= INFO_WIDTH {
        INFO_WIDTH
    } else {
        longest + 1
    };
    let mut text = to_chars(entries[index].as_str());
    proof {
        assert(views(entries@)[index as int] == text@);
        assert(views(entries@)[3 * column as int] == first@);
        assert(views(entries@)[3 * column as int + 1] == second@);
        assert(views(entries@)[3 * column as int + 2] == third@);
        assert(index == 3 * column || index == 3 * column + 1 || index == 3 * column + 2);
    }
    if text.len() > INFO_WIDTH - 1 {
        text.truncate(INFO_WIDTH - 4);
        push_str(&mut text, "...");
        proof {
            reveal_strlit("...");
            assert(text@ =~= shown_entry(views(entries@)[index as int]));
        }
    }
    let fill = width - text.len();
    let mut out: Vec<char> = Vec::new();
    if active && index == selection {
        push_str(&mut out, colors.bg("Light Blue").as_str());
        push_str(&mut out, colors.fg("White").as_str());
        out.append(&mut text);
        push_spaces(&mut out, fill);
        push_str(&mut out, colors.reset().as_str());
    } else {
        out.append(&mut text);
        push_spaces(&mut out, fill);
    }
    proof {
        assert(out@ =~= info_cell(views(entries@), index as int, active, selection as int));
    }
    out
}

/// The three lines of the information pane for the entries, whose number
/// is a multiple of three: the entries stand in columns of three, the
/// selected one highlighted where the selection is active.
pub fn info_lines(
    colors: &AnsiColor,
    entries: &Vec<String>,
    active: bool,
    selection: usize,
) -> (lines: Vec<String>)
    requires
        entries@.len() % 3 == 0,
    ensures
        lines@.len() == 3,
        forall|row: int|
            0 <= row < 3 ==> (#[trigger] lines@[row])@ == info_line(
                views(entries@),
                row,
                entries@.len() as int / 3,
                active,
                selection as int,
            ),
{
    let columns = entries.len() / 3;
    let mut lines: Vec<String> = Vec::new();
    let mut row: usize = 0;
    while row < INFO_LINES
        invariant
            row <= 3,
            columns == entries@.len() / 3,
            entries@.len() % 3 == 0,
            lines@.len() == row,
            forall|r: int|
                0 <= r < row ==> (#[trigger] lines@[r])@ == info_line(
                    views(entries@),
                    r,
                    columns as int,
                    active,
                    selection as int,
                ),
        decreases 3 - row,
    {
        let mut line: Vec<char> = Vec::new();
        let mut column: usize = 0;
        while column < columns
            invariant
                row < 3,
                column <= columns,
                columns == entries@.len() / 3,
                entries@.len() % 3 == 0,
                line@ == info_line(
                    views(entries@),
                    row as int,
                    column as int,
                    active,
                    selection as int,
                ),
            decreases columns - column,
        {
            let count = entries.len();
            assert(3 * column + row < count);
            let mut next = cell(colors, entries, 3 * column + row, active, selection);
            line.append(&mut next);
            column += 1;
        }
        lines.push(from_chars(&line));
        row += 1;
    }
    lines
}

/// The place in the history and the command line that browsing arrives at
/// from the place `index`, going on by `delta` while the command line there
/// is the one typed and an end of the history is not reached.
pub open spec fn browsed(jobs: Seq<Job>, typed: Seq<char>, index: int, delta: int) -> int
    recommends
        jobs.len() > 0,
        0 <= index < jobs.len(),
        delta == 1 || delta == -1,
    decreases
            if delta > 0 {
                jobs.len() - index
            } else {
                index
            },
{
    if index <= 0 || index >= jobs.len() - 1 || (delta != 1 && delta != -1) || printable_line(
        views(jobs[index].args@),
    ) != typed {
        index
    } else {
        browsed(jobs, typed, index + delta, delta)
    }
}

/// A place in the history of jobs, and the command line of the job there.
pub struct HistoryPlace {
    pub index: usize,
    pub command: String,
}

/// Browses the history of jobs from the place `index` by one step of
/// `delta`, which is 1 or -1. Returns the place arrived at and the command
/// line there, or nothing where there is no job. With an empty command
/// line the place stays; else the step goes on over the jobs whose command
/// line is the one typed.
pub fn history_step(jobs: &Vec<Job>, index: usize, typed: &str, delta: i32) -> (r: Option<
    HistoryPlace,
>)
    requires
        delta == 1 || delta == -1,
    ensures
        jobs@.len() == 0 ==> r is None,
        jobs@.len() > 0 ==> r is Some && r->0.index < jobs@.len() && r->0.command@
            == printable_line(views(jobs@[r->0.index as int].args@)),
        jobs@.len() > 0 && typed@.len() == 0 ==> r->0.index == (if index < jobs@.len() {
            index as int
        } else {
            jobs@.len() - 1
        }),
        jobs@.len() > 0 && typed@.len() > 0 ==> r->0.index == browsed(
            jobs@,
            typed@,
            stepped(index as int, delta as int, jobs@.len() as int),
            delta as int,
        ),
{
    if jobs.len() == 0 {
        return None;
    }
    let last = jobs.len() - 1;
    let wanted = String::from_str(typed);
    if typed.unicode_len() == 0 {
        let place = if index < jobs.len() {
            index
        } else {
            last
        };
        return Some(HistoryPlace { index: place, command: jobs[place].args_printable() });
    }
    let mut place: usize = if delta > 0 {
        if index >= last {
            last
        } else {
            index + 1
        }
    } else if index == 0 {
        0
    } else if index - 1 > last {
        last
    } else {
        index - 1
    };
    let ghost start = place;
    let mut command = jobs[place].args_printable();
    while command == wanted && place != 0 && place != last
        invariant
            place <= last,
            start <= last,
            last == jobs@.len() - 1,
            delta == 1 || delta == -1,
            wanted@ == typed@,
            command@ == printable_line(views(jobs@[place as int].args@)),
            browsed(jobs@, typed@, start as int, delta as int) == browsed(
                jobs@,
                typed@,
                place as int,
                delta as int,
            ),
        decreases
                if delta > 0 {
                    last - place
                } else {
                    place as int
                },
    {
        if delta > 0 {
            place += 1;
        } else {
            place -= 1;
        }
        command = jobs[place].args_printable();
    }
    Some(HistoryPlace { index: place, command })
}

/// The number of white-space characters at the start of `s`, from position
/// `from` on.
pub open spec fn leading_space(s: Seq<char>, from: int) -> int
    decreases s.len() - from,
{
    if from < 0 || from >= s.len() || !is_whitespace(s[from]) {
        0
    } else {
        1 + leading_space(s, from + 1)
    }
}

/// The length of the first `len` characters of `s` without the white space
/// at their end.
pub open spec fn trimmed_end(s: Seq<char>, len: int) -> int
    decreases len,
{
    if len <= 0 || len > s.len() || !is_whitespace(s[len - 1]) {
        len
    } else {
        trimmed_end(s, len - 1)
    }
}

/// The text without the white space at its start and at its end.
pub open spec fn trimmed(s: Seq<char>) -> Seq<char> {
    let start = leading_space(s, 0);
    if start >= s.len() {
        Seq::empty()
    } else {
        s.subrange(start, max_int(start, trimmed_end(s, s.len() as int)))
    }
}

/// The command that the lines of the command pane hold: the first line
/// without the white space around it, or nothing where there is no line.
pub open spec fn command_line(lines: Seq<Seq<char>>) -> Seq<char> {
    if lines.len() == 0 {
        Seq::empty()
    } else {
        trimmed(lines[0])
    }
}

/// What goes to the input of a running job for a command: the command and
/// a line feed.
pub open spec fn input_line(command: Seq<char>) -> Seq<char> {
    command + seq!['\n']
}

/// The arguments that a pattern stands for: the paths that it matches, or
/// the pattern itself where it matches none.
pub open spec fn expanded(arg: Seq<char>, matches: Seq<Seq<char>>) -> Seq<Seq<char>> {
    if matches.len() == 0 {
        seq![arg]
    } else {
        matches
    }
}

/// The text without the white space at its start and at its end.
pub fn trim(text: &str) -> (out: String)
    ensures
        out@ == trimmed(text@),
{
    let chars = to_chars(text);
    let mut start: usize = 0;
    while start < chars.len() && char_is_whitespace(chars[start])
        invariant
            start <= chars.len(),
            leading_space(chars@, 0) == start + leading_space(chars@, start as int),
        decreases chars.len() - start,
    {
        start += 1;
    }
    if start >= chars.len() {
        return String::new();
    }
    let mut end: usize = chars.len();
    while end > start && char_is_whitespace(chars[end - 1])
        invariant
            start < end <= chars.len(),
            start < chars.len(),
            !is_whitespace(chars@[start as int]),
            trimmed_end(chars@, chars@.len() as int) == trimmed_end(chars@, end as int),
        decreases end,
    {
        end -= 1;
    }
    let mut kept = chars;
    kept.truncate(end);
    let kept = kept.split_off(start);
    proof {
        assert(kept@ =~= text@.subrange(start as int, end as int));
    }
    from_chars(&kept)
}

/// The command that the lines of the command pane hold.
pub fn command_of(lines: &Vec<String>) -> (command: String)
    ensures
        command@ == command_line(views(lines@)),
{
    if lines.len() == 0 {
        String::new()
    } else {
        trim(lines[0].as_str())
    }
}

/// What goes to the input of a running job for a command.
pub fn stdin_line(command: &str) -> (line: String)
    ensures
        line@ == input_line(command@),
{
    let mut line = String::from_str(command);
    line.push('\n');
    line
}

/// The arguments that a pattern stands for, given the paths that it
/// matches.
pub fn expand_arg(arg: &str, matches: Vec<String>) -> (args: Vec<String>)
    ensures
        views(args@) == expanded(arg@, views(matches@)),
{
    if matches.len() == 0 {
        let mut args: Vec<String> = Vec::new();
        args.push(String::from_str(arg));
        proof {
            assert(views(args@) =~= seq![arg@]);
        }
        args
    } else {
        matches
    }
}

pub const KEY_C: usize = 2;

pub const KEY_D: usize = 3;

pub const KEY_J: usize = 9;

pub const KEY_K: usize = 10;

pub const KEY_N: usize = 13;

pub const KEY_P: usize = 15;

pub const KEY_ESCAPE: usize = 36;

pub const KEY_ENTER: usize = 58;

pub const KEY_TAB: usize = 60;

pub const KEY_PAGE_UP: usize = 61;

pub const KEY_PAGE_DOWN: usize = 62;

pub const KEY_UP: usize = 73;

pub const KEY_DOWN: usize = 74;

/// What a key does in the shell window.
#[derive(Clone, Copy, Debug, PartialEq, Eq, Structural)]
pub enum ShellAction {
    /// Stops the running job.
    KillJob,
    /// Closes the input of the running job.
    SendEof,
    /// Moves the selection in the information pane by so many entries.
    ChangeSelection(i32),
    /// Takes the selection, if there is one, and runs the command.
    Enter,
    /// Scrolls the main pane.
    Scroll(ScrollType),
    /// Runs the command and goes to insert mode.
    RunCommand,
    /// Closes the window.
    Close,
    /// Browses the history of jobs by one step in this direction.
    History(i32),
    /// Hands the key to the command line.
    Edit,
}

/// What a key does while the command line is in insert mode. With control
/// `C` stops the job, `D` closes its input, and `N` and `P` move the
/// selection. Without it the tabulator moves the selection, backwards with
/// shift; enter runs the command; the cursor and page keys scroll. Every
/// other key goes to the command line.
pub open spec fn insert_action(code: usize, control: bool, shift: bool) -> ShellAction {
    if control {
        if code == KEY_C {
            ShellAction::KillJob
        } else if code == KEY_D {
            ShellAction::SendEof
        } else if code == KEY_N {
            ShellAction::ChangeSelection(1)
        } else if code == KEY_P {
            ShellAction::ChangeSelection(-1i32)
        } else {
            ShellAction::Edit
        }
    } else if code == KEY_TAB {
        ShellAction::ChangeSelection(if shift { -1i32 } else { 1i32 })
    } else if code == KEY_ENTER {
        ShellAction::Enter
    } else if code == KEY_UP {
        ShellAction::Scroll(ScrollType::CursorUp)
    } else if code == KEY_DOWN {
        ShellAction::Scroll(ScrollType::CursorDown)
    } else if code == KEY_PAGE_UP {
        ShellAction::Scroll(ScrollType::PageUp)
    } else if code == KEY_PAGE_DOWN {
        ShellAction::Scroll(ScrollType::PageDown)
    } else {
        ShellAction::Edit
    }
}

/// What a key does while the command line is in normal mode: enter runs
/// the command, escape closes the window, `K` and `J` browse the history
/// backwards and forwards, and every other key goes to the command line.
pub open spec fn normal_action(code: usize) -> ShellAction {
    if code == KEY_ENTER {
        ShellAction::RunCommand
    } else if code == KEY_ESCAPE {
        ShellAction::Close
    } else if code == KEY_K {
        ShellAction::History(-1i32)
    } else if code == KEY_J {
        ShellAction::History(1i32)
    } else {
        ShellAction::Edit
    }
}

/// What the key with the number given does in the shell window.
pub fn key_pressed(code: usize, normal_mode: bool, control: bool, shift: bool) -> (action:
    ShellAction)
    ensures
        action == if normal_mode {
            normal_action(code)
        } else {
            insert_action(code, control, shift)
        },
{
    if normal_mode {
        if code == KEY_ENTER {
            ShellAction::RunCommand
        } else if code == KEY_ESCAPE {
            ShellAction::Close
        } else if code == KEY_K {
            ShellAction::History(-1)
        } else if code == KEY_J {
            ShellAction::History(1)
        } else {
            ShellAction::Edit
        }
    } else if control {
        if code == KEY_C {
            ShellAction::KillJob
        } else if code == KEY_D {
            ShellAction::SendEof
        } else if code == KEY_N {
            ShellAction::ChangeSelection(1)
        } else if code == KEY_P {
            ShellAction::ChangeSelection(-1)
        } else {
            ShellAction::Edit
        }
    } else if code == KEY_TAB {
        ShellAction::ChangeSelection(if shift {
            -1
        } else {
            1
        })
    } else if code == KEY_ENTER {
        ShellAction::Enter
    } else if code == KEY_UP {
        ShellAction::Scroll(ScrollType::CursorUp)
    } else if code == KEY_DOWN {
        ShellAction::Scroll(ScrollType::CursorDown)
    } else if code == KEY_PAGE_UP {
        ShellAction::Scroll(ScrollType::PageUp)
    } else if code == KEY_PAGE_DOWN {
        ShellAction::Scroll(ScrollType::PageDown)
    } else {
        ShellAction::Edit
    }
}

/// What the mouse wheel asks for: to scroll up where it turns by more than
/// nothing, and down else.
pub fn wheel_scroll(up: bool) -> (scroll_type: ScrollType)
    ensures
        scroll_type == if up {
            ScrollType::MouseWheelUp
        } else {
            ScrollType::MouseWheelDown
        },
{
    if up {
        ScrollType::MouseWheelUp
    } else {
        ScrollType::MouseWheelDown
    }
}

} // verus!
