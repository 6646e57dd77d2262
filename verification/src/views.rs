//! What the panes show, computed from plain values: the log view's scroll
//! offset, the lines of the argument preview, the update popup's messages,
//! and the clock stamp of log lines.

use vstd::prelude::*;
use vstd::string::*;
use crate::app::sat_sub;
use crate::text::{dec, dec_int, i32_to_string, u64_to_string, views};

verus! {

// ── Log pane ──

/// How many wrapped rows of the log are skipped: the last `height` rows are
/// shown, raised by `log_scroll` rows when the view does not follow the end.
pub open spec fn spec_log_scroll_offset(total_rows: nat, height: nat, log_scroll: nat, auto: bool) -> nat {
    let bottom: nat = if total_rows > height { (total_rows - height) as nat } else { 0 };
    if auto {
        bottom
    } else if bottom > log_scroll {
        (bottom - log_scroll) as nat
    } else {
        0
    }
}

/// The number of wrapped log rows to skip.
pub fn log_scroll_offset(total_rows: usize, height: u16, log_scroll: u16, auto: bool) -> (r: usize)
    ensures
        r as nat == spec_log_scroll_offset(total_rows as nat, height as nat, log_scroll as nat, auto),
{
    let bottom: usize = total_rows.saturating_sub(height as usize);
    if auto {
        bottom
    } else {
        bottom.saturating_sub(log_scroll as usize)
    }
}

/// The view never skips past the end of the log; following the end shows
/// the last row; scrolling back by `log_scroll` rows raises the view by that
/// much, until it reaches the first row.
pub proof fn law_log_offset_in_range(total_rows: nat, height: nat, log_scroll: nat, auto: bool)
    ensures
        spec_log_scroll_offset(total_rows, height, log_scroll, auto) <= total_rows,
        auto ==> spec_log_scroll_offset(total_rows, height, log_scroll, auto) + height >= total_rows,
        !auto ==> spec_log_scroll_offset(total_rows, height, log_scroll, auto) == if spec_log_scroll_offset(total_rows, height, 0, true) > log_scroll {
            (spec_log_scroll_offset(total_rows, height, 0, true) - log_scroll) as nat
        } else {
            0
        },
{
}

// ── Layout ──

/// The height of the tab pane: short while a server runs, so that the log
/// gets the room.
pub fn server_tab_height(running: bool) -> (h: u16)
    ensures
        h == (if running {
            6u16
        } else {
            22u16
        }),
{
    if running {
        6
    } else {
        22
    }
}

/// The height of the middle pane: the configured height in graph mode,
/// seven rows otherwise.
pub fn mid_pane_height(graph_mode: bool, configured: u16) -> (h: u16)
    ensures
        h == (if graph_mode {
            configured
        } else {
            7u16
        }),
{
    if graph_mode {
        configured
    } else {
        7
    }
}

/// How wide the edit area of a row is: the inner width of the pane less
/// the row's label and its decorations (`extra` columns), never below zero.
pub fn edit_area_width(inner_width: u16, extra: usize, label_len: usize) -> (w: usize)
    ensures
        w as int == (if extra + label_len > usize::MAX {
            0
        } else if inner_width > extra + label_len {
            inner_width - (extra + label_len)
        } else {
            0
        }),
{
    match extra.checked_add(label_len) {
        Some(used) => (inner_width as usize).saturating_sub(used),
        None => 0,
    }
}

// ── Edited value ──

/// The text shown for a value being edited in a cell `width` columns wide:
/// `…` when the cell is too narrow, a lone cursor for an empty value,
/// otherwise the value from its scroll offset on, with the cursor mark
/// `▏` inserted at the cursor.
pub open spec fn spec_edit_display(v: Seq<char>, scroll: nat, cursor: nat, width: nat) -> Seq<char> {
    if width < 3 {
        seq!['\u{2026}']
    } else if v.len() == 0 {
        seq![' ', '\u{258f}']
    } else {
        let s = if scroll < v.len() { scroll } else { v.len() };
        let vis = v.subrange(s as int, v.len() as int);
        let c0 = sat_sub(cursor as int, s as int);
        let c = if c0 < vis.len() { c0 } else { vis.len() as int };
        vis.subrange(0, c) + seq!['\u{258f}'] + vis.subrange(c, vis.len() as int)
    }
}

/// The text shown for the value `value` being edited, given the input's
/// scroll offset and cursor position (in characters) for a cell `width`
/// columns wide.
pub fn edit_value_display(value: &str, scroll: usize, cursor: usize, width: usize) -> (s: String)
    ensures
        s@ == spec_edit_display(value@, scroll as nat, cursor as nat, width as nat),
{
    proof {
        reveal_strlit("\u{2026}");
        reveal_strlit(" \u{258f}");
        reveal_strlit("\u{258f}");
    }
    if width < 3 {
        return String::from_str("\u{2026}");
    }
    let n: usize = value.unicode_len();
    if n == 0 {
        return String::from_str(" \u{258f}");
    }
    let s: usize = if scroll < n { scroll } else { n };
    let vis_len: usize = n - s;
    let c0: usize = cursor.saturating_sub(s);
    let c: usize = if c0 < vis_len { c0 } else { vis_len };
    let mut out = String::from_str(value.substring_char(s, s + c));
    out.append("\u{258f}");
    out.append(value.substring_char(s + c, n));
    proof {
        let vis = value@.subrange(s as int, n as int);
        assert(vis.subrange(0, c as int) =~= value@.subrange(s as int, s + c));
        assert(vis.subrange(c as int, vis.len() as int) =~= value@.subrange(s + c, n as int));
    }
    out
}

// ── Argument preview ──

/// The first character of `s` is `-`.
pub open spec fn starts_with_dash(s: Seq<char>) -> bool {
    s.len() > 0 && s[0] == '-'
}

/// The preview lines of an argument list: an argument followed by one that
/// does not start with `-` is shown with it as its value; any other is shown
/// alone.
pub open spec fn spec_arg_lines(args: Seq<Seq<char>>) -> Seq<(Seq<char>, Option<Seq<char>>)>
    decreases args.len(),
{
    if args.len() == 0 {
        seq![]
    } else if args.len() >= 2 && !starts_with_dash(args[1]) {
        seq![(args[0], Some(args[1]))] + spec_arg_lines(args.skip(2))
    } else {
        seq![(args[0], None)] + spec_arg_lines(args.skip(1))
    }
}

/// The view of a preview line.
pub open spec fn line_view(l: (String, Option<String>)) -> (Seq<char>, Option<Seq<char>>) {
    (
        l.0@,
        match l.1 {
            Some(v) => Some(v@),
            None => None,
        },
    )
}

/// Pairs each flag with its value for the argument preview.
pub fn arg_lines(args: &Vec<String>) -> (lines: Vec<(String, Option<String>)>)
    ensures
        lines@.map_values(|l: (String, Option<String>)| line_view(l)) == spec_arg_lines(views(args@)),
{
    let ghost all = views(args@);
    let n: usize = args.len();
    let mut lines: Vec<(String, Option<String>)> = Vec::new();
    let mut i: usize = 0;
    assert(all.skip(0) =~= all);
    while i < n
        invariant
            n == args@.len(),
            all == views(args@),
            i <= n,
            lines@.map_values(|l: (String, Option<String>)| line_view(l)) + spec_arg_lines(all.skip(i as int))
                == spec_arg_lines(all),
        decreases n - i,
    {
        let ghost rest = all.skip(i as int);
        let ghost before = lines@.map_values(|l: (String, Option<String>)| line_view(l));
        let has_value: bool = i + 1 < n && !(args[i + 1].as_str().unicode_len() > 0 && args[i + 1].as_str().get_char(0) == '-');
        assert(rest[0] == args@[i as int]@);
        if has_value {
            assert(rest[1] == args@[i + 1]@);
            let line = (args[i].clone(), Some(args[i + 1].clone()));
            lines.push(line);
            assert(rest.skip(2) =~= all.skip(i + 2));
            assert(lines@.map_values(|l: (String, Option<String>)| line_view(l)) =~= before.push(line_view(line)));
            assert(before.push(line_view(line)) + spec_arg_lines(all.skip(i + 2)) =~= before + (seq![line_view(line)] + spec_arg_lines(rest.skip(2))));
            i = i + 2;
        } else {
            let line = (args[i].clone(), None);
            lines.push(line);
            assert(rest.skip(1) =~= all.skip(i + 1));
            assert(lines@.map_values(|l: (String, Option<String>)| line_view(l)) =~= before.push(line_view(line)));
            assert(before.push(line_view(line)) + spec_arg_lines(all.skip(i + 1)) =~= before + (seq![line_view(line)] + spec_arg_lines(rest.skip(1))));
            i = i + 1;
        }
    }
    assert(spec_arg_lines(all.skip(n as int)) =~= Seq::<(Seq<char>, Option<Seq<char>>)>::empty()) by {
        assert(all.skip(n as int).len() == 0);
    }
    assert(lines@.map_values(|l: (String, Option<String>)| line_view(l)) =~= lines@.map_values(|l: (String, Option<String>)| line_view(l)) + Seq::<(Seq<char>, Option<Seq<char>>)>::empty());
    lines
}

/// `s` with each argument appended after a space.
pub open spec fn spaced(args: Seq<Seq<char>>) -> Seq<char>
    decreases args.len(),
{
    if args.len() == 0 {
        seq![]
    } else {
        spaced(args.drop_last()) + seq![' '] + args.last()
    }
}

/// The command line as the preview shows it: `$ <server> <arg> <arg> ...`.
pub open spec fn spec_command_line(server_path: Seq<char>, args: Seq<Seq<char>>) -> Seq<char> {
    seq!['$', ' '] + server_path + spaced(args)
}

/// The command line of the preview.
pub fn command_line(server_path: &str, args: &Vec<String>) -> (s: String)
    ensures
        s@ == spec_command_line(server_path@, views(args@)),
{
    let mut s = String::from_str("$ ");
    proof {
        reveal_strlit("$ ");
    }
    s.append(server_path);
    let ghost head = s@;
    let n: usize = args.len();
    let mut i: usize = 0;
    while i < n
        invariant
            n == args@.len(),
            i <= n,
            head == seq!['$', ' '] + server_path@,
            s@ == head + spaced(views(args@).take(i as int)),
        decreases n - i,
    {
        s.append(" ");
        proof {
            reveal_strlit(" ");
        }
        s.append(args[i].as_str());
        assert(views(args@).take(i + 1).drop_last() =~= views(args@).take(i as int));
        assert(views(args@).take(i + 1).last() == args@[i as int]@);
        assert(s@ =~= head + spaced(views(args@).take(i + 1)));
        i = i + 1;
    }
    assert(views(args@).take(n as int) =~= views(args@));
    s
}

// ── Update popup ──

/// The first line of the update popup.
pub fn update_started_line() -> (s: String)
    ensures
        s@ == "Checking for updates...\n"@,
{
    String::from_str("Checking for updates...\n")
}

/// A line the update script wrote on its standard output.
pub fn update_stdout_line(line: &str) -> (s: String)
    ensures
        s@ == line@ + "\n"@,
{
    let mut s = String::from_str(line);
    s.append("\n");
    s
}

/// A line the update script wrote on its standard error.
pub fn update_stderr_line(line: &str) -> (s: String)
    ensures
        s@ == "[stderr] "@ + line@ + "\n"@,
{
    let mut s = String::from_str("[stderr] ");
    s.append(line);
    s.append("\n");
    s
}

/// The last line of the update popup when the script ended with `code`.
pub fn update_done_line(code: i32) -> (s: String)
    ensures
        s@ == "\nDone. Exit code: "@ + dec_int(code as int) + "\n"@,
{
    let mut s = String::from_str("\nDone. Exit code: ");
    let c = i32_to_string(code);
    s.append(c.as_str());
    s.append("\n");
    s
}

/// The line shown when waiting for the script failed with `error`.
pub fn update_wait_failed_line(error: &str) -> (s: String)
    ensures
        s@ == "\nError: "@ + error@ + "\n"@,
{
    let mut s = String::from_str("\nError: ");
    s.append(error);
    s.append("\n");
    s
}

/// The line shown when the script could not be launched.
pub fn update_launch_failed_line(error: &str) -> (s: String)
    ensures
        s@ == "Failed to launch update script: "@ + error@ + "\n"@,
{
    let mut s = String::from_str("Failed to launch update script: ");
    s.append(error);
    s.append("\n");
    s
}

// ── Clock ──

/// `n < 100` with two digits.
pub open spec fn pad2(n: nat) -> Seq<char> {
    if n < 10 {
        seq!['0'] + dec(n)
    } else {
        dec(n)
    }
}

/// The time of day (UTC) `secs` seconds after the epoch, as `hh:mm:ss`.
pub open spec fn spec_clock(secs: nat) -> Seq<char> {
    pad2((secs / 3600) % 24) + seq![':'] + pad2((secs / 60) % 60) + seq![':'] + pad2(secs % 60)
}

fn pad2_string(n: u64) -> (s: String)
    requires
        n < 100,
    ensures
        s@ == pad2(n as nat),
{
    let d = u64_to_string(n);
    if n < 10 {
        let mut s = String::from_str("0");
        proof {
            reveal_strlit("0");
        }
        s.append(d.as_str());
        s
    } else {
        d
    }
}

/// The `hh:mm:ss` stamp of log lines, for `secs` seconds after the epoch.
pub fn chrono_now(secs: u64) -> (s: String)
    ensures
        s@ == spec_clock(secs as nat),
{
    let h = pad2_string((secs / 3600) % 24);
    let m = pad2_string((secs / 60) % 60);
    let sec = pad2_string(secs % 60);
    let mut s = h;
    s.append(":");
    s.append(m.as_str());
    s.append(":");
    s.append(sec.as_str());
    proof {
        reveal_strlit(":");
    }
    s
}

} // verus!
