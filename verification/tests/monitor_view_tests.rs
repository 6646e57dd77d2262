use llama_server_loader::monitor::{
    bar_widths, braille_cells_per_side, build_braille_graph_row, time_axis_marks, format_throughput, mem_used_percent, push_history, record_gpu_sample,
    temperature_level, usage_level, value_to_bottom_braille, value_to_braille,
    value_to_top_braille, Level, GPU_HISTORY_LEN,
};
use llama_server_loader::views::{
    arg_lines, chrono_now, command_line, edit_area_width, edit_value_display, log_scroll_offset, mid_pane_height,
    server_tab_height, update_done_line, update_launch_failed_line, update_started_line,
    update_stderr_line, update_stdout_line, update_wait_failed_line,
};
use std::collections::VecDeque;

#[test]
fn history_keeps_the_newest_sixty() {
    let mut h = VecDeque::new();
    for v in 0..100u32 {
        push_history(&mut h, v);
        assert!(h.len() <= GPU_HISTORY_LEN);
        assert_eq!(*h.back().unwrap(), v);
    }
    assert_eq!(h.len(), 60);
    assert_eq!(*h.front().unwrap(), 40);
}

#[test]
fn memory_percentage() {
    assert_eq!(mem_used_percent(0, 0, 0), 0);
    assert_eq!(mem_used_percent(512, 0, 1024), 50);
    assert_eq!(mem_used_percent(500, 12, 1024), 50);
    assert_eq!(mem_used_percent(1023, 0, 1024), 99);
    assert_eq!(mem_used_percent(1024, 0, 1024), 100);
    let mut u = VecDeque::new();
    let mut m = VecDeque::new();
    assert_eq!(record_gpu_sample(&mut u, &mut m, 37, 3, 1, 8), 50);
    assert_eq!(u, VecDeque::from(vec![37]));
    assert_eq!(m, VecDeque::from(vec![50]));
}

#[test]
fn braille_levels() {
    let expected = [
        (0, '⣀'), (16, '⣀'), (17, '⣄'), (33, '⣄'), (34, '⣤'), (50, '⣤'), (51, '⣴'), (66, '⣴'),
        (67, '⣶'), (83, '⣶'), (84, '⣿'), (100, '⣿'), (5000, '⣿'),
    ];
    for (v, c) in expected {
        assert_eq!(value_to_braille(v), c, "{v}");
    }
    assert_eq!(value_to_bottom_braille(0), '⣀');
    assert_eq!(value_to_bottom_braille(25), '⣤');
    assert_eq!(value_to_bottom_braille(90), '⣿');
    assert_eq!(value_to_top_braille(50), ' ');
    assert_eq!(value_to_top_braille(10), ' ');
    assert_eq!(value_to_top_braille(75), '⣤');
    assert_eq!(value_to_top_braille(100), '⣿');
}

#[test]
fn graph_rows_show_the_newest_samples() {
    let h: VecDeque<u32> = VecDeque::from(vec![0, 100, 60, 20]);
    assert_eq!(build_braille_graph_row(&h, 6, false), "⣀⣿⣿⣤  ");
    assert_eq!(build_braille_graph_row(&h, 6, true), " ⣿⣄   ");
    assert_eq!(build_braille_graph_row(&h, 2, false), "⣿⣤");
    assert_eq!(build_braille_graph_row(&h, 0, false), "");
    assert_eq!(build_braille_graph_row(&VecDeque::new(), 3, true), "   ");
}

#[test]
fn levels() {
    assert_eq!(usage_level(69), Level::Normal);
    assert_eq!(usage_level(70), Level::High);
    assert_eq!(usage_level(89), Level::High);
    assert_eq!(usage_level(90), Level::Critical);
    assert_eq!(temperature_level(69), Level::Normal);
    assert_eq!(temperature_level(70), Level::High);
    assert_eq!(temperature_level(85), Level::Critical);
}

#[test]
fn throughput_matches_float_formatting() {
    let mut values: Vec<u32> = vec![0, 1, 1023, 1024, 1025, 1536, 2047, 123456, u32::MAX];
    values.extend((0..5000u32).map(|i| i * 7919 % 3_000_000));
    values.extend(1024..4096u32);
    for kbps in values {
        let kibps = kbps as f64;
        let expected = if kibps < 1024.0 {
            format!("{:.1} KiB/s", kibps)
        } else {
            format!("{:.3} MiB/s", kibps / 1024.0)
        };
        assert_eq!(format_throughput(kbps), expected, "{kbps}");
    }
}

#[test]
fn log_scroll_offsets() {
    assert_eq!(log_scroll_offset(100, 10, 0, true), 90);
    assert_eq!(log_scroll_offset(100, 10, 5, true), 90);
    assert_eq!(log_scroll_offset(100, 10, 5, false), 85);
    assert_eq!(log_scroll_offset(100, 10, 500, false), 0);
    assert_eq!(log_scroll_offset(5, 10, 0, true), 0);
}

#[test]
fn layout_heights() {
    assert_eq!(server_tab_height(true), 6);
    assert_eq!(server_tab_height(false), 22);
    assert_eq!(mid_pane_height(true, 19), 19);
    assert_eq!(mid_pane_height(false, 19), 7);
    assert_eq!(edit_area_width(40, 7, 10), 23);
    assert_eq!(edit_area_width(10, 7, 10), 0);
    assert_eq!(edit_area_width(10, usize::MAX, 1), 0);
}

#[test]
fn argument_preview() {
    let args: Vec<String> = ["--port", "11400", "--no-mmap", "--jinja", "-m", "a.gguf", "--x"]
        .iter()
        .map(|s| s.to_string())
        .collect();
    let lines = arg_lines(&args);
    let expected: Vec<(String, Option<String>)> = vec![
        ("--port".into(), Some("11400".into())),
        ("--no-mmap".into(), None),
        ("--jinja".into(), None),
        ("-m".into(), Some("a.gguf".into())),
        ("--x".into(), None),
    ];
    assert_eq!(lines, expected);
    assert_eq!(
        command_line("/bin/llama-server", &args),
        "$ /bin/llama-server --port 11400 --no-mmap --jinja -m a.gguf --x"
    );
    assert_eq!(command_line("srv", &Vec::new()), "$ srv");
    assert!(arg_lines(&Vec::new()).is_empty());
}

#[test]
fn update_popup_lines() {
    assert_eq!(update_started_line(), "Checking for updates...\n");
    assert_eq!(update_stdout_line("v1.2"), "v1.2\n");
    assert_eq!(update_stderr_line("warn"), "[stderr] warn\n");
    assert_eq!(update_done_line(0), "\nDone. Exit code: 0\n");
    assert_eq!(update_done_line(-1), "\nDone. Exit code: -1\n");
    assert_eq!(update_wait_failed_line("boom"), "\nError: boom\n");
    assert_eq!(update_launch_failed_line("not found"), "Failed to launch update script: not found\n");
}

#[test]
fn clock_stamps() {
    assert_eq!(chrono_now(0), "00:00:00");
    assert_eq!(chrono_now(3661), "01:01:01");
    assert_eq!(chrono_now(86399), "23:59:59");
    assert_eq!(chrono_now(86400 + 45296), "12:34:56");
    for secs in [0u64, 59, 3599, 1_700_000_000, u64::MAX] {
        let expected = format!("{:02}:{:02}:{:02}", (secs / 3600) % 24, (secs / 60) % 60, secs % 60);
        assert_eq!(chrono_now(secs), expected);
    }
}

#[test]
fn middle_pane_widths() {
    // the simple graphs: 13 columns of labels plus the rendered values
    assert_eq!(braille_cells_per_side(100, 4, 4, 20), 29);
    assert_eq!(braille_cells_per_side(40, 4, 4, 20), 0);
    assert_eq!(bar_widths(100), (30, 30));
    assert_eq!(bar_widths(101), (30, 31));
    assert_eq!(bar_widths(44), (2, 2));
    assert_eq!(bar_widths(10), (2, 2));
    assert_eq!(time_axis_marks(60), (45, 30, 15));
    assert_eq!(time_axis_marks(2), (1, 1, 0));
}

#[test]
fn edited_value_with_cursor() {
    assert_eq!(edit_value_display("abc", 0, 0, 2), "\u{2026}");
    assert_eq!(edit_value_display("", 0, 0, 10), " \u{258f}");
    assert_eq!(edit_value_display("abc", 0, 3, 10), "abc\u{258f}");
    assert_eq!(edit_value_display("abc", 0, 1, 10), "a\u{258f}bc");
    assert_eq!(edit_value_display("abcdef", 2, 4, 10), "cd\u{258f}ef");
    assert_eq!(edit_value_display("abcdef", 9, 9, 10), "\u{258f}");
    assert_eq!(edit_value_display("abcdef", 2, 0, 10), "\u{258f}cdef");
}
