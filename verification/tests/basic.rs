use termframe::frame::{
    dim_label_text, enter_screen, leave_screen, redraw_output, render_frame, size_error_message,
    RedrawOutput,
};
use termframe::input::{echo_message, greeting, loop_step, size_report, InputAction, LoopState};
use termframe::mode::ModeController;
use termframe::text::u16_to_string;

fn count_hashes(s: &str) -> usize {
    s.chars().filter(|c| *c == '#').count()
}

#[test]
fn decimal_text_exact_values() {
    assert_eq!(u16_to_string(0), "0");
    assert_eq!(u16_to_string(7), "7");
    assert_eq!(u16_to_string(10), "10");
    assert_eq!(u16_to_string(80), "80");
    assert_eq!(u16_to_string(65535), "65535");
}

#[test]
fn frame_80_by_24_is_exact() {
    let mut expected = String::from("\x1B[2J\x1B[1;1H");
    expected += &"#".repeat(80);
    for _ in 0..22 {
        expected += "#\x1B[78C#";
    }
    expected += &"#".repeat(80);
    expected += "\x1B[12;37H80 x 24";
    assert_eq!(render_frame(80, 24), expected);
}

#[test]
fn frame_80_by_24_hash_count() {
    let out = render_frame(80, 24);
    assert_eq!(count_hashes(&out), 2 * 80 + 2 * 22);
    assert!(out.contains("\x1B[12;37H80 x 24"));
}

#[test]
fn frame_hash_count_formula_various_sizes() {
    for (cols, rows) in [(3u16, 3u16), (6, 4), (13, 7), (120, 40)] {
        let out = render_frame(cols, rows);
        assert_eq!(
            count_hashes(&out),
            2 * cols as usize + 2 * (rows as usize - 2)
        );
    }
}

#[test]
fn smallest_frame_is_exact() {
    let expected = "\x1B[2J\x1B[1;1H####\x1B[1C####\x1B[1;1H3 x 3";
    let mut built = String::from("\x1B[2J\x1B[1;1H");
    built += "###";
    built += "#\x1B[1C#";
    built += "###";
    built += "\x1B[1;1H3 x 3";
    assert_eq!(built, expected);
    assert_eq!(render_frame(3, 3), expected);
}

#[test]
fn label_text_and_centering() {
    assert_eq!(dim_label_text(80, 24), "80 x 24");
    assert_eq!(dim_label_text(132, 43), "132 x 43");
    let out = render_frame(80, 24);
    let pos = out.find("80 x 24").unwrap();
    let move_cmd = "\x1B[12;37H";
    assert_eq!(&out[pos - move_cmd.len()..pos], move_cmd);
}

#[test]
fn size_error_message_keeps_os_text_and_has_no_border() {
    let msg = size_error_message("Inappropriate ioctl for device");
    assert_eq!(
        msg,
        "\x1B[2HError reading terminal size: Inappropriate ioctl for device"
    );
    assert_eq!(count_hashes(&msg), 0);
}

#[test]
fn redraw_output_draws_on_success() {
    match redraw_output(Ok((80, 24))) {
        RedrawOutput::Frame(s) => assert_eq!(s, render_frame(80, 24)),
        RedrawOutput::SizeError(_) => panic!("expected a frame"),
    }
}

#[test]
fn redraw_output_reports_failure_without_border() {
    match redraw_output(Err(String::from("not a tty"))) {
        RedrawOutput::Frame(_) => panic!("expected an error message"),
        RedrawOutput::SizeError(m) => {
            assert_eq!(m, "\x1B[2HError reading terminal size: not a tty");
            assert_eq!(count_hashes(&m), 0);
        }
    }
}

#[test]
fn screen_buffer_commands_are_exact() {
    assert_eq!(enter_screen(), "\x1B[?1049h\x1B[?25l");
    assert_eq!(leave_screen(), "\x1B[?1049l");
}

#[test]
fn byte_97_greets() {
    let (state, action) = loop_step(Some(97));
    assert_eq!(state, LoopState::Running);
    assert_eq!(action, InputAction::Greet);
    assert_eq!(greeting(), "AAAAAA!");
}

#[test]
fn byte_98_reports_size() {
    let (state, action) = loop_step(Some(98));
    assert_eq!(state, LoopState::Running);
    assert_eq!(action, InputAction::ReportSize);
}

#[test]
fn byte_99_redraws() {
    let (state, action) = loop_step(Some(99));
    assert_eq!(state, LoopState::Running);
    assert_eq!(action, InputAction::Redraw);
}

#[test]
fn newline_terminates_and_only_newline() {
    let (state, action) = loop_step(Some(10));
    assert_eq!(state, LoopState::Terminated);
    assert_eq!(action, InputAction::Nothing);
    for b in 0u8..=255 {
        let (state, _) = loop_step(Some(b));
        if b == 10 {
            assert_eq!(state, LoopState::Terminated);
        } else {
            assert_eq!(state, LoopState::Running);
        }
    }
}

#[test]
fn other_bytes_echo_their_own_value() {
    for b in 0u8..=255 {
        if b == 97 || b == 98 || b == 99 || b == 10 {
            continue;
        }
        let (state, action) = loop_step(Some(b));
        assert_eq!(state, LoopState::Running);
        assert_eq!(action, InputAction::Echo(b));
    }
    assert_eq!(echo_message(120), "You have hit: 120");
    assert_eq!(echo_message(5), "You have hit: 5");
}

#[test]
fn read_errors_are_ignored() {
    let (state, action) = loop_step(None);
    assert_eq!(state, LoopState::Running);
    assert_eq!(action, InputAction::Nothing);
}

#[test]
fn size_report_formats_both_outcomes() {
    assert_eq!(size_report(Ok((80, 24))), "Ok((80, 24))");
    assert_eq!(size_report(Err(String::from("gone"))), "Err(gone)");
}

#[test]
fn raw_mode_clears_the_two_flags_and_restore_is_exact() {
    let icanon = libc::ICANON as u64;
    let echo = libc::ECHO as u64;
    let original: u64 = icanon | echo | 0o4000 | 0o1;
    let controller = ModeController::new(original);
    let raw = controller.raw_flags(icanon, echo);
    assert_eq!(raw & icanon, 0);
    assert_eq!(raw & echo, 0);
    assert_eq!(raw & !(icanon | echo), original & !(icanon | echo));
    assert_eq!(controller.restore_flags(), original);
}

#[test]
fn raw_mode_on_flags_without_the_bits_is_identity() {
    let controller = ModeController::new(0o4001);
    let raw = controller.raw_flags(libc::ICANON as u64, libc::ECHO as u64);
    assert_eq!(raw, 0o4001);
    assert_eq!(controller.restore_flags(), 0o4001);
}
