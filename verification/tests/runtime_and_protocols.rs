use mre_sdk::net::dns::LookupQueue;
use mre_sdk::crash::{
    app_path_text, backtrace_corrupted_line, backtrace_frame_line, backtrace_step, backtrace_truncated_line,
    backtrace_unavailable, crash_message_line, crash_report_head, panic_step, BacktraceStep, PanicAction,
};
use mre_sdk::fs::copy::CopyTable;
use mre_sdk::graphics::layer::layer_status;
use mre_sdk::keyboard::state::set_mode_result;
use mre_sdk::net::http::{body_read_step, check_status, request_headers, tls_seed};
use mre_sdk::net::tcp::{host_c_string, ConnectStep, MreTcpError, TcpManager, VM_TCP_EVT_CONNECTED, VM_TCP_EVT_PIPE_CLOSED};
use mre_sdk::stack::{aligned_stack_top, runs_in_place};
use mre_sdk::strings::c_string;

#[test]
fn panic_stages_escalate() {
    assert_eq!(panic_step(0), (1, PanicAction::ReportThenUnwind));
    assert_eq!(panic_step(1), (2, PanicAction::Unwind));
    assert_eq!(panic_step(2), (2, PanicAction::Reset));
    assert_eq!(panic_step(200), (200, PanicAction::Reset));
}

#[test]
fn backtrace_walk_decisions() {
    assert_eq!(backtrace_step(0x2000, 0x2000, 0), BacktraceStep::End);
    assert_eq!(backtrace_step(0x3000, 0x2000, 0), BacktraceStep::End);
    assert_eq!(backtrace_step(0, 0x2000, 0), BacktraceStep::Corrupted);
    assert_eq!(backtrace_step(0x1002, 0x2000, 3), BacktraceStep::Corrupted);
    assert_eq!(backtrace_step(0x1000, 0x2000, 64), BacktraceStep::Truncated);
    assert_eq!(backtrace_step(0x1000, 0x2000, 63), BacktraceStep::Frame);
}

#[test]
fn crash_report_lines() {
    assert_eq!(
        crash_report_head(Some(("src/main.rs", 42)), "e:\\app.vxp", "arm", 0x1234ABCD),
        "File:src/main.rs\nLine:42\nApp:e:\\app.vxp\nArch:arm\nRuntimeStart:0x1234ABCD\n"
    );
    assert_eq!(
        crash_report_head(None, "unknown_path", "x86", 0x10),
        "File:unknown\nLine:0\nApp:unknown_path\nArch:x86\nRuntimeStart:0x00000010\n"
    );
    assert_eq!(backtrace_frame_line(0, 0xDEADBEEF), "Backtrace:0:0xDEADBEEF\n");
    assert_eq!(backtrace_frame_line(12, 0xA), "Backtrace:12:0x0000000A\n");
    assert_eq!(backtrace_corrupted_line(5, 0x3), "Backtrace:5:Corrupted (FP=0x00000003)\n");
    assert_eq!(backtrace_truncated_line(), "Backtrace:Truncated (Max depth reached)\n");
    assert_eq!(crash_message_line("index out of bounds"), "Msg:index out of bounds\n");
    assert_eq!(backtrace_unavailable(false, 0x100).as_deref(), Some("Backtrace:Unavailable (Frame Pointers disabled)\n"));
    assert_eq!(backtrace_unavailable(true, 0).as_deref(), Some("Backtrace:Unavailable (Stack limit unknown)\n"));
    assert_eq!(backtrace_unavailable(true, 0x100), None);
}

#[test]
fn wide_addresses_keep_all_their_digits() {
    if usize::BITS > 32 {
        let wide = 0x12_0000_0000u64 as usize;
        assert_eq!(backtrace_frame_line(1, wide), "Backtrace:1:0x1200000000\n");
    }
}

#[test]
fn app_path_for_the_report() {
    let mut buf = [0u16; 8];
    for (i, c) in "e:\\a".encode_utf16().enumerate() {
        buf[i] = c;
    }
    assert_eq!(app_path_text(0, &buf), "e:\\a");
    assert_eq!(app_path_text(-1, &buf), "unknown_path");
    assert_eq!(app_path_text(0, &[0x41, 0xD800, 0x42, 0]), "A?B");
}

#[test]
fn private_stack_top_is_aligned() {
    assert_eq!(aligned_stack_top(0x1000, 0x100), 0x1100);
    assert_eq!(aligned_stack_top(0x1001, 0x100), 0x1100);
    assert_eq!(aligned_stack_top(0x1003, 0x106), 0x1108);
    assert!(runs_in_place(0, 0, 0x5000));
    assert!(runs_in_place(0x2000, 0x1000, 0x1800));
    assert!(runs_in_place(0x2000, 0x1000, 0x2000));
    assert!(!runs_in_place(0x2000, 0x1000, 0x2004));
    assert!(!runs_in_place(0x2000, 0x1000, 0x0FFC));
}

#[test]
fn http_status_and_headers() {
    assert_eq!(check_status(200), Ok(()));
    assert_eq!(check_status(299), Ok(()));
    assert_eq!(check_status(404), Err("Server returned HTTP 404".to_string()));
    assert_eq!(check_status(199), Err("Server returned HTTP 199".to_string()));
    assert_eq!(check_status(301), Err("Server returned HTTP 301".to_string()));
    let h = request_headers(&[("Accept", "application/json")]);
    assert_eq!(h, vec![("User-Agent", "MreEngine/3.0"), ("Connection", "close"), ("Accept", "application/json")]);
    assert_eq!(tls_seed(7, 1), 0x1_0000_0007);
    assert_eq!(tls_seed(u32::MAX, u32::MAX), u64::MAX);
}

#[test]
fn body_is_read_chunk_by_chunk() {
    let mut body = Vec::new();
    assert_eq!(body_read_step(&mut body, b"hello world", Ok(5)), None);
    assert_eq!(body_read_step(&mut body, b"!!", Ok(1)), None);
    assert_eq!(body, b"hello!".to_vec());
    assert_eq!(body_read_step(&mut body, b"xyz", Ok(0)), Some(Ok(())));
    assert_eq!(body, b"hello!".to_vec());
    assert_eq!(body_read_step(&mut body, b"xyz", Err(())), Some(Err("Body read error".to_string())));
    assert_eq!(body, b"hello!".to_vec());
}

#[test]
fn c_strings_refuse_inner_zeros() {
    assert_eq!(c_string("host"), Some(b"host\0".to_vec()));
    assert_eq!(c_string(""), Some(vec![0]));
    assert_eq!(c_string("a\0b"), None);
    assert_eq!(host_c_string("example.org"), Ok(b"example.org\0".to_vec()));
    assert_eq!(host_c_string("bad\0host"), Err(MreTcpError(-1)));
}

#[test]
fn connection_attempts_poll_the_manager() {
    let mut m = TcpManager::new();
    assert_eq!(m.connect_poll(3), ConnectStep::Fail(MreTcpError(-1)));
    m.register(3);
    assert_eq!(m.connect_poll(3), ConnectStep::Wait);
    m.on_event(3, VM_TCP_EVT_CONNECTED);
    assert_eq!(m.connect_poll(3), ConnectStep::Connected);
    m.register(4);
    m.on_event(4, VM_TCP_EVT_PIPE_CLOSED);
    assert_eq!(m.connect_poll(4), ConnectStep::Fail(MreTcpError(VM_TCP_EVT_PIPE_CLOSED)));
}

#[test]
fn copy_slots_report_whether_free() {
    let mut t = CopyTable::new();
    assert!(t.is_free(0));
    assert_eq!(t.reserve(), Ok(0));
    assert!(!t.is_free(0) && t.is_free(1));
}

#[test]
fn status_results() {
    assert_eq!(layer_status(0), Ok(()));
    assert_eq!(layer_status(-3), Err(-3));
    assert_eq!(set_mode_result(0), Ok(()));
    assert_eq!(set_mode_result(2), Err(2));
}

#[test]
fn lookups_wait_their_turn() {
    let mut q: LookupQueue<&str> = LookupQueue::new();
    assert!(!q.is_busy());
    q.start();
    assert!(q.is_busy());
    q.enqueue("a.org");
    q.enqueue("b.org");
    assert_eq!(q.finish(), Some("a.org"));
    assert!(!q.is_busy());
    q.start();
    assert_eq!(q.finish(), Some("b.org"));
    assert_eq!(q.finish(), None);
    assert!(!q.is_busy());
}
